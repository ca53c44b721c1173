use aurora_scholar::article::Article;
use aurora_scholar::address::derive_article_address;
use aurora_scholar::error::{AuroraError, LedgerError};
use aurora_scholar::handlers::PublishArticle;
use aurora_scholar::ledger::Ledger;

const PROGRAM_ID: [u8; 32] = [7u8; 32];

fn publish_with(
    ledger: &mut Ledger,
    author: [u8; 32],
    content_hash: [u8; 32],
    arweave_id: &str,
    title: &str,
    ai_scope: &str,
    is_public: bool,
    now: i64,
) -> Result<aurora_scholar::event::ArticlePublished, LedgerError> {
    let ctx = PublishArticle { author };
    ledger.publish(
        &ctx,
        content_hash,
        [3u8; 32],
        arweave_id.to_string(),
        title.to_string(),
        ai_scope.to_string(),
        is_public,
        now,
    )
}

#[test]
fn publish_then_lookup_returns_record() {
    let mut ledger = Ledger::new(PROGRAM_ID);
    let author = [1u8; 32];
    let content_hash = [2u8; 32];
    let ctx = PublishArticle { author };
    let event = ledger
        .publish(
            &ctx,
            content_hash,
            [3u8; 32],
            "ar-id".to_string(),
            "A title".to_string(),
            "scope".to_string(),
            true,
            1_700_000_000,
        )
        .expect("publish of a fresh pair succeeds");

    assert_eq!(event.author, author);
    assert_eq!(event.content_hash, content_hash);
    assert_eq!(event.timestamp, 1_700_000_000);
    assert!(event.is_public);

    let (address, bump) = derive_article_address(&PROGRAM_ID, &author, &content_hash)
        .expect("a bump exists for these seeds");
    let article: &Article = ledger
        .get_article(&address)
        .expect("the record sits at the derived address");
    assert_eq!(article.author, author);
    assert_eq!(article.content_hash, content_hash);
    assert_eq!(article.intuition_hash, [3u8; 32]);
    assert_eq!(article.arweave_id, "ar-id");
    assert_eq!(article.title, "A title");
    assert_eq!(article.ai_scope, "scope");
    assert!(article.is_public);
    assert_eq!(article.timestamp, 1_700_000_000);
    assert_eq!(article.bump, bump);
}

#[test]
fn publish_twice_same_pair_fails() {
    let mut ledger = Ledger::new(PROGRAM_ID);
    let author = [1u8; 32];
    let content_hash = [2u8; 32];
    publish_with(&mut ledger, author, content_hash, "first", "First", "s", false, 10)
        .expect("first publish succeeds");

    let second = publish_with(&mut ledger, author, content_hash, "other", "Other", "t", true, 20);
    assert_eq!(second, Err(LedgerError::RecordAlreadyExists));

    let (address, _) = derive_article_address(&PROGRAM_ID, &author, &content_hash).unwrap();
    let article = ledger.get_article(&address).unwrap();
    assert_eq!(article.arweave_id, "first");
    assert_eq!(article.title, "First");
    assert_eq!(article.timestamp, 10);
    assert!(!article.is_public);
}

#[test]
fn publish_zero_content_hash_rejected() {
    let mut ledger = Ledger::new(PROGRAM_ID);
    let author = [1u8; 32];
    let r = publish_with(&mut ledger, author, [0u8; 32], "a", "t", "s", true, 1);
    assert_eq!(r, Err(LedgerError::Rejected(AuroraError::InvalidContentHash)));
    let (address, _) = derive_article_address(&PROGRAM_ID, &author, &[0u8; 32]).unwrap();
    assert!(ledger.get_article(&address).is_none());
}

#[test]
fn publish_succeeds_at_exact_boundary_lengths() {
    let mut ledger = Ledger::new(PROGRAM_ID);
    let r = publish_with(
        &mut ledger,
        [1u8; 32],
        [2u8; 32],
        &"a".repeat(64),
        &"t".repeat(128),
        &"s".repeat(256),
        false,
        5,
    );
    assert!(r.is_ok());
}

#[test]
fn publish_arweave_id_too_long_rejected() {
    let mut ledger = Ledger::new(PROGRAM_ID);
    let r = publish_with(&mut ledger, [1u8; 32], [2u8; 32], &"a".repeat(65), "t", "s", false, 5);
    assert_eq!(r, Err(LedgerError::Rejected(AuroraError::ArweaveIdTooLong)));
}

#[test]
fn publish_title_too_long_rejected() {
    let mut ledger = Ledger::new(PROGRAM_ID);
    let r = publish_with(
        &mut ledger,
        [1u8; 32],
        [2u8; 32],
        &"a".repeat(64),
        &"t".repeat(129),
        "s",
        false,
        5,
    );
    assert_eq!(r, Err(LedgerError::Rejected(AuroraError::TitleTooLong)));
}

#[test]
fn publish_ai_scope_too_long_rejected() {
    let mut ledger = Ledger::new(PROGRAM_ID);
    let r = publish_with(
        &mut ledger,
        [1u8; 32],
        [2u8; 32],
        "a",
        "t",
        &"s".repeat(257),
        false,
        5,
    );
    assert_eq!(r, Err(LedgerError::Rejected(AuroraError::AiScopeTooLong)));
}

#[test]
fn length_is_measured_in_bytes_not_chars() {
    // 33 two-byte characters: 33 chars but 66 bytes, over the 64-byte cap.
    let mut ledger = Ledger::new(PROGRAM_ID);
    let wide = "é".repeat(33);
    assert_eq!(wide.chars().count(), 33);
    assert_eq!(wide.len(), 66);
    let r = publish_with(&mut ledger, [1u8; 32], [2u8; 32], &wide, "t", "s", false, 5);
    assert_eq!(r, Err(LedgerError::Rejected(AuroraError::ArweaveIdTooLong)));
}

#[test]
fn distinct_pairs_publish_independently() {
    let mut ledger = Ledger::new(PROGRAM_ID);
    assert!(publish_with(&mut ledger, [1u8; 32], [2u8; 32], "a", "t", "s", false, 1).is_ok());
    assert!(publish_with(&mut ledger, [1u8; 32], [9u8; 32], "b", "u", "v", true, 2).is_ok());
    assert!(publish_with(&mut ledger, [4u8; 32], [2u8; 32], "c", "w", "x", true, 3).is_ok());

    let (a1, _) = derive_article_address(&PROGRAM_ID, &[1u8; 32], &[2u8; 32]).unwrap();
    let (a2, _) = derive_article_address(&PROGRAM_ID, &[1u8; 32], &[9u8; 32]).unwrap();
    let (a3, _) = derive_article_address(&PROGRAM_ID, &[4u8; 32], &[2u8; 32]).unwrap();
    assert_ne!(a1, a2);
    assert_ne!(a1, a3);
    assert_ne!(a2, a3);
    assert_eq!(ledger.get_article(&a1).unwrap().arweave_id, "a");
    assert_eq!(ledger.get_article(&a2).unwrap().arweave_id, "b");
    assert_eq!(ledger.get_article(&a3).unwrap().arweave_id, "c");
}

#[test]
fn space_budget_is_exact() {
    // type tag + three 32-byte fields + three prefixed text maxima + flag,
    // clock and bump.
    assert_eq!(
        Article::SPACE,
        8 + 32 + 32 + 32 + (4 + 64) + (4 + 128) + (4 + 256) + 1 + 8 + 1
    );
    assert_eq!(Article::SPACE, 574);
}
