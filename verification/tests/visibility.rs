use aurora_scholar::address::derive_article_address;
use aurora_scholar::error::{AuroraError, LedgerError};
use aurora_scholar::event::VisibilityUpdated;
use aurora_scholar::handlers::{PublishArticle, UpdateVisibility};
use aurora_scholar::ledger::Ledger;

const PROGRAM_ID: [u8; 32] = [7u8; 32];

fn ledger_with_record(author: [u8; 32], content_hash: [u8; 32], is_public: bool) -> (Ledger, [u8; 32]) {
    let mut ledger = Ledger::new(PROGRAM_ID);
    let ctx = PublishArticle { author };
    ledger
        .publish(
            &ctx,
            content_hash,
            [3u8; 32],
            "ar-id".to_string(),
            "A title".to_string(),
            "scope".to_string(),
            is_public,
            1_000,
        )
        .expect("publish succeeds");
    let (address, _) = derive_article_address(&PROGRAM_ID, &author, &content_hash).unwrap();
    (ledger, address)
}

#[test]
fn author_flips_visibility_and_nothing_else() {
    let author = [1u8; 32];
    let (mut ledger, address) = ledger_with_record(author, [2u8; 32], false);
    let before = ledger.get_article(&address).unwrap().clone();

    let ctx = UpdateVisibility { article: address, author };
    let event = ledger.set_visibility(&ctx, true).expect("author may update");
    assert_eq!(event, VisibilityUpdated { article: address, is_public: true });

    let after = ledger.get_article(&address).unwrap();
    assert!(after.is_public);
    assert_eq!(after.author, before.author);
    assert_eq!(after.content_hash, before.content_hash);
    assert_eq!(after.intuition_hash, before.intuition_hash);
    assert_eq!(after.arweave_id, before.arweave_id);
    assert_eq!(after.title, before.title);
    assert_eq!(after.ai_scope, before.ai_scope);
    assert_eq!(after.timestamp, before.timestamp);
    assert_eq!(after.bump, before.bump);
}

#[test]
fn other_signer_is_unauthorized_and_record_unchanged() {
    let author = [1u8; 32];
    let (mut ledger, address) = ledger_with_record(author, [2u8; 32], false);
    let before = ledger.get_article(&address).unwrap().clone();

    let ctx = UpdateVisibility { article: address, author: [9u8; 32] };
    let r = ledger.set_visibility(&ctx, true);
    assert_eq!(r, Err(LedgerError::Rejected(AuroraError::Unauthorized)));
    assert_eq!(ledger.get_article(&address).unwrap(), &before);
}

#[test]
fn setting_same_value_twice_is_idempotent() {
    let author = [1u8; 32];
    let (mut ledger, address) = ledger_with_record(author, [2u8; 32], false);
    let ctx = UpdateVisibility { article: address, author };

    let first = ledger.set_visibility(&ctx, true).expect("first update succeeds");
    let once = ledger.get_article(&address).unwrap().clone();
    let second = ledger.set_visibility(&ctx, true).expect("second update succeeds");
    let twice = ledger.get_article(&address).unwrap();

    assert_eq!(first, second);
    assert_eq!(twice, &once);
}

#[test]
fn update_of_missing_record_fails() {
    let mut ledger = Ledger::new(PROGRAM_ID);
    let ctx = UpdateVisibility { article: [5u8; 32], author: [1u8; 32] };
    assert_eq!(ledger.set_visibility(&ctx, true), Err(LedgerError::RecordNotFound));
}

#[test]
fn end_to_end_publish_update_and_foreign_update() {
    let author_a = [1u8; 32];
    let author_b = [2u8; 32];
    let h1 = [11u8; 32];
    let mut ledger = Ledger::new(PROGRAM_ID);

    let ctx = PublishArticle { author: author_a };
    ledger
        .publish(
            &ctx,
            h1,
            [3u8; 32],
            "ar".to_string(),
            "T".to_string(),
            "sc".to_string(),
            false,
            42,
        )
        .expect("publish succeeds");

    let (address, _) = derive_article_address(&PROGRAM_ID, &author_a, &h1).unwrap();
    assert!(!ledger.get_article(&address).unwrap().is_public);

    let ctx_a = UpdateVisibility { article: address, author: author_a };
    ledger.set_visibility(&ctx_a, true).expect("author may update");
    let after = ledger.get_article(&address).unwrap();
    assert!(after.is_public);
    assert_eq!(after.title, "T");
    assert_eq!(after.timestamp, 42);

    let ctx_b = UpdateVisibility { article: address, author: author_b };
    assert_eq!(
        ledger.set_visibility(&ctx_b, false),
        Err(LedgerError::Rejected(AuroraError::Unauthorized))
    );
    assert!(ledger.get_article(&address).unwrap().is_public);
}
