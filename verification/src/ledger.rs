//! The record store: at most one article record per derived address, with
//! publish and visibility-update as its only transitions.
//!
//! The store is viewed as a map from 32-byte addresses to article values.
//! Both operations are specified against that map by the pure transition
//! functions [`spec_publish`] and [`spec_set_visibility`], so that every
//! outcome — which error comes back, and exactly how the map changes — is
//! pinned down.

use vstd::prelude::*;
use crate::article::{Article, ArticleView};
use crate::address::article_address;
use crate::address::derive_article_address;
use crate::error::{AuroraError, LedgerError};
use crate::event::{ArticlePublished, VisibilityUpdated};
use crate::handlers::{
    publish_article, publish_rejection, published_view, update_visibility, PublishArticle,
    UpdateVisibility,
};

verus! {

/// The map that a sequence of (address, record) pairs denotes; a later
/// pair wins, though the store keeps its keys distinct.
pub open spec fn map_of(rs: Seq<([u8; 32], Article)>) -> Map<Seq<u8>, ArticleView>
    decreases rs.len(),
{
    if rs.len() == 0 {
        Map::empty()
    } else {
        map_of(rs.drop_last()).insert(rs.last().0@, rs.last().1@)
    }
}

/// No two pairs carry the same address.
pub open spec fn distinct_keys(rs: Seq<([u8; 32], Article)>) -> bool {
    forall|i: int, j: int| 0 <= i < j < rs.len() ==> rs[i].0@ != rs[j].0@
}

proof fn lemma_map_of_contains(rs: Seq<([u8; 32], Article)>, k: Seq<u8>)
    ensures
        map_of(rs).contains_key(k) <==> (exists|i: int| 0 <= i < rs.len() && rs[i].0@ == k),
    decreases rs.len(),
{
    if rs.len() > 0 {
        lemma_map_of_contains(rs.drop_last(), k);
        if map_of(rs).contains_key(k) {
            if k == rs.last().0@ {
                assert(rs[rs.len() - 1].0@ == k);
            } else {
                let i = choose|i: int|
                    0 <= i < rs.drop_last().len() && rs.drop_last()[i].0@ == k;
                assert(rs[i].0@ == k);
            }
        }
        if exists|i: int| 0 <= i < rs.len() && rs[i].0@ == k {
            let i = choose|i: int| 0 <= i < rs.len() && rs[i].0@ == k;
            if i < rs.len() - 1 {
                assert(rs.drop_last()[i].0@ == k);
            }
        }
    }
}

proof fn lemma_map_of_index(rs: Seq<([u8; 32], Article)>, i: int)
    requires
        0 <= i < rs.len(),
        distinct_keys(rs),
    ensures
        map_of(rs).contains_key(rs[i].0@),
        map_of(rs)[rs[i].0@] == rs[i].1@,
    decreases rs.len(),
{
    if i < rs.len() - 1 {
        assert(distinct_keys(rs.drop_last()));
        lemma_map_of_index(rs.drop_last(), i);
        assert(rs.drop_last()[i] == rs[i]);
        assert(rs[i].0@ != rs.last().0@);
    }
}

proof fn lemma_map_of_push(rs: Seq<([u8; 32], Article)>, p: ([u8; 32], Article))
    ensures
        map_of(rs.push(p)) == map_of(rs).insert(p.0@, p.1@),
{
    assert(rs.push(p).drop_last() =~= rs);
    assert(rs.push(p).last() == p);
}

proof fn lemma_map_of_update(rs: Seq<([u8; 32], Article)>, i: int, p: ([u8; 32], Article))
    requires
        0 <= i < rs.len(),
        distinct_keys(rs),
        p.0@ == rs[i].0@,
    ensures
        map_of(rs.update(i, p)) == map_of(rs).insert(p.0@, p.1@),
    decreases rs.len(),
{
    let rs2 = rs.update(i, p);
    if i == rs.len() - 1 {
        assert(rs2.drop_last() =~= rs.drop_last());
        assert(rs2.last() == p);
        assert(map_of(rs.drop_last()).insert(rs.last().0@, rs.last().1@).insert(p.0@, p.1@)
            =~= map_of(rs.drop_last()).insert(p.0@, p.1@));
    } else {
        assert(distinct_keys(rs.drop_last()));
        assert(rs.drop_last()[i] == rs[i]);
        lemma_map_of_update(rs.drop_last(), i, p);
        assert(rs2.drop_last() =~= rs.drop_last().update(i, p));
        assert(rs2.last() == rs.last());
        assert(p.0@ != rs.last().0@);
        assert(map_of(rs.drop_last()).insert(p.0@, p.1@).insert(rs.last().0@, rs.last().1@)
            =~= map_of(rs.drop_last()).insert(rs.last().0@, rs.last().1@).insert(p.0@, p.1@));
    }
}

/// What a publish request does to the store: the resulting record (or the
/// error) and the resulting map, as a pure function of the present map,
/// the program id, the signer and the arguments.
pub open spec fn spec_publish(
    m: Map<Seq<u8>, ArticleView>,
    program_id: Seq<u8>,
    author: Seq<u8>,
    content_hash: Seq<u8>,
    intuition_hash: Seq<u8>,
    arweave_id: Seq<char>,
    title: Seq<char>,
    ai_scope: Seq<char>,
    is_public: bool,
    now: i64,
) -> (Result<ArticleView, LedgerError>, Map<Seq<u8>, ArticleView>) {
    match article_address(program_id, author, content_hash) {
        None => (Err(LedgerError::AddressUnavailable), m),
        Some(d) => if m.contains_key(d.0) {
            (Err(LedgerError::RecordAlreadyExists), m)
        } else {
            match publish_rejection(content_hash, arweave_id, title, ai_scope) {
                Some(e) => (Err(LedgerError::Rejected(e)), m),
                None => {
                    let v = published_view(
                        author,
                        content_hash,
                        intuition_hash,
                        arweave_id,
                        title,
                        ai_scope,
                        is_public,
                        now,
                        d.1,
                    );
                    (Ok(v), m.insert(d.0, v))
                },
            }
        },
    }
}

/// What a visibility update does to the store: the updated record (or the
/// error) and the resulting map, as a pure function of the present map,
/// the target address, the signer and the new flag.
pub open spec fn spec_set_visibility(
    m: Map<Seq<u8>, ArticleView>,
    address: Seq<u8>,
    signer: Seq<u8>,
    is_public: bool,
) -> (Result<ArticleView, LedgerError>, Map<Seq<u8>, ArticleView>) {
    if !m.contains_key(address) {
        (Err(LedgerError::RecordNotFound), m)
    } else if m[address].author != signer {
        (Err(LedgerError::Rejected(AuroraError::Unauthorized)), m)
    } else {
        let v = ArticleView { is_public, ..m[address] };
        (Ok(v), m.insert(address, v))
    }
}

/// The record store. The host ledger serializes all operations that touch
/// it, so each method runs as one atomic transition.
pub struct Ledger {
    program_id: [u8; 32],
    records: Vec<([u8; 32], Article)>,
}

impl View for Ledger {
    type V = Map<Seq<u8>, ArticleView>;

    closed spec fn view(&self) -> Map<Seq<u8>, ArticleView> {
        map_of(self.records@)
    }
}

impl Ledger {
    /// Identity of the program the store derives addresses under.
    pub closed spec fn spec_program_id(&self) -> Seq<u8> {
        self.program_id@
    }

    /// The store's invariant: addresses are pairwise distinct, every
    /// record is well formed, and every record sits at the address derived
    /// from its own author and content hash, with the bump that the
    /// derivation chose.
    pub closed spec fn wf(&self) -> bool {
        &&& distinct_keys(self.records@)
        &&& forall|i: int|
            0 <= i < self.records@.len() ==> (#[trigger] self.records@[i]).1@.wf()
        &&& forall|i: int|
            0 <= i < self.records@.len() ==> article_address(
                self.program_id@,
                (#[trigger] self.records@[i]).1@.author,
                self.records@[i].1@.content_hash,
            ) == Some((self.records@[i].0@, self.records@[i].1@.bump))
    }

    /// An empty store for a program id.
    pub fn new(program_id: [u8; 32]) -> (l: Ledger)
        ensures
            l.wf(),
            l@ == Map::<Seq<u8>, ArticleView>::empty(),
            l.spec_program_id() == program_id@,
    {
        Ledger { program_id, records: Vec::new() }
    }

    /// The program id the store was created with.
    pub fn program_id(&self) -> (r: [u8; 32])
        ensures
            r@ == self.spec_program_id(),
    {
        self.program_id
    }

    fn find_index(&self, address: &[u8; 32]) -> (r: Option<usize>)
        ensures
            match r {
                Some(i) => i < self.records@.len() && self.records@[i as int].0@ == address@,
                None => forall|i: int|
                    0 <= i < self.records@.len() ==> self.records@[i].0@ != address@,
            },
    {
        let mut i: usize = 0;
        while i < self.records.len()
            invariant
                i <= self.records@.len(),
                forall|j: int| 0 <= j < i ==> self.records@[j].0@ != address@,
            decreases self.records@.len() - i,
        {
            if crate::bytes32_eq(&self.records[i].0, address) {
                return Some(i);
            }
            i += 1;
        }
        None
    }

    /// Looks up the record at an address: `Some` exactly when one exists.
    pub fn get_article(&self, address: &[u8; 32]) -> (r: Option<&Article>)
        requires
            self.wf(),
        ensures
            r is Some <==> self@.contains_key(address@),
            r is Some ==> r.unwrap()@ == self@[address@],
    {
        proof {
            lemma_map_of_contains(self.records@, address@);
        }
        match self.find_index(address) {
            Some(i) => {
                proof {
                    lemma_map_of_index(self.records@, i as int);
                }
                Some(&self.records[i].1)
            },
            None => None,
        }
    }

    /// Every record the store holds is well formed, fits the allocated
    /// byte budget, and sits at the address derived from its own author
    /// and content hash, with the bump the derivation chose.
    pub proof fn lemma_stored_record_invariant(&self, k: Seq<u8>)
        requires
            self.wf(),
            self@.contains_key(k),
        ensures
            self@[k].wf(),
            self@[k].required_space() <= Article::SPACE as int,
            article_address(self.spec_program_id(), self@[k].author, self@[k].content_hash)
                == Some((k, self@[k].bump)),
    {
        lemma_map_of_contains(self.records@, k);
        let i = choose|i: int| 0 <= i < self.records@.len() && self.records@[i].0@ == k;
        lemma_map_of_index(self.records@, i);
        crate::article::lemma_space_sufficient(self@[k]);
    }

    /// At most one record exists per (author, content hash) pair: two
    /// stored records that agree on both sit at the same address, because
    /// each sits at the address derived from its own pair.
    pub proof fn lemma_one_record_per_pair(&self, k1: Seq<u8>, k2: Seq<u8>)
        requires
            self.wf(),
            self@.contains_key(k1),
            self@.contains_key(k2),
            self@[k1].author == self@[k2].author,
            self@[k1].content_hash == self@[k2].content_hash,
        ensures
            k1 == k2,
    {
        self.lemma_stored_record_invariant(k1);
        self.lemma_stored_record_invariant(k2);
    }

    /// Publishes a new article record for the signing author.
    ///
    /// The record's address is derived from the author and the content
    /// hash; the operation fails structurally when a record already exists
    /// there, and with the handler's error when validation rejects the
    /// inputs. On success the store gains exactly that one record,
    /// initialized from the inputs, the clock reading `now` and the
    /// derived bump, and the returned event carries the author, the
    /// content hash, `now` and the initial flag.
    pub fn publish(
        &mut self,
        ctx: &PublishArticle,
        content_hash: [u8; 32],
        intuition_hash: [u8; 32],
        arweave_id: String,
        title: String,
        ai_scope: String,
        is_public: bool,
        now: i64,
    ) -> (r: Result<ArticlePublished, LedgerError>)
        requires
            old(self).wf(),
        ensures
            final(self).wf(),
            final(self).spec_program_id() == old(self).spec_program_id(),
            ({
                let o = spec_publish(
                    old(self)@,
                    old(self).spec_program_id(),
                    ctx.author@,
                    content_hash@,
                    intuition_hash@,
                    arweave_id@,
                    title@,
                    ai_scope@,
                    is_public,
                    now,
                );
                &&& final(self)@ == o.1
                &&& (r is Err <==> o.0 is Err)
                &&& (r is Err ==> r->Err_0 == o.0->Err_0)
                &&& (r is Ok ==> o.0 is Ok && r->Ok_0 == (ArticlePublished {
                    author: ctx.author,
                    content_hash,
                    timestamp: now,
                    is_public,
                }))
            }),
    {
        let d = derive_article_address(&self.program_id, &ctx.author, &content_hash);
        let (address, bump) = match d {
            None => {
                return Err(LedgerError::AddressUnavailable);
            },
            Some(p) => p,
        };
        proof {
            lemma_map_of_contains(self.records@, address@);
        }
        match self.find_index(&address) {
            Some(_) => {
                return Err(LedgerError::RecordAlreadyExists);
            },
            None => {},
        }
        match publish_article(
            ctx,
            content_hash,
            intuition_hash,
            arweave_id,
            title,
            ai_scope,
            is_public,
            now,
            bump,
        ) {
            Err(e) => Err(LedgerError::Rejected(e)),
            Ok((article, event)) => {
                let ghost rs_old = self.records@;
                self.records.push((address, article));
                proof {
                    lemma_map_of_push(rs_old, (address, article));
                    assert forall|i: int, j: int|
                        0 <= i < j < self.records@.len() implies self.records@[i].0@
                        != self.records@[j].0@ by {
                        if j == self.records@.len() - 1 {
                            assert(rs_old[i].0@ != address@);
                        }
                    }
                }
                Ok(event)
            },
        }
    }

    /// Sets the visibility flag of the record at a caller-supplied
    /// address.
    ///
    /// Fails structurally when no record exists there, and as unauthorized
    /// when the signer is not the stored author, in both cases leaving the
    /// store untouched. On success only that record's `is_public` changes,
    /// and the returned event carries the address and the new flag.
    pub fn set_visibility(&mut self, ctx: &UpdateVisibility, is_public: bool) -> (r: Result<
        VisibilityUpdated,
        LedgerError,
    >)
        requires
            old(self).wf(),
        ensures
            final(self).wf(),
            final(self).spec_program_id() == old(self).spec_program_id(),
            ({
                let o = spec_set_visibility(old(self)@, ctx.article@, ctx.author@, is_public);
                &&& final(self)@ == o.1
                &&& (r is Err <==> o.0 is Err)
                &&& (r is Err ==> r->Err_0 == o.0->Err_0)
                &&& (r is Ok ==> o.0 is Ok && r->Ok_0 == (VisibilityUpdated {
                    article: ctx.article,
                    is_public,
                }))
            }),
    {
        proof {
            lemma_map_of_contains(self.records@, ctx.article@);
        }
        let i = match self.find_index(&ctx.article) {
            None => {
                return Err(LedgerError::RecordNotFound);
            },
            Some(i) => i,
        };
        proof {
            lemma_map_of_index(self.records@, i as int);
        }
        let ghost rs_old = self.records@;
        match update_visibility(ctx, &mut self.records[i].1, is_public) {
            Err(e) => {
                proof {
                    assert(self.records@ =~= rs_old);
                }
                Err(LedgerError::Rejected(e))
            },
            Ok(event) => {
                proof {
                    assert(self.records@ =~= rs_old.update(
                        i as int,
                        (rs_old[i as int].0, self.records@[i as int].1),
                    ));
                    lemma_map_of_update(
                        rs_old,
                        i as int,
                        (rs_old[i as int].0, self.records@[i as int].1),
                    );
                }
                Ok(event)
            },
        }
    }
}

} // verus!
