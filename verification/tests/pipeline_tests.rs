use node_service::block::{Block, Header, ProductionDigest, Transaction};
use node_service::finality::AuthoritySet;
use node_service::hashing::{fold_seed_word, fold_words, mix};
use node_service::outcome::{BlockOrigin, ImportOutcome, VerificationFault};
use node_service::pipeline::ImportPipeline;
use node_service::store::ChainStore;

fn tx(hash: u64, priority: u64) -> Transaction {
    Transaction { hash, priority }
}

fn block(parent_hash: u64, number: u64, state_root: u64, slot: u64, author: u64, body: Vec<Transaction>) -> Block {
    Block {
        header: Header {
            parent_hash,
            number,
            state_root,
            digest: ProductionDigest { slot, author },
        },
        body,
    }
}

fn genesis() -> Block {
    block(0, 0, 7, 0, 0, vec![])
}

fn setup() -> (ChainStore, ImportPipeline, AuthoritySet) {
    let store = ChainStore::open(genesis());
    let pipeline = ImportPipeline::new();
    let auth = AuthoritySet::genesis(vec![10, 20, 30]);
    (store, pipeline, auth)
}

#[test]
fn mix_matches_formula() {
    // One exact value of the mixing step, computed independently.
    let expected = ((1u128 * 0x100000001b3u128 + 2u128 + 0x9e3779b97f4a7c15u128)
        % (1u128 << 64)) as u64;
    assert_eq!(mix(1, 2), expected);
    assert_eq!(mix(0, 0), 0x9e3779b97f4a7c15u64);
}

#[test]
fn fold_words_matches_formula() {
    assert_eq!(fold_words(&vec![]), 0xcbf29ce484222325u64);
    let one = fold_words(&vec![5]);
    assert_eq!(one, mix(fold_seed_word(), 5));
    let two = fold_words(&vec![5, 6]);
    assert_eq!(two, mix(mix(fold_seed_word(), 5), 6));
}

#[test]
fn content_hash_depends_on_body() {
    let a = block(0, 1, 0, 1, 10, vec![tx(1, 1)]);
    let b = block(0, 1, 0, 1, 10, vec![tx(2, 1)]);
    assert_ne!(a.content_hash(), b.content_hash());
    assert_eq!(a.content_hash(), a.clone().content_hash());
}

#[test]
fn import_first_block_becomes_best() {
    let (mut store, mut pipeline, auth) = setup();
    let g = store.best;
    let a = block(g, 1, 0, 1, 10, vec![tx(1, 1)]);
    let outcome = pipeline.import(&mut store, &auth, &a, BlockOrigin::Local);
    assert_eq!(outcome, ImportOutcome::Imported { is_new_best: true });
    assert_eq!(store.best, a.content_hash());
    assert_eq!(store.notifications.len(), 1);
    assert!(store.notifications[0].is_new_best);
}

#[test]
fn competing_block_ties_are_kept_by_first_seen() {
    // Block A at height one wins; competing B at the same height does not
    // displace it; a child of B then wins by chain length.
    let (mut store, mut pipeline, auth) = setup();
    let g = store.best;
    let a = block(g, 1, 0, 1, 10, vec![tx(1, 1)]);
    let b = block(g, 1, 0, 2, 20, vec![tx(9, 1)]);
    assert_eq!(
        pipeline.import(&mut store, &auth, &a, BlockOrigin::Local),
        ImportOutcome::Imported { is_new_best: true }
    );
    assert_eq!(
        pipeline.import(&mut store, &auth, &b, BlockOrigin::Network),
        ImportOutcome::Imported { is_new_best: false }
    );
    assert_eq!(store.best, a.content_hash());
    let c = block(b.content_hash(), 2, 0, 3, 30, vec![]);
    assert_eq!(
        pipeline.import(&mut store, &auth, &c, BlockOrigin::Network),
        ImportOutcome::Imported { is_new_best: true }
    );
    assert_eq!(store.best, c.content_hash());
}

#[test]
fn reimport_is_idempotent_and_emits_no_duplicate_notification() {
    let (mut store, mut pipeline, auth) = setup();
    let g = store.best;
    let a = block(g, 1, 0, 1, 10, vec![tx(1, 1)]);
    assert_eq!(
        pipeline.import(&mut store, &auth, &a, BlockOrigin::Local),
        ImportOutcome::Imported { is_new_best: true }
    );
    let notes_before = store.notifications.len();
    for _ in 0..3 {
        assert_eq!(
            pipeline.import(&mut store, &auth, &a, BlockOrigin::Network),
            ImportOutcome::AlreadyInChain
        );
    }
    assert_eq!(store.notifications.len(), notes_before);
    assert_eq!(store.blocks.len(), 2);
}

#[test]
fn missing_parent_is_reported() {
    let (mut store, mut pipeline, auth) = setup();
    let orphan = block(12345, 5, 0, 5, 10, vec![]);
    assert_eq!(
        pipeline.import(&mut store, &auth, &orphan, BlockOrigin::Network),
        ImportOutcome::MissingParent
    );
    assert_eq!(store.blocks.len(), 1);
}

#[test]
fn finalized_conflict_is_known_bad_and_best_unchanged() {
    let (mut store, mut pipeline, auth) = setup();
    let g = store.best;
    let a = block(g, 1, 0, 1, 10, vec![]);
    let b = block(a.content_hash(), 2, 0, 2, 20, vec![]);
    pipeline.import(&mut store, &auth, &a, BlockOrigin::Local);
    pipeline.import(&mut store, &auth, &b, BlockOrigin::Network);
    // Finalize A; a competing branch off genesis now conflicts with it.
    store.finalize(a.content_hash());
    let best_before = store.best;
    let fork = block(g, 1, 9, 3, 30, vec![]);
    assert_eq!(
        pipeline.import(&mut store, &auth, &fork, BlockOrigin::Network),
        ImportOutcome::KnownBad
    );
    assert_eq!(store.best, best_before);
    // A block above the finalized height whose ancestry misses the
    // finalized head is rejected too.
    let fork2 = block(g, 1, 11, 3, 30, vec![]);
    assert_eq!(
        pipeline.import(&mut store, &auth, &fork2, BlockOrigin::Network),
        ImportOutcome::KnownBad
    );
}

#[test]
fn orphan_below_finalized_height_is_still_missing_parent() {
    // The parent lookup comes before any finality comparison: a candidate
    // whose parent is unknown is transient, even at or below the finalized
    // height, so it can be retried once the parent arrives.
    let (mut store, mut pipeline, auth) = setup();
    let g = store.best;
    let a = block(g, 1, 0, 1, 10, vec![]);
    let b = block(a.content_hash(), 2, 0, 2, 20, vec![]);
    pipeline.import(&mut store, &auth, &a, BlockOrigin::Local);
    pipeline.import(&mut store, &auth, &b, BlockOrigin::Network);
    store.finalize(b.content_hash());
    let orphan = block(777777, 1, 0, 1, 10, vec![]);
    assert_eq!(
        pipeline.import(&mut store, &auth, &orphan, BlockOrigin::Network),
        ImportOutcome::MissingParent
    );
    // With the parent present, the same height is a finality conflict.
    let sibling = block(g, 1, 5, 1, 10, vec![]);
    assert_eq!(
        pipeline.import(&mut store, &auth, &sibling, BlockOrigin::Network),
        ImportOutcome::KnownBad
    );
}

#[test]
fn verification_faults_are_reported() {
    let (mut store, mut pipeline, auth) = setup();
    let g = store.best;
    // Height must be the parent's plus one.
    let wrong_number = block(g, 3, 0, 1, 10, vec![]);
    assert_eq!(
        pipeline.import(&mut store, &auth, &wrong_number, BlockOrigin::Network),
        ImportOutcome::VerificationFailed { fault: VerificationFault::NumberMismatch }
    );
    // The slot must strictly increase over the parent's (genesis claims 0).
    let stale_slot = block(g, 1, 0, 0, 10, vec![]);
    assert_eq!(
        pipeline.import(&mut store, &auth, &stale_slot, BlockOrigin::Network),
        ImportOutcome::VerificationFailed { fault: VerificationFault::SlotNotIncreasing }
    );
    // A network block must claim an author in the authority set.
    let outsider = block(g, 1, 0, 1, 99, vec![]);
    assert_eq!(
        pipeline.import(&mut store, &auth, &outsider, BlockOrigin::Network),
        ImportOutcome::VerificationFailed { fault: VerificationFault::AuthorNotAuthorized }
    );
    // A locally authored block was authorized by the oracle already.
    let local = block(g, 1, 0, 1, 99, vec![]);
    assert_eq!(
        pipeline.import(&mut store, &auth, &local, BlockOrigin::Local),
        ImportOutcome::Imported { is_new_best: true }
    );
}

#[test]
fn committed_block_round_trips_unchanged() {
    let (mut store, mut pipeline, auth) = setup();
    let g = store.best;
    let a = block(g, 1, 42, 1, 10, vec![tx(1, 3), tx(2, 1)]);
    let expected = a.clone();
    pipeline.import(&mut store, &auth, &a, BlockOrigin::Local);
    let got = store.get_block(a.content_hash());
    assert_eq!(got.header, expected.header);
    assert_eq!(got.body, expected.body);
}

#[test]
fn compatibility_hints_are_recorded_once() {
    let (mut store, mut pipeline, auth) = setup();
    let g = store.best;
    let a = block(g, 1, 0, 1, 10, vec![]);
    pipeline.import(&mut store, &auth, &a, BlockOrigin::Local);
    pipeline.import(&mut store, &auth, &a, BlockOrigin::Local);
    let h = a.content_hash();
    assert_eq!(pipeline.hints.iter().filter(|x| **x == h).count(), 1);
}

#[test]
fn ancestor_walk_follows_parent_links() {
    let (mut store, mut pipeline, auth) = setup();
    let g = store.best;
    let a = block(g, 1, 0, 1, 10, vec![]);
    let b = block(a.content_hash(), 2, 0, 2, 20, vec![]);
    pipeline.import(&mut store, &auth, &a, BlockOrigin::Local);
    pipeline.import(&mut store, &auth, &b, BlockOrigin::Network);
    assert_eq!(store.ancestor_at(b.content_hash(), 1), a.content_hash());
    assert_eq!(store.ancestor_at(b.content_hash(), 0), g);
    assert_eq!(store.ancestor_at(b.content_hash(), 2), b.content_hash());
}
