use node_service::block::{Block, Header, ProductionDigest, Transaction};
use node_service::lifecycle::{ShutdownReason, TaskClass, TaskStatus};
use node_service::outcome::{BlockOrigin, ImportError, ImportOutcome};
use node_service::service::{
    frontier_database_path, remote_keystore, ChainSpec, IdentifyVariant, NodeConfig, NodeService,
    ServiceError, SlotAction,
};

fn tx(hash: u64, priority: u64) -> Transaction {
    Transaction { hash, priority }
}

fn block(parent_hash: u64, number: u64, slot: u64, author: u64, body: Vec<Transaction>) -> Block {
    Block {
        header: Header {
            parent_hash,
            number,
            state_root: 0,
            digest: ProductionDigest { slot, author },
        },
        body,
    }
}

fn config(local_identity: Option<u64>) -> NodeConfig {
    NodeConfig {
        chain_spec: ChainSpec { id: String::from("automata_testnet") },
        keystore_remote: None,
        genesis: block(0, 0, 0, 0, vec![]),
        authorities: vec![10, 20, 30],
        local_identity,
        strict_mapping: false,
        mapping_batch: 4,
        enable_finality: true,
        telemetry: true,
    }
}

#[test]
fn chain_spec_identifies_variants() {
    let automata = ChainSpec { id: String::from("automata_mainnet") };
    assert!(automata.is_automata());
    assert!(!automata.is_contextfree());
    let contextfree = ChainSpec { id: String::from("contextfree") };
    assert!(!contextfree.is_automata());
    assert!(contextfree.is_contextfree());
    let other = ChainSpec { id: String::from("dev") };
    assert!(!other.is_automata());
    assert!(!other.is_contextfree());
    let empty = ChainSpec { id: String::new() };
    assert!(!empty.is_automata());
}

#[test]
fn remote_keystores_are_refused() {
    assert!(remote_keystore(&String::from("tcp://signer")).is_err());
    let mut cfg = config(Some(10));
    cfg.keystore_remote = Some(String::from("tcp://signer"));
    match NodeService::new_full(cfg) {
        Err(e) => assert_eq!(e, ServiceError::RemoteKeystoreUnsupported),
        Ok(_) => panic!("a remote keystore must be refused"),
    }
}

#[test]
fn frontier_path_is_under_config_dir() {
    assert_eq!(frontier_database_path("base"), "base/frontier/db");
}

#[test]
fn partial_components_share_one_genesis_view() {
    let parts = NodeService::new_partial(config(Some(10))).unwrap();
    assert_eq!(parts.store.blocks.len(), 1);
    assert_eq!(parts.store.notifications.len(), 0);
    assert_eq!(parts.gadget.authority_set.version, 0);
    assert_eq!(parts.gadget.authority_set.authorities, vec![10, 20, 30]);
    assert_eq!(parts.local_identity, Some(10));
    assert_eq!(parts.mapping.batch, 4);
    assert!(parts.enable_finality);
    assert!(parts.pipeline.hints.is_empty());
}

#[test]
fn full_service_registers_the_expected_tasks() {
    // An authority with finality and telemetry: mapping, production and
    // voter are essential; telemetry and discovery are best-effort.
    let svc = NodeService::new_full(config(Some(10))).unwrap();
    let classes: Vec<TaskClass> = svc.lifecycle.tasks.iter().map(|t| t.class).collect();
    assert_eq!(
        classes,
        vec![
            TaskClass::Essential,
            TaskClass::Essential,
            TaskClass::Essential,
            TaskClass::BestEffort,
            TaskClass::BestEffort,
        ]
    );
    assert_eq!(svc.mapping_task, Some(0));
    assert_eq!(svc.production_task, Some(1));
    assert_eq!(svc.finality_task, Some(2));
    // A non-authority without finality or telemetry registers the mapping
    // worker alone.
    let mut cfg = config(None);
    cfg.enable_finality = false;
    cfg.telemetry = false;
    let follower = NodeService::new_full(cfg).unwrap();
    assert_eq!(follower.lifecycle.tasks.len(), 1);
    assert_eq!(follower.mapping_task, Some(0));
    assert_eq!(follower.production_task, None);
    assert_eq!(follower.finality_task, None);
}

#[test]
fn full_service_produces_and_broadcasts() {
    let mut svc = NodeService::new_full(config(Some(10))).unwrap();
    let pool = vec![tx(1, 2), tx(2, 1)];
    match svc.on_slot_tick(1, true, &pool) {
        SlotAction::Produced { outcome, broadcast } => {
            assert_eq!(outcome, ImportOutcome::Imported { is_new_best: true });
            assert!(broadcast);
        },
        SlotAction::Skipped => panic!("an authorized slot must produce"),
    }
    // The produced block is retrievable with its body intact.
    let best = svc.store.best;
    let got = svc.store.get_block(best);
    assert_eq!(got.body, pool);
    assert_eq!(got.header.number, 1);
    // A duplicate tick for the same slot is skipped: no equivocation.
    assert_eq!(svc.on_slot_tick(1, true, &pool), SlotAction::Skipped);
    // An unauthorized slot is skipped.
    assert_eq!(svc.on_slot_tick(2, false, &pool), SlotAction::Skipped);
}

#[test]
fn light_service_never_authors() {
    let mut svc = NodeService::new_light(config(None)).unwrap();
    assert_eq!(svc.on_slot_tick(1, true, &vec![]), SlotAction::Skipped);
    assert!(svc.production.is_none());
    assert!(svc.mapping.is_none());
    // No essential task is registered: only best-effort telemetry.
    assert!(svc.production_task.is_none());
    assert!(svc.mapping_task.is_none());
    assert!(svc.finality_task.is_none());
    for t in svc.lifecycle.tasks.iter() {
        assert_eq!(t.class, TaskClass::BestEffort);
    }
    // An observer's voter log stays empty however many imports it sees.
    assert!(svc.gadget.voter_log.is_empty());
    // It still imports network blocks.
    let g = svc.store.best;
    let a = block(g, 1, 1, 10, vec![]);
    assert_eq!(
        svc.import(&a, BlockOrigin::Network),
        Ok(ImportOutcome::Imported { is_new_best: true })
    );
}

#[test]
fn finality_task_failure_stops_all_imports() {
    let mut svc = NodeService::new_full(config(Some(10))).unwrap();
    let g = svc.store.best;
    let a = block(g, 1, 1, 10, vec![]);
    assert!(svc.import(&a, BlockOrigin::Network).is_ok());
    // The finality gadget task fails; the lifecycle manager tears the
    // service down, records why, and cancels the other workers.
    let voter_task = svc.finality_task.unwrap();
    svc.on_task_terminated(voter_task, true);
    assert!(svc.lifecycle.shutdown);
    assert_eq!(
        svc.lifecycle.reason,
        Some(ShutdownReason::EssentialTaskFailed { task: voter_task })
    );
    assert_eq!(svc.lifecycle.tasks[voter_task].status, TaskStatus::Failed);
    assert_eq!(
        svc.lifecycle.tasks[svc.mapping_task.unwrap()].status,
        TaskStatus::Cancelled
    );
    assert_eq!(
        svc.lifecycle.tasks[svc.production_task.unwrap()].status,
        TaskStatus::Cancelled
    );
    // No further imports are accepted.
    let b = block(a.content_hash(), 2, 2, 10, vec![]);
    assert_eq!(svc.import(&b, BlockOrigin::Network), Err(ImportError::ServiceStopped));
    assert_eq!(svc.on_slot_tick(5, true, &vec![]), SlotAction::Skipped);
}

#[test]
fn strict_mapping_failure_is_fatal_to_the_service() {
    let mut cfg = config(Some(10));
    cfg.strict_mapping = true;
    let mut svc = NodeService::new_full(cfg).unwrap();
    assert!(svc.sync_mapping(true).is_err());
    assert!(svc.lifecycle.shutdown);
    let g = svc.store.best;
    let a = block(g, 1, 1, 10, vec![]);
    assert_eq!(svc.import(&a, BlockOrigin::Network), Err(ImportError::ServiceStopped));
}

#[test]
fn service_finalizes_descendants_only() {
    let mut svc = NodeService::new_full(config(Some(10))).unwrap();
    let g = svc.store.best;
    let a = block(g, 1, 1, 10, vec![]);
    let b = block(a.content_hash(), 2, 2, 10, vec![]);
    let fork = block(g, 1, 3, 20, vec![]);
    svc.import(&a, BlockOrigin::Network).unwrap();
    svc.import(&b, BlockOrigin::Network).unwrap();
    svc.import(&fork, BlockOrigin::Network).unwrap();
    assert!(svc.try_finalize(a.content_hash()));
    assert_eq!(svc.store.finalized, a.content_hash());
    // A fork below the finalized head cannot be finalized.
    assert!(!svc.try_finalize(fork.content_hash()));
    // An unknown hash cannot be finalized.
    assert!(!svc.try_finalize(424242));
    // A descendant can.
    assert!(svc.try_finalize(b.content_hash()));
    assert_eq!(svc.store.finalized, b.content_hash());
    assert_eq!(svc.gadget.justifications.len(), 2);
}

#[test]
fn gadget_votes_on_imported_blocks_only_when_participant() {
    let mut svc = NodeService::new_full(config(Some(10))).unwrap();
    let g = svc.store.best;
    let a = block(g, 1, 1, 10, vec![]);
    svc.import(&a, BlockOrigin::Network).unwrap();
    assert!(svc.poll_finality());
    assert!(!svc.poll_finality());
    assert_eq!(svc.gadget.voter_log.len(), 1);
    assert_eq!(svc.gadget.voter_log[0].target, a.content_hash());
}

#[test]
fn rpc_builder_captures_a_consistent_view() {
    let mut svc = NodeService::new_full(config(Some(10))).unwrap();
    let g = svc.store.best;
    let a = block(g, 1, 1, 10, vec![tx(7, 1)]);
    svc.import(&a, BlockOrigin::Network).unwrap();
    svc.sync_mapping(false).unwrap();
    svc.poll_finality();
    let deps = svc.build_rpc(true);
    assert_eq!(deps.best_hash, a.content_hash());
    assert_eq!(deps.best_number, 1);
    assert_eq!(deps.finalized_hash, g);
    assert!(deps.is_authority);
    assert!(deps.deny_unsafe);
    assert!(!deps.enable_dev_signer);
    assert_eq!(deps.pending_index_len, 1);
    assert_eq!(deps.voter_state.len(), svc.gadget.voter_log.len());
    assert_eq!(deps.authority_set.authorities, vec![10, 20, 30]);
    assert_eq!(deps.max_past_logs, 10000);
    // Building twice captures the same view and changes nothing.
    let deps2 = svc.build_rpc(true);
    assert_eq!(deps2.best_hash, deps.best_hash);
    assert_eq!(deps2.pending_index_len, deps.pending_index_len);
}

#[test]
fn mapping_worker_keeps_pace_with_service_imports() {
    let mut svc = NodeService::new_full(config(Some(10))).unwrap();
    let mut parent = svc.store.best;
    for number in 1..=3u64 {
        let b = block(parent, number, number, 10, vec![tx(number, 1)]);
        parent = b.content_hash();
        svc.import(&b, BlockOrigin::Network).unwrap();
    }
    let consumed = svc.sync_mapping(false).unwrap();
    assert_eq!(consumed, 3);
    assert_eq!(svc.mapping.as_ref().unwrap().index.len(), 3);
}
