use ledger_shell::commit::CommitError;
use ledger_shell::error::Error;
use ledger_shell::ethereum::{
    Command, Config, EthereumEvent, EthereumEventKind, EthereumOracleChannels, EthereumReceiver,
    OracleChannelError,
};
use ledger_shell::mode::{ShellMode, TendermintMode, ValidatorData, ValidatorKeys};
use ledger_shell::oracle::OracleUpdate;
use ledger_shell::shell::{Event, Shell};
use ledger_shell::slashing::{
    slash_from_evidence, Evidence, EvidenceValidator, SlashType,
};
use ledger_shell::epochs::Epochs;
use ledger_shell::replay::{ReplayRecords, TempWlStorage};
use ledger_shell::storage::{
    Balance, EthAddress, EthBridgeStatus, EthereumBridgeConfig, LastBlock, PosParams, Storage,
    Validator,
};
use ledger_shell::transaction::{
    BridgePoolVext, EthEventsVext, ProtocolTxType, Signature, Tx, TxError, TxType,
    ValSetUpdateVext,
};
use ledger_shell::types;
use ledger_shell::types::{Address, DateTimeUtc, PublicKey, SecretKey, Timestamp};
use ledger_shell::vote_extensions::{
    check_signer, iter_protocol_txs, validate_bp_roots_vext, validate_eth_events_vext,
    validate_valset_upd_vext, SigningKey, VoteExtension, VoteExtensionError,
};
use tokio::sync::mpsc::{Receiver, Sender, UnboundedReceiver};

const CHAIN_ID: &str = "namada-internal.00000000000000";
const VALIDATOR: &str = "atest1v4ehgw36ggcnsdee8qerswph8y6ry3p5xgunvve3xaqngd3kxc6nqwz9gseyydzzg5unys3ht2n48q";
const RAW_HASH: &str = "0123456789ABCDEF0123456789ABCDEF01234567";
const RAW_ADDRESS: [u8; 20] = [
    0x01, 0x23, 0x45, 0x67, 0x89, 0xAB, 0xCD, 0xEF, 0x01, 0x23, 0x45, 0x67, 0x89, 0xAB, 0xCD, 0xEF,
    0x01, 0x23, 0x45, 0x67,
];
const PROTOCOL_PK: &str = "validator-protocol-public-key";
const ETH_BRIDGE_PK: &str = "validator-eth-bridge-public-key";

fn validator_data() -> ValidatorData {
    ValidatorData {
        address: Address::new(VALIDATOR),
        keys: ValidatorKeys {
            protocol_keypair: SecretKey::new("validator-protocol-secret-key"),
            eth_bridge_keypair: SecretKey::new("validator-eth-bridge-secret-key"),
            dkg_keypair: None,
        },
    }
}

fn config() -> ledger_shell::shell::Config {
    ledger_shell::shell::Config {
        chain_id: CHAIN_ID.to_string(),
        base_dir: "/tmp/ledger".to_string(),
        wasm_dir: "wasm".to_string(),
        storage_read_past_height_limit: Some(3600),
        vp_wasm_compilation_cache: 50 * 1024 * 1024,
        tx_wasm_compilation_cache: 50 * 1024 * 1024,
        mainnet: false,
        masp_tx_key: PublicKey::new("masp-tx-key"),
        masp: Address::new("atest1masp"),
    }
}

fn validator(stake: u64) -> Validator {
    Validator {
        address: Address::new(VALIDATOR),
        raw_hash: RAW_HASH.to_string(),
        protocol_key: PublicKey::new(PROTOCOL_PK),
        eth_bridge_key: PublicKey::new(ETH_BRIDGE_PK),
        bonded_stake: stake,
    }
}

fn initial_storage(last_height: u64) -> Storage {
    let mut storage = Storage::new(Address::new("atest1nam"));
    if last_height > 0 {
        storage.last_block = Some(LastBlock {
            height: last_height,
            root: types::Hash::new([0x11u8; 32]),
            time: DateTimeUtc { secs: 1_700_000_100, nanos: 0 },
        });
    }
    assert!(storage.pred_epochs.new_epoch(0));
    storage.pos_params = Some(PosParams {
        slash_processing_epoch_offset: 8,
        cubic_slashing_window_length: 1,
    });
    storage.validators.push(validator(200_000_000_000));
    storage.eth_bridge_status = Some(EthBridgeStatus::Enabled);
    storage.eth_bridge_config = Some(EthereumBridgeConfig {
        min_confirmations: 100,
        bridge_contract: EthAddress { bytes: [1u8; 20] },
        governance_contract: EthAddress { bytes: [2u8; 20] },
    });
    storage.eth_start_height = Some(17);
    storage
}

struct Harness {
    shell: Shell,
    broadcast: UnboundedReceiver<Vec<u8>>,
    events: Sender<EthereumEvent>,
    control: Receiver<Command>,
    heights: tokio::sync::watch::Sender<Option<u64>>,
}

fn harness(storage: Storage, mode: TendermintMode, with_oracle: bool) -> Harness {
    let (sender, broadcast) = tokio::sync::mpsc::unbounded_channel();
    let (events, eth_receiver) = tokio::sync::mpsc::channel(4);
    let (heights, last_processed_block_receiver) = tokio::sync::watch::channel(None);
    let (control_sender, control) = tokio::sync::mpsc::channel(1);
    let eth_oracle = if with_oracle {
        Some(EthereumOracleChannels::new(eth_receiver, control_sender, last_processed_block_receiver))
    } else {
        None
    };
    let data = if mode == TendermintMode::Validator { Some(validator_data()) } else { None };
    let shell = Shell::new(config(), storage, mode, data, sender, eth_oracle)
        .unwrap_or_else(|_| panic!("Test failed"));
    Harness { shell, broadcast, events, control, heights }
}

fn event(kind: EthereumEventKind, nonce: u64) -> EthereumEvent {
    EthereumEvent { kind, nonce }
}

// ---------------------------------------------------------------- epochs

#[test]
fn test_epoch_of_height() {
    let mut epochs = Epochs::new();
    assert_eq!(epochs.get_epoch(0), None);
    epochs.first_known_epoch = 5;
    assert!(epochs.new_epoch(10));
    assert!(epochs.new_epoch(20));
    assert!(epochs.new_epoch(21));
    assert_eq!(epochs.get_epoch(9), None);
    assert_eq!(epochs.get_epoch(10), Some(5));
    assert_eq!(epochs.get_epoch(19), Some(5));
    assert_eq!(epochs.get_epoch(20), Some(6));
    assert_eq!(epochs.get_epoch(21), Some(7));
    assert_eq!(epochs.get_epoch(u64::MAX), Some(7));
    // heights have to ascend
    assert!(!epochs.new_epoch(21));
    assert!(!epochs.new_epoch(3));
    assert_eq!(epochs.first_block_heights, vec![10, 20, 21]);
}

#[test]
fn test_well_formed_state() {
    let mut storage = initial_storage(3);
    assert!(storage.is_well_formed());
    assert!(storage.knows_oracle_start());
    // a start height is needed only while there is something to send
    storage.eth_start_height = None;
    assert!(!storage.knows_oracle_start());
    storage.ethereum_height = Some(1);
    assert!(storage.knows_oracle_start());
    storage.ethereum_height = None;
    storage.eth_bridge_status = Some(EthBridgeStatus::Disabled);
    assert!(storage.knows_oracle_start());
    // heights that do not ascend
    storage.pred_epochs.first_block_heights = vec![0, 5, 5];
    assert!(!storage.pred_epochs.is_well_formed());
    assert!(!storage.is_well_formed());
    storage.pred_epochs.first_block_heights = vec![0, 5, 4];
    assert!(!storage.is_well_formed());
    storage.pred_epochs.first_block_heights = vec![0, 5, 6];
    assert!(storage.is_well_formed());
    // an epoch number that does not fit
    storage.pred_epochs.first_known_epoch = u64::MAX - 2;
    assert!(!storage.is_well_formed());
    storage.pred_epochs.first_known_epoch = u64::MAX - 3;
    assert!(storage.is_well_formed());
    // a hash recorded twice
    storage.replay_protection.committed = vec![types::Hash::new([1; 32])];
    storage.replay_protection.pending = vec![types::Hash::new([2; 32])];
    assert!(storage.is_well_formed());
    storage.replay_protection.pending.push(types::Hash::new([1; 32]));
    assert!(!storage.replay_protection.is_well_formed());
    assert!(!storage.is_well_formed());
    storage.replay_protection.pending = vec![types::Hash::new([2; 32]); 2];
    assert!(!storage.is_well_formed());
    storage.replay_protection.pending.clear();
    storage.replay_protection.committed = vec![types::Hash::new([3; 32]); 2];
    assert!(!storage.is_well_formed());
    storage.replay_protection.committed.clear();
    assert!(storage.is_well_formed());
    // a block whose height or time is out of range
    storage.last_block.as_mut().expect("Test failed").height = i64::MAX as u64;
    assert!(storage.is_well_formed());
    storage.last_block.as_mut().expect("Test failed").height = i64::MAX as u64 + 1;
    assert!(!storage.is_well_formed());
    storage.last_block.as_mut().expect("Test failed").height = 1;
    storage.last_block.as_mut().expect("Test failed").time.nanos = 1_000_000_000;
    assert!(!storage.is_well_formed());
    storage.last_block = None;
    assert!(storage.is_well_formed());
}

#[test]
fn test_epoch_number_has_to_fit() {
    let mut epochs = Epochs::new();
    epochs.first_known_epoch = u64::MAX - 1;
    assert!(epochs.new_epoch(1));
    assert!(!epochs.new_epoch(2));
    assert_eq!(epochs.get_epoch(5), Some(u64::MAX - 1));
}

// ------------------------------------------------------- storage lookups

#[test]
fn test_balance_lookup() {
    let mut storage = initial_storage(1);
    let nam = Address::new("atest1nam");
    let btc = Address::new("atest1btc");
    let alice = Address::new("atest1alice");
    let bob = Address::new("atest1bob");
    assert_eq!(storage.get_balance(&nam, &alice), 0);
    storage.balances.push(Balance { token: nam.clone(), owner: alice.clone(), amount: 5 });
    storage.balances.push(Balance { token: btc.clone(), owner: alice.clone(), amount: 7 });
    storage.balances.push(Balance { token: nam.clone(), owner: bob.clone(), amount: 9 });
    assert_eq!(storage.get_balance(&nam, &alice), 5);
    assert_eq!(storage.get_balance(&btc, &alice), 7);
    assert_eq!(storage.get_balance(&nam, &bob), 9);
    assert_eq!(storage.get_balance(&btc, &bob), 0);
}

#[test]
fn test_validator_lookup() {
    let storage = initial_storage(1);
    let found = storage.find_validator_by_raw_hash(&RAW_HASH.to_string()).expect("Test failed");
    assert!(found.address.same(&Address::new(VALIDATOR)));
    assert!(storage.find_validator_by_raw_hash(&RAW_HASH.to_lowercase()).is_none());
    assert!(storage.find_validator(&Address::new(VALIDATOR)).is_some());
    assert!(storage.find_validator(&Address::new("atest1nobody")).is_none());
}

#[test]
fn test_last_block_accessors() {
    let storage = Storage::new(Address::new("atest1nam"));
    assert_eq!(storage.get_last_block_height(), 0);
    assert!(storage.get_last_block_timestamp().is_none());
    assert!(storage.get_state().is_none());
    assert!(!storage.is_bridge_active());
    let storage = initial_storage(9);
    assert_eq!(storage.get_last_block_height(), 9);
    assert_eq!(
        storage.get_last_block_timestamp(),
        Some(DateTimeUtc { secs: 1_700_000_100, nanos: 0 })
    );
    let (root, height) = storage.get_state().expect("Test failed");
    assert_eq!(height, 9);
    assert!(root.same(&types::Hash::new([0x11u8; 32])));
    assert!(storage.is_bridge_active());
}

// ------------------------------------------------------------- the queue

#[test]
fn test_queue_sorts_and_deduplicates() {
    let (_, channel) = tokio::sync::mpsc::channel(4);
    let mut receiver = EthereumReceiver::new(channel);
    assert!(receiver.get_events().is_empty());
    assert!(receiver.enqueue(event(EthereumEventKind::ValidatorSetUpdate, 1)));
    assert!(receiver.enqueue(event(EthereumEventKind::TransfersToNamada, 9)));
    assert!(receiver.enqueue(event(EthereumEventKind::TransfersToEthereum, 0)));
    assert!(receiver.enqueue(event(EthereumEventKind::TransfersToNamada, 2)));
    assert!(!receiver.enqueue(event(EthereumEventKind::TransfersToNamada, 9)));
    assert_eq!(
        receiver.get_events(),
        vec![
            event(EthereumEventKind::TransfersToNamada, 2),
            event(EthereumEventKind::TransfersToNamada, 9),
            event(EthereumEventKind::TransfersToEthereum, 0),
            event(EthereumEventKind::ValidatorSetUpdate, 1),
        ]
    );
    receiver.remove_event(&event(EthereumEventKind::TransfersToNamada, 9));
    receiver.remove_event(&event(EthereumEventKind::TransfersToNamada, 100));
    assert_eq!(
        receiver.get_events(),
        vec![
            event(EthereumEventKind::TransfersToNamada, 2),
            event(EthereumEventKind::TransfersToEthereum, 0),
            event(EthereumEventKind::ValidatorSetUpdate, 1),
        ]
    );
}

#[test]
fn test_queues_with_the_same_events_agree() {
    let events = [
        event(EthereumEventKind::TransfersToEthereum, 4),
        event(EthereumEventKind::TransfersToNamada, 4),
        event(EthereumEventKind::ValidatorSetUpdate, 0),
        event(EthereumEventKind::TransfersToNamada, 3),
    ];
    let (_, channel) = tokio::sync::mpsc::channel(4);
    let mut one = EthereumReceiver::new(channel);
    let (_, channel) = tokio::sync::mpsc::channel(4);
    let mut other = EthereumReceiver::new(channel);
    for e in events {
        one.enqueue(e);
    }
    for e in events.iter().rev() {
        other.enqueue(*e);
        other.enqueue(*e);
    }
    assert_eq!(one.get_events(), other.get_events());
    assert_eq!(one.get_events().len(), 4);
}

#[test]
fn test_event_keys() {
    let e = event(EthereumEventKind::TransfersToEthereum, 77);
    assert_eq!(e.key(), (1, 77));
    assert_eq!(EthereumEvent::from_key((1, 77)), e);
    assert_eq!(event(EthereumEventKind::TransfersToNamada, 0).key(), (0, 0));
    assert_eq!(event(EthereumEventKind::ValidatorSetUpdate, u64::MAX).key(), (2, u64::MAX));
    assert_eq!(
        EthereumEvent::from_key((2, 5)),
        event(EthereumEventKind::ValidatorSetUpdate, 5)
    );
}

#[test]
fn test_fill_queue_takes_what_the_oracle_sent() {
    let (sender, channel) = tokio::sync::mpsc::channel(4);
    let mut receiver = EthereumReceiver::new(channel);
    assert_eq!(receiver.fill_queue(), 0);
    sender.try_send(event(EthereumEventKind::TransfersToNamada, 3)).expect("Test failed");
    sender.try_send(event(EthereumEventKind::TransfersToNamada, 1)).expect("Test failed");
    sender.try_send(event(EthereumEventKind::TransfersToNamada, 3)).expect("Test failed");
    assert_eq!(receiver.fill_queue(), 2);
    assert_eq!(
        receiver.get_events(),
        vec![
            event(EthereumEventKind::TransfersToNamada, 1),
            event(EthereumEventKind::TransfersToNamada, 3),
        ]
    );
    // nothing new: the queue stays as it is
    sender.try_send(event(EthereumEventKind::TransfersToNamada, 1)).expect("Test failed");
    assert_eq!(receiver.fill_queue(), 0);
    assert_eq!(receiver.get_events().len(), 2);
    // the oracle is gone: nothing comes, nothing is lost
    drop(sender);
    assert_eq!(receiver.fill_queue(), 0);
    assert_eq!(receiver.get_events().len(), 2);
}

// --------------------------------------------------------------- the mode

#[test]
fn test_mode_getters() {
    let h = harness(initial_storage(1), TendermintMode::Validator, true);
    let mode = &h.shell.mode;
    assert!(mode.is_validator());
    assert!(mode.get_validator_address().expect("Test failed").same(&Address::new(VALIDATOR)));
    assert_eq!(mode.get_protocol_key().expect("Test failed").raw, "validator-protocol-secret-key");
    assert_eq!(
        mode.get_eth_bridge_keypair().expect("Test failed").raw,
        "validator-eth-bridge-secret-key"
    );
    for other in [TendermintMode::Full, TendermintMode::Seed] {
        let h = harness(initial_storage(1), other, true);
        assert!(!h.shell.mode.is_validator());
        assert!(h.shell.mode.get_validator_address().is_none());
        assert!(h.shell.mode.get_protocol_key().is_none());
        assert!(h.shell.mode.get_eth_bridge_keypair().is_none());
        assert!(matches!(h.shell.mode, ShellMode::Full | ShellMode::Seed));
    }
}

#[test]
fn test_broadcast() {
    let mut h = harness(initial_storage(1), TendermintMode::Validator, true);
    assert!(h.shell.mode.broadcast(vec![1, 2, 3]));
    assert_eq!(h.broadcast.try_recv().expect("Test failed"), vec![1, 2, 3]);
    assert!(h.broadcast.try_recv().is_err());
    // the broadcaster stops
    drop(h.broadcast);
    assert!(!h.shell.mode.broadcast(vec![4]));
    // a full node sends nothing and never fails
    let mut h = harness(initial_storage(1), TendermintMode::Full, false);
    assert!(h.shell.mode.broadcast(vec![1, 2, 3]));
    assert!(h.broadcast.try_recv().is_err());
}

#[test]
fn test_dequeue_eth_event() {
    let mut h = harness(initial_storage(1), TendermintMode::Validator, true);
    match &mut h.shell.mode {
        ShellMode::Validator { eth_oracle: Some(channels), .. } => {
            assert!(channels.ethereum_receiver.enqueue(event(EthereumEventKind::TransfersToNamada, 1)));
            assert!(channels.ethereum_receiver.enqueue(event(EthereumEventKind::TransfersToNamada, 2)));
        }
        _ => panic!("Test failed"),
    }
    h.shell.mode.dequeue_eth_event(&event(EthereumEventKind::TransfersToNamada, 1));
    match &h.shell.mode {
        ShellMode::Validator { eth_oracle: Some(channels), .. } => {
            assert_eq!(
                channels.ethereum_receiver.get_events(),
                vec![event(EthereumEventKind::TransfersToNamada, 2)]
            );
        }
        _ => panic!("Test failed"),
    }
    // without an oracle there is nothing to take from
    let mut h = harness(initial_storage(1), TendermintMode::Validator, false);
    h.shell.mode.dequeue_eth_event(&event(EthereumEventKind::TransfersToNamada, 1));
    assert!(h.shell.mode.is_validator());
    drop(h.events);
}

// ------------------------------------------------------------- the oracle

#[test]
fn test_oracle_is_configured_at_startup() {
    let mut h = harness(initial_storage(1), TendermintMode::Validator, true);
    match h.control.try_recv().expect("Test failed") {
        Command::UpdateConfig(config) => {
            assert_eq!(config.min_confirmations, 100);
            assert_eq!(config.bridge_contract.bytes, [1u8; 20]);
            assert_eq!(config.governance_contract.bytes, [2u8; 20]);
            assert_eq!(config.start_block, 17);
        }
    }
    assert!(h.control.try_recv().is_err());
}

#[test]
fn test_oracle_starts_from_its_last_reported_height() {
    let mut storage = initial_storage(1);
    storage.ethereum_height = Some(500);
    storage.eth_start_height = None;
    let mut h = harness(storage, TendermintMode::Validator, true);
    match h.control.try_recv().expect("Test failed") {
        Command::UpdateConfig(Config { start_block, .. }) => assert_eq!(start_block, 500),
    }
}

#[test]
fn test_oracle_is_left_alone() {
    // the chain has not been set up
    let mut h = harness(Storage::new(Address::new("atest1nam")), TendermintMode::Validator, true);
    assert!(h.control.try_recv().is_err());
    assert!(matches!(h.shell.update_eth_oracle(), Ok(OracleUpdate::StorageNotInitialized)));
    // the bridge is not in use
    let mut storage = initial_storage(1);
    storage.eth_bridge_status = Some(EthBridgeStatus::Disabled);
    let mut h = harness(storage, TendermintMode::Validator, true);
    assert!(h.control.try_recv().is_err());
    assert!(matches!(h.shell.update_eth_oracle(), Ok(OracleUpdate::BridgeDisabled)));
    // the bridge's parameters are missing
    let mut storage = initial_storage(1);
    storage.eth_bridge_config = None;
    let mut h = harness(storage, TendermintMode::Validator, true);
    assert!(h.control.try_recv().is_err());
    assert!(matches!(h.shell.update_eth_oracle(), Ok(OracleUpdate::ConfigNotFound)));
    assert!(h.shell.oracle_config.is_none());
    // no oracle
    let mut h = harness(initial_storage(1), TendermintMode::Validator, false);
    assert!(matches!(h.shell.update_eth_oracle(), Ok(OracleUpdate::NoOracle)));
    let mut h = harness(initial_storage(1), TendermintMode::Full, true);
    assert!(matches!(h.shell.update_eth_oracle(), Ok(OracleUpdate::NoOracle)));
    assert!(h.control.try_recv().is_err());
}

#[test]
fn test_oracle_is_told_once() {
    let mut h = harness(initial_storage(1), TendermintMode::Validator, true);
    assert!(h.control.try_recv().is_ok());
    assert_eq!(h.shell.oracle_config.expect("Test failed").start_block, 17);
    // the same work, though the oracle has moved on: nothing to tell
    h.shell.storage.ethereum_height = Some(900);
    assert!(matches!(h.shell.update_eth_oracle(), Ok(OracleUpdate::Unchanged)));
    assert!(h.control.try_recv().is_err());
    assert_eq!(h.shell.oracle_config.expect("Test failed").start_block, 17);
    // other work: the oracle is told, with the height that it has reached
    h.shell.storage.eth_bridge_config.as_mut().expect("Test failed").min_confirmations = 50;
    match h.shell.update_eth_oracle() {
        Ok(OracleUpdate::Sent(config)) => {
            assert_eq!(config.min_confirmations, 50);
            assert_eq!(config.start_block, 900);
        }
        _ => panic!("Test failed"),
    }
    match h.control.try_recv().expect("Test failed") {
        Command::UpdateConfig(config) => {
            assert_eq!(config.min_confirmations, 50);
            assert_eq!(config.start_block, 900);
        }
    }
    // another contract is other work too
    h.shell.storage.eth_bridge_config.as_mut().expect("Test failed").governance_contract =
        EthAddress { bytes: [3u8; 20] };
    assert!(matches!(h.shell.update_eth_oracle(), Ok(OracleUpdate::Sent(_))));
    assert!(matches!(h.shell.update_eth_oracle(), Ok(OracleUpdate::Unchanged)));
}

#[test]
fn test_oracle_channel_failures_are_reported() {
    let mut h = harness(initial_storage(1), TendermintMode::Validator, true);
    // the command of the start still waits in the channel, which holds one
    h.shell.storage.eth_bridge_config.as_mut().expect("Test failed").min_confirmations = 50;
    assert!(matches!(h.shell.update_eth_oracle(), Err(OracleChannelError::Full)));
    assert_eq!(h.shell.oracle_config.expect("Test failed").min_confirmations, 100);
    drop(h.control);
    assert!(matches!(h.shell.update_eth_oracle(), Err(OracleChannelError::Closed)));
    assert_eq!(
        OracleChannelError::Full.to_string(),
        "The Ethereum oracle communication channel is full!"
    );
    assert_eq!(
        OracleChannelError::Closed.to_string(),
        "The Ethereum oracle can no longer be communicated with"
    );
}

#[test]
fn test_commit_tells_the_oracle_once_the_bridge_is_set_up() {
    let mut h = harness(Storage::new(Address::new("atest1nam")), TendermintMode::Validator, true);
    assert!(h.control.try_recv().is_err());
    // the first block sets the chain up
    h.shell.storage.eth_bridge_status = Some(EthBridgeStatus::Enabled);
    h.shell.storage.eth_bridge_config = Some(EthereumBridgeConfig {
        min_confirmations: 100,
        bridge_contract: EthAddress { bytes: [1u8; 20] },
        governance_contract: EthAddress { bytes: [2u8; 20] },
    });
    h.shell.storage.eth_start_height = Some(17);
    let block = |height: u64| LastBlock {
        height,
        root: types::Hash::new([0x44u8; 32]),
        time: DateTimeUtc { secs: 1_700_000_200, nanos: 0 },
    };
    assert!(h.shell.commit(block(1), vec![]).is_ok());
    match h.control.try_recv().expect("Test failed") {
        Command::UpdateConfig(config) => assert_eq!(config.start_block, 17),
    }
    // later blocks have nothing new to tell
    assert!(h.shell.commit(block(2), vec![]).is_ok());
    assert!(h.control.try_recv().is_err());
    // until the oracle is gone and the work changes
    drop(h.control);
    assert!(h.shell.commit(block(3), vec![]).is_ok());
    h.shell.storage.eth_bridge_config.as_mut().expect("Test failed").min_confirmations = 1;
    assert_eq!(
        h.shell.commit(block(4), vec![]).err(),
        Some(CommitError::Oracle(OracleChannelError::Closed))
    );
}

#[test]
fn test_shell_does_not_start_without_its_oracle() {
    let (sender, _broadcast) = tokio::sync::mpsc::unbounded_channel();
    let (_events, eth_receiver) = tokio::sync::mpsc::channel(4);
    let (_heights, last_processed_block_receiver) = tokio::sync::watch::channel(None);
    let (control_sender, control) = tokio::sync::mpsc::channel(1);
    drop(control);
    let eth_oracle =
        EthereumOracleChannels::new(eth_receiver, control_sender, last_processed_block_receiver);
    let started = Shell::new(
        config(),
        initial_storage(1),
        TendermintMode::Validator,
        Some(validator_data()),
        sender,
        Some(eth_oracle),
    );
    assert!(matches!(started, Err(OracleChannelError::Closed)));
}

// -------------------------------------------------------------- the shell

#[test]
fn test_new_shell() {
    let h = harness(initial_storage(4), TendermintMode::Validator, true);
    let shell = &h.shell;
    assert_eq!(shell.chain_id, CHAIN_ID);
    assert_eq!(shell.config.wasm_dir, "wasm");
    assert_eq!(shell.config.storage_read_past_height_limit, Some(3600));
    assert!(shell.byzantine_validators.is_empty());
    assert!(shell.proposal_data.is_empty());
    assert!(shell.event_log().events.is_empty());
    assert_eq!(shell.gas_meter.block_gas, 0);
    assert_eq!(shell.gas_meter.transaction_gas, 0);
    assert_eq!(shell.storage.get_last_block_height(), 4);
}

#[test]
fn test_event_log() {
    let mut h = harness(initial_storage(1), TendermintMode::Full, false);
    h.shell.event_log_mut().add(Event {
        event_type: "accepted".to_string(),
        code: 0,
        info: "ok".to_string(),
    });
    assert_eq!(h.shell.event_log().events.len(), 1);
    assert_eq!(h.shell.event_log().events[0].event_type, "accepted");
}

#[test]
fn test_last_state() {
    let h = harness(Storage::new(Address::new("atest1nam")), TendermintMode::Full, false);
    let info = h.shell.last_state();
    assert!(info.last_block_app_hash.is_empty());
    assert_eq!(info.last_block_height, 0);
    let h = harness(initial_storage(12), TendermintMode::Full, false);
    let info = h.shell.last_state();
    assert_eq!(info.last_block_app_hash, vec![0x11u8; 32]);
    assert_eq!(info.last_block_height, 12);
}

#[test]
fn test_get_block_timestamp() {
    let h = harness(initial_storage(12), TendermintMode::Full, false);
    let given = Timestamp { seconds: 5, nanos: 6 };
    assert_eq!(h.shell.get_block_timestamp(Some(given)), DateTimeUtc { secs: 5, nanos: 6 });
    assert_eq!(
        h.shell.get_block_timestamp(None),
        DateTimeUtc { secs: 1_700_000_100, nanos: 0 }
    );
    // a timestamp that is no valid time
    let beyond = Timestamp { seconds: i64::MAX, nanos: 1_000_000_000 };
    assert_eq!(
        h.shell.get_block_timestamp(Some(beyond)),
        DateTimeUtc { secs: 1_700_000_100, nanos: 0 }
    );
}

#[test]
fn test_time_from_timestamp() {
    let time = |seconds: i64, nanos: i32| DateTimeUtc::from_timestamp(Timestamp { seconds, nanos });
    assert_eq!(time(0, 0), Some(DateTimeUtc { secs: 0, nanos: 0 }));
    assert_eq!(time(7, 999_999_999), Some(DateTimeUtc { secs: 7, nanos: 999_999_999 }));
    assert_eq!(time(7, 1_000_000_000), Some(DateTimeUtc { secs: 8, nanos: 0 }));
    assert_eq!(time(7, 2_000_000_001), Some(DateTimeUtc { secs: 9, nanos: 1 }));
    assert_eq!(time(7, i32::MAX), Some(DateTimeUtc { secs: 9, nanos: 147_483_647 }));
    assert_eq!(time(7, -1), Some(DateTimeUtc { secs: 6, nanos: 999_999_999 }));
    assert_eq!(time(7, -1_000_000_000), Some(DateTimeUtc { secs: 6, nanos: 0 }));
    assert_eq!(time(7, -1_000_000_001), Some(DateTimeUtc { secs: 5, nanos: 999_999_999 }));
    assert_eq!(time(7, i32::MIN), Some(DateTimeUtc { secs: 4, nanos: 852_516_352 }));
    assert_eq!(time(-1, -1), Some(DateTimeUtc { secs: -2, nanos: 999_999_999 }));
    assert_eq!(time(i64::MAX, 999_999_999), Some(DateTimeUtc { secs: i64::MAX, nanos: 999_999_999 }));
    assert_eq!(time(i64::MAX, 1_000_000_000), None);
    assert_eq!(time(i64::MIN, 0), Some(DateTimeUtc { secs: i64::MIN, nanos: 0 }));
    assert_eq!(time(i64::MIN, -1), None);
    assert_eq!(time(i64::MIN + 2, i32::MIN), None);
    assert_eq!(time(i64::MIN + 3, i32::MIN), Some(DateTimeUtc { secs: i64::MIN, nanos: 852_516_352 }));
}

#[test]
fn test_read_storage_key() {
    let h = harness(initial_storage(1), TendermintMode::Full, false);
    let shell = &h.shell;
    let five = vec![5u8, 0, 0, 0, 0, 0, 0, 0];
    assert_eq!(shell.read_storage_key_bytes(Ok((Some(five.clone()), 3))), Some(five.clone()));
    assert_eq!(shell.read_storage_key_bytes(Ok((None, 3))), None);
    assert_eq!(shell.read_storage_key_bytes(Err("broken".to_string())), None);
    assert_eq!(shell.read_storage_key::<u64>(Ok((Some(five.clone()), 3))), Some(5));
    assert_eq!(shell.read_storage_key::<u64>(Ok((Some(vec![0, 1, 0, 0, 0, 0, 0, 0]), 0))), Some(256));
    assert_eq!(shell.read_storage_key::<u64>(Ok((Some(vec![5u8; 7]), 3))), None);
    assert_eq!(shell.read_storage_key::<u64>(Ok((Some(vec![5u8; 9]), 3))), None);
    assert_eq!(shell.read_storage_key::<u64>(Ok((None, 3))), None);
    assert_eq!(shell.read_storage_key::<u64>(Err("broken".to_string())), None);
    assert_eq!(shell.read_storage_key::<bool>(Ok((Some(vec![1]), 0))), Some(true));
    assert_eq!(shell.read_storage_key::<bool>(Ok((Some(vec![2]), 0))), None);
}

// ------------------------------------------------------------- the commit

#[test]
fn test_commit() {
    let mut h = harness(initial_storage(1), TendermintMode::Validator, true);
    let seen = types::Hash::new([0x22u8; 32]);
    let applied = types::Hash::new([0x33u8; 32]);
    assert!(h.shell.storage.replay_protection.write(seen));
    assert!(h.shell.storage.replay_protection.write_pending(applied));
    h.shell.storage.epoch = 3;
    assert!(!h.shell.storage.replay_protection.has_key(&applied));
    h.heights.send(Some(1234)).expect("Test failed");
    let block = LastBlock {
        height: 2,
        root: types::Hash::new([0x44u8; 32]),
        time: DateTimeUtc { secs: 1_700_000_200, nanos: 0 },
    };
    let response = h
        .shell
        .commit(block, vec![vec![1], vec![2, 2]])
        .unwrap_or_else(|_| panic!("Test failed"));
    assert_eq!(response.data, vec![0x44u8; 32]);
    assert_eq!(h.shell.storage.get_last_block_height(), 2);
    assert_eq!(h.shell.storage.last_epoch, 3);
    assert_eq!(h.shell.storage.ethereum_height, Some(1234));
    assert!(h.shell.storage.replay_protection.has_key(&seen));
    assert!(h.shell.storage.replay_protection.has_key(&applied));
    assert!(h.shell.storage.replay_protection.pending.is_empty());
    assert_eq!(h.broadcast.try_recv().expect("Test failed"), vec![1]);
    assert_eq!(h.broadcast.try_recv().expect("Test failed"), vec![2, 2]);
    assert!(h.broadcast.try_recv().is_err());
    assert_eq!(h.shell.last_state().last_block_height, 2);
}

#[test]
fn test_commit_keeps_the_oracles_height_without_a_report() {
    let mut storage = initial_storage(1);
    storage.ethereum_height = Some(7);
    let mut h = harness(storage, TendermintMode::Validator, true);
    let block = LastBlock {
        height: 2,
        root: types::Hash::new([0x44u8; 32]),
        time: DateTimeUtc { secs: 1_700_000_200, nanos: 0 },
    };
    assert!(h.shell.commit(block, vec![]).is_ok());
    assert_eq!(h.shell.storage.ethereum_height, Some(7));
    let mut storage = Storage::new(Address::new("atest1nam"));
    storage.note_ethereum_height(None);
    assert_eq!(storage.ethereum_height, None);
    storage.note_ethereum_height(Some(3));
    storage.note_ethereum_height(None);
    assert_eq!(storage.ethereum_height, Some(3));
}

#[test]
fn test_node_without_an_oracle_needs_no_start_height() {
    let mut storage = initial_storage(1);
    storage.eth_start_height = None;
    assert!(!storage.knows_oracle_start());
    for mode in [TendermintMode::Full, TendermintMode::Seed, TendermintMode::Validator] {
        let mut storage = initial_storage(1);
        storage.eth_start_height = None;
        let mut h = harness(storage, mode, false);
        assert!(!h.shell.mode.has_oracle());
        assert!(matches!(h.shell.update_eth_oracle(), Ok(OracleUpdate::NoOracle)));
        let block = LastBlock {
            height: 2,
            root: types::Hash::new([0x44u8; 32]),
            time: DateTimeUtc { secs: 1_700_000_200, nanos: 0 },
        };
        assert!(h.shell.commit(block, vec![]).is_ok());
        assert!(h.shell.oracle_config.is_none());
    }
    let h = harness(initial_storage(1), TendermintMode::Validator, true);
    assert!(h.shell.mode.has_oracle());
}

#[test]
fn test_commit_of_a_full_node_broadcasts_nothing() {
    let mut h = harness(initial_storage(1), TendermintMode::Full, true);
    drop(h.heights);
    let block = LastBlock {
        height: 2,
        root: types::Hash::new([0x44u8; 32]),
        time: DateTimeUtc { secs: 1_700_000_200, nanos: 0 },
    };
    assert!(h.shell.commit(block, vec![vec![1]]).is_ok());
    assert!(h.broadcast.try_recv().is_err());
}

#[test]
fn test_commit_fails_once_the_broadcaster_is_gone() {
    let mut h = harness(initial_storage(1), TendermintMode::Validator, false);
    drop(h.broadcast);
    let block = LastBlock {
        height: 2,
        root: types::Hash::new([0x44u8; 32]),
        time: DateTimeUtc { secs: 1_700_000_200, nanos: 0 },
    };
    assert_eq!(h.shell.commit(block, vec![vec![1]]).err(), Some(CommitError::BroadcasterDown));
    // the block is committed all the same
    assert_eq!(h.shell.storage.get_last_block_height(), 2);
    // and without anything to broadcast there is nothing to fail
    assert!(h.shell.commit(block, vec![]).is_ok());
}

// ---------------------------------------------------------- the evidence

fn evidence(kind: i32, height: i64) -> Evidence {
    Evidence {
        kind,
        validator: Some(EvidenceValidator { address: RAW_ADDRESS.to_vec(), power: 10 }),
        height,
        total_voting_power: 10,
    }
}

/// A chain in epoch `current` whose epochs 0, 1, 2, .. began at the heights
/// 0, 10, 20, ..
fn storage_in_epoch(current: u64) -> Storage {
    let mut storage = initial_storage(1);
    for epoch in 1..=current {
        assert!(storage.pred_epochs.new_epoch(epoch * 10));
    }
    storage.epoch = current;
    storage
}

#[test]
fn test_evidence_becomes_slashes() {
    let mut h = harness(storage_in_epoch(3), TendermintMode::Full, false);
    h.shell.byzantine_validators.push(evidence(1, 25));
    h.shell.byzantine_validators.push(evidence(2, 30));
    let slashes = h.shell.record_slashes_from_evidence();
    assert_eq!(slashes.len(), 2);
    assert!(slashes[0].validator.same(&Address::new(VALIDATOR)));
    assert_eq!(slashes[0].epoch, 2);
    assert_eq!(slashes[0].block_height, 25);
    assert_eq!(slashes[0].kind, SlashType::DuplicateVote);
    assert_eq!(slashes[1].epoch, 3);
    assert_eq!(slashes[1].block_height, 30);
    assert_eq!(slashes[1].kind, SlashType::LightClientAttack);
    assert!(h.shell.byzantine_validators.is_empty());
}

#[test]
fn test_evidence_is_slashed_once() {
    let mut h = harness(storage_in_epoch(3), TendermintMode::Full, false);
    h.shell.byzantine_validators.push(evidence(1, 25));
    assert_eq!(h.shell.record_slashes_from_evidence().len(), 1);
    // the next block finds nothing left to process
    assert!(h.shell.record_slashes_from_evidence().is_empty());
    assert!(h.shell.byzantine_validators.is_empty());
}

#[test]
fn test_evidence_that_is_discarded() {
    let mut h = harness(storage_in_epoch(3), TendermintMode::Full, false);
    // a negative height
    h.shell.byzantine_validators.push(evidence(1, -1));
    // an unknown kind of misbehaviour, and numbers that stand for none
    h.shell.byzantine_validators.push(evidence(0, 25));
    h.shell.byzantine_validators.push(evidence(3, 25));
    h.shell.byzantine_validators.push(evidence(-1, 25));
    // no validator named
    h.shell.byzantine_validators.push(Evidence {
        kind: 1,
        validator: None,
        height: 25,
        total_voting_power: 10,
    });
    // a validator that the state does not know
    h.shell.byzantine_validators.push(Evidence {
        kind: 1,
        validator: Some(EvidenceValidator { address: vec![0xff; 20], power: 10 }),
        height: 25,
        total_voting_power: 10,
    });
    assert!(h.shell.record_slashes_from_evidence().is_empty());
    assert!(h.shell.byzantine_validators.is_empty());
}

#[test]
fn test_evidence_before_the_first_known_epoch() {
    let mut storage = Storage::new(Address::new("atest1nam"));
    storage.pred_epochs.first_known_epoch = 4;
    assert!(storage.pred_epochs.new_epoch(100));
    storage.epoch = 4;
    storage.validators.push(validator(1));
    let params = PosParams { slash_processing_epoch_offset: 8, cubic_slashing_window_length: 1 };
    assert!(slash_from_evidence(&storage, &params, &evidence(1, 99)).is_none());
    let slash = slash_from_evidence(&storage, &params, &evidence(1, 100)).expect("Test failed");
    assert_eq!(slash.epoch, 4);
}

#[test]
fn test_outdated_evidence() {
    // evidence from epoch e is outdated at epoch c where e + 8 - 1 <= c
    let params = PosParams { slash_processing_epoch_offset: 8, cubic_slashing_window_length: 1 };
    let storage = storage_in_epoch(9);
    // epoch 2, and 2 + 8 - 1 = 9 <= 9: outdated
    assert!(slash_from_evidence(&storage, &params, &evidence(1, 25)).is_none());
    // epoch 3, and 3 + 8 - 1 = 10 > 9: still to be slashed
    let slash = slash_from_evidence(&storage, &params, &evidence(1, 30)).expect("Test failed");
    assert_eq!(slash.epoch, 3);
    // a window as long as the offset: evidence of the current epoch is outdated at once
    let params = PosParams { slash_processing_epoch_offset: 4, cubic_slashing_window_length: 4 };
    assert!(slash_from_evidence(&storage, &params, &evidence(1, 90)).is_none());
    // the sum does not overflow
    let params = PosParams {
        slash_processing_epoch_offset: u64::MAX,
        cubic_slashing_window_length: 0,
    };
    assert!(slash_from_evidence(&storage, &params, &evidence(1, 90)).is_some());
    let params = PosParams {
        slash_processing_epoch_offset: 0,
        cubic_slashing_window_length: u64::MAX,
    };
    assert!(slash_from_evidence(&storage, &params, &evidence(1, 90)).is_none());
}

#[test]
fn test_evidence_without_pos_params_is_dropped() {
    let mut storage = storage_in_epoch(3);
    storage.pos_params = None;
    let mut h = harness(storage, TendermintMode::Full, false);
    h.shell.byzantine_validators.push(evidence(1, 25));
    assert!(h.shell.record_slashes_from_evidence().is_empty());
    assert!(h.shell.byzantine_validators.is_empty());
}

// ------------------------------------------------------------ the replays

fn wrapper(outer: u8, inner: u8) -> Tx {
    Tx::new(TxType::Raw, types::Hash::new([outer; 32]), types::Hash::new([inner; 32]))
}

fn replay_message(result: Result<(), Error>) -> String {
    match result {
        Err(Error::ReplayAttempt(message)) => message,
        _ => panic!("Test failed"),
    }
}

#[test]
fn test_replay_protection_checks() {
    let h = harness(initial_storage(1), TendermintMode::Full, false);
    let mut temp = TempWlStorage::new();
    let tx = wrapper(0xAA, 0xBB);
    assert!(h.shell.replay_protection_checks(&tx, &mut temp).is_ok());
    assert_eq!(temp.write_log.len(), 2);
    assert!(temp.write_log[0].same(&tx.raw_header_hash));
    assert!(temp.write_log[1].same(&tx.header_hash));
    // the same transaction again in the same proposal
    let message = replay_message(h.shell.replay_protection_checks(&tx, &mut temp));
    assert_eq!(message, format!("Inner transaction hash {} already in storage", "BB".repeat(32)));
    assert_eq!(temp.write_log.len(), 2);
    // another wrapper round the same inner transaction
    let message = replay_message(h.shell.replay_protection_checks(&wrapper(0xCC, 0xBB), &mut temp));
    assert_eq!(message, format!("Inner transaction hash {} already in storage", "BB".repeat(32)));
    assert_eq!(temp.write_log.len(), 2);
    // the same wrapper hash round another inner transaction: nothing is written
    let message = replay_message(h.shell.replay_protection_checks(&wrapper(0xAA, 0xDD), &mut temp));
    assert_eq!(message, format!("Wrapper transaction hash {} already in storage", "AA".repeat(32)));
    assert_eq!(temp.write_log.len(), 2);
    assert!(!temp.has_key(&h.shell.storage.replay_protection, &types::Hash::new([0xDD; 32])));
    // so the inner transaction can still come in another wrapper
    assert!(h.shell.replay_protection_checks(&wrapper(0xEE, 0xDD), &mut temp).is_ok());
    assert_eq!(temp.write_log.len(), 4);
    assert!(temp.write_log[2].same(&types::Hash::new([0xDD; 32])));
    assert!(temp.write_log[3].same(&types::Hash::new([0xEE; 32])));
    // nothing has reached the shell's own records
    assert!(h.shell.storage.replay_protection.committed.is_empty());
    assert!(h.shell.storage.replay_protection.pending.is_empty());
    // a rejected proposal's overlay is dropped, and the next one starts afresh
    let mut temp = TempWlStorage::new();
    assert!(h.shell.replay_protection_checks(&tx, &mut temp).is_ok());
    assert_eq!(
        Error::ReplayAttempt(message).to_string(),
        format!(
            "Transaction replay attempt: Wrapper transaction hash {} already in storage",
            "AA".repeat(32)
        )
    );
}

#[test]
fn test_replay_of_committed_transactions() {
    let mut h = harness(initial_storage(1), TendermintMode::Full, false);
    assert!(h.shell.storage.replay_protection.write(types::Hash::new([0xAA; 32])));
    let mut temp = TempWlStorage::new();
    let message = replay_message(h.shell.replay_protection_checks(&wrapper(0xAA, 0xBB), &mut temp));
    assert_eq!(message, format!("Wrapper transaction hash {} already in storage", "AA".repeat(32)));
    assert!(h.shell.storage.replay_protection.write(types::Hash::new([0xBB; 32])));
    let mut temp = TempWlStorage::new();
    let message = replay_message(h.shell.replay_protection_checks(&wrapper(0xAA, 0xBB), &mut temp));
    assert_eq!(message, format!("Inner transaction hash {} already in storage", "BB".repeat(32)));
    assert!(temp.write_log.is_empty());
    assert!(temp.has_key(&h.shell.storage.replay_protection, &types::Hash::new([0xAA; 32])));
    assert!(!temp.has_key(&h.shell.storage.replay_protection, &types::Hash::new([0xCC; 32])));
}

#[test]
fn test_wrapper_with_the_hash_of_its_inner_tx() {
    let h = harness(initial_storage(1), TendermintMode::Full, false);
    let mut temp = TempWlStorage::new();
    // neither hash has been seen when the check begins: both are written
    assert!(h.shell.replay_protection_checks(&wrapper(0xAA, 0xAA), &mut temp).is_ok());
    assert_eq!(temp.write_log.len(), 2);
    let message = replay_message(h.shell.replay_protection_checks(&wrapper(0xAA, 0xAA), &mut temp));
    assert_eq!(message, format!("Inner transaction hash {} already in storage", "AA".repeat(32)));
    assert_eq!(temp.write_log.len(), 2);
}

#[test]
fn test_failed_replay_check_writes_nothing() {
    let mut h = harness(initial_storage(1), TendermintMode::Full, false);
    // the wrapper's hash has been committed, the inner transaction's has not
    assert!(h.shell.storage.replay_protection.write(types::Hash::new([0xAA; 32])));
    let mut temp = TempWlStorage::new();
    temp.write(types::Hash::new([0x01; 32]));
    let message = replay_message(h.shell.replay_protection_checks(&wrapper(0xAA, 0xBB), &mut temp));
    assert_eq!(message, format!("Wrapper transaction hash {} already in storage", "AA".repeat(32)));
    assert_eq!(temp.write_log.len(), 1);
    assert!(temp.write_log[0].same(&types::Hash::new([0x01; 32])));
    // the wrapper's hash is in the overlay, the inner transaction's is not
    temp.write(types::Hash::new([0xCC; 32]));
    let message = replay_message(h.shell.replay_protection_checks(&wrapper(0xCC, 0xBB), &mut temp));
    assert_eq!(message, format!("Wrapper transaction hash {} already in storage", "CC".repeat(32)));
    assert_eq!(temp.write_log.len(), 2);
    assert!(!temp.has_key(&h.shell.storage.replay_protection, &types::Hash::new([0xBB; 32])));
}

#[test]
fn test_replay_records() {
    let mut records = ReplayRecords::new();
    let a = types::Hash::new([1; 32]);
    let b = types::Hash::new([2; 32]);
    assert!(records.write_pending(a));
    assert!(!records.has_key(&a));
    records.commit();
    assert!(records.has_key(&a));
    assert!(!records.has_key(&b));
    assert!(records.write(b));
    assert!(records.has_key(&b));
    assert_eq!(records.committed.len(), 2);
    assert!(records.pending.is_empty());
}

#[test]
fn test_no_hash_is_recorded_twice() {
    let mut records = ReplayRecords::new();
    let a = types::Hash::new([1; 32]);
    let b = types::Hash::new([2; 32]);
    assert!(records.write(a));
    assert!(!records.write(a));
    assert!(!records.write_pending(a));
    assert!(records.write_pending(b));
    assert!(!records.write_pending(b));
    assert!(!records.write(b));
    assert_eq!(records.committed.len(), 1);
    assert_eq!(records.pending.len(), 1);
    records.commit();
    assert_eq!(records.committed.len(), 2);
    assert!(!records.write_pending(a));
    assert!(!records.write_pending(b));
    assert!(records.pending.is_empty());
}

// ------------------------------------------------------- the transaction

#[test]
fn test_validate_header() {
    let pk = PublicKey::new("payer");
    let mut tx = wrapper(0xAA, 0xBB);
    assert_eq!(tx.validate_header(), Ok(()));
    tx.header.tx_type = TxType::Decrypted;
    assert_eq!(tx.validate_header(), Ok(()));
    tx.header.tx_type = TxType::Wrapper(ledger_shell::transaction::WrapperTx::new(
        ledger_shell::transaction::Fee { amount: 100, token: Address::new("atest1nam") },
        pk.clone(),
        Address::new("atest1payer"),
        0,
        0,
        None,
    ));
    assert_eq!(tx.validate_header(), Err(TxError::WrapperSignature));
    // a signature that does not verify
    tx.add_signature(Signature { target: types::Hash::new([0xAA; 32]), verifies_under: None });
    assert_eq!(tx.validate_header(), Err(TxError::WrapperSignature));
    // a valid signature by somebody else
    tx.add_signature(Signature {
        target: types::Hash::new([0xAA; 32]),
        verifies_under: Some(PublicKey::new("somebody")),
    });
    assert_eq!(tx.validate_header(), Err(TxError::WrapperSignature));
    // a valid signature over something else
    tx.add_signature(Signature {
        target: types::Hash::new([0xBB; 32]),
        verifies_under: Some(pk.clone()),
    });
    assert_eq!(tx.validate_header(), Err(TxError::WrapperSignature));
    assert!(!tx.verify_signature(&pk));
    // the real one, last of four
    tx.add_signature(Signature {
        target: types::Hash::new([0xAA; 32]),
        verifies_under: Some(pk.clone()),
    });
    assert_eq!(tx.validate_header(), Ok(()));
    assert!(tx.verify_signature(&pk));
    assert_eq!(
        TxError::WrapperSignature.to_string(),
        "WrapperTx signature verification failed"
    );
    assert_eq!(
        TxError::ProtocolSignature.to_string(),
        "ProtocolTx signature verification failed"
    );
}

// ------------------------------------------------------ vote extensions

fn eth_events_vext(height: u64, signer: Option<&str>) -> EthEventsVext {
    EthEventsVext {
        validator_addr: Address::new(VALIDATOR),
        block_height: height,
        ethereum_events: vec![event(EthereumEventKind::TransfersToNamada, 0)],
        signer: signer.map(PublicKey::new),
    }
}

#[test]
fn test_eth_events_vext_rules() {
    let mut storage = initial_storage(3);
    let ok = eth_events_vext(3, Some(PROTOCOL_PK));
    assert_eq!(validate_eth_events_vext(&storage, &ok, 3), Ok(200_000_000_000));
    // cast on another block than the last
    assert_eq!(
        validate_eth_events_vext(&storage, &eth_events_vext(2, Some(PROTOCOL_PK)), 3),
        Err(VoteExtensionError::UnexpectedBlockHeight)
    );
    assert_eq!(
        validate_eth_events_vext(&storage, &eth_events_vext(4, Some(PROTOCOL_PK)), 3),
        Err(VoteExtensionError::UnexpectedBlockHeight)
    );
    // before the first block
    assert_eq!(
        validate_eth_events_vext(&storage, &eth_events_vext(0, Some(PROTOCOL_PK)), 0),
        Err(VoteExtensionError::UnexpectedBlockHeight)
    );
    // signed with the wrong key, or not validly at all
    assert_eq!(
        validate_eth_events_vext(&storage, &eth_events_vext(3, Some(ETH_BRIDGE_PK)), 3),
        Err(VoteExtensionError::VerifySigFailed)
    );
    assert_eq!(
        validate_eth_events_vext(&storage, &eth_events_vext(3, None), 3),
        Err(VoteExtensionError::VerifySigFailed)
    );
    // by somebody who is no validator
    let mut stranger = eth_events_vext(3, Some(PROTOCOL_PK));
    stranger.validator_addr = Address::new("atest1stranger");
    assert_eq!(
        validate_eth_events_vext(&storage, &stranger, 3),
        Err(VoteExtensionError::PubKeyNotInStorage)
    );
    // by a validator without bonded stake
    storage.validators[0].bonded_stake = 0;
    assert_eq!(
        validate_eth_events_vext(&storage, &ok, 3),
        Err(VoteExtensionError::PubKeyNotInStorage)
    );
    storage.validators[0].bonded_stake = 1;
    assert_eq!(validate_eth_events_vext(&storage, &ok, 3), Ok(1));
    // with the bridge out of use, whatever else holds
    storage.eth_bridge_status = Some(EthBridgeStatus::Disabled);
    assert_eq!(
        validate_eth_events_vext(&storage, &ok, 3),
        Err(VoteExtensionError::EthereumBridgeInactive)
    );
    assert_eq!(
        validate_eth_events_vext(&storage, &eth_events_vext(2, None), 3),
        Err(VoteExtensionError::EthereumBridgeInactive)
    );
}

#[test]
fn test_bp_roots_vext_rules() {
    let mut storage = initial_storage(3);
    let vext = |height: u64, signer: &str| BridgePoolVext {
        validator_addr: Address::new(VALIDATOR),
        block_height: height,
        signer: Some(PublicKey::new(signer)),
    };
    assert_eq!(validate_bp_roots_vext(&storage, &vext(3, ETH_BRIDGE_PK), 3), Ok(200_000_000_000));
    assert_eq!(
        validate_bp_roots_vext(&storage, &vext(3, PROTOCOL_PK), 3),
        Err(VoteExtensionError::VerifySigFailed)
    );
    assert_eq!(
        validate_bp_roots_vext(&storage, &vext(1, ETH_BRIDGE_PK), 3),
        Err(VoteExtensionError::UnexpectedBlockHeight)
    );
    storage.eth_bridge_status = None;
    assert_eq!(
        validate_bp_roots_vext(&storage, &vext(3, ETH_BRIDGE_PK), 3),
        Err(VoteExtensionError::EthereumBridgeInactive)
    );
}

#[test]
fn test_valset_upd_vext_rules() {
    let storage = initial_storage(3);
    let vext = |epoch: u64, signer: &str| ValSetUpdateVext {
        validator_addr: Address::new(VALIDATOR),
        signing_epoch: epoch,
        signer: Some(PublicKey::new(signer)),
    };
    let mut storage = storage;
    storage.last_epoch = 4;
    storage.epoch = 5;
    assert_eq!(validate_valset_upd_vext(&storage, &vext(4, ETH_BRIDGE_PK), 4), Ok(200_000_000_000));
    // cast in the current epoch, not the last one
    assert_eq!(
        validate_valset_upd_vext(&storage, &vext(5, ETH_BRIDGE_PK), 4),
        Err(VoteExtensionError::UnexpectedEpoch)
    );
    assert_eq!(
        validate_valset_upd_vext(&storage, &vext(5, ETH_BRIDGE_PK), 5),
        Err(VoteExtensionError::UnexpectedEpoch)
    );
    // while the last completed epoch is still in progress no vote is due
    storage.epoch = 4;
    assert_eq!(
        validate_valset_upd_vext(&storage, &vext(4, ETH_BRIDGE_PK), 4),
        Err(VoteExtensionError::UnexpectedEpoch)
    );
    storage.epoch = 5;
    assert_eq!(
        validate_valset_upd_vext(&storage, &vext(3, ETH_BRIDGE_PK), 4),
        Err(VoteExtensionError::UnexpectedEpoch)
    );
    assert_eq!(
        validate_valset_upd_vext(&storage, &vext(4, PROTOCOL_PK), 4),
        Err(VoteExtensionError::VerifySigFailed)
    );
    assert_eq!(
        check_signer(
            &storage,
            &Address::new(VALIDATOR),
            &Some(PublicKey::new(PROTOCOL_PK)),
            SigningKey::Protocol
        ),
        Ok(200_000_000_000)
    );
}

#[test]
fn test_craft_extension() {
    let mut h = harness(initial_storage(3), TendermintMode::Validator, true);
    h.events.try_send(event(EthereumEventKind::TransfersToNamada, 2)).expect("Test failed");
    h.events.try_send(event(EthereumEventKind::TransfersToNamada, 1)).expect("Test failed");
    h.events.try_send(event(EthereumEventKind::TransfersToNamada, 2)).expect("Test failed");
    let ext = h.shell.craft_extension(None);
    let events = ext.ethereum_events.expect("Test failed");
    assert!(events.validator_addr.same(&Address::new(VALIDATOR)));
    assert_eq!(events.block_height, 3);
    assert_eq!(
        events.ethereum_events,
        vec![
            event(EthereumEventKind::TransfersToNamada, 1),
            event(EthereumEventKind::TransfersToNamada, 2),
        ]
    );
    assert!(events.signer.as_ref().expect("Test failed").same(&PublicKey::new(PROTOCOL_PK)));
    let root = ext.bridge_pool_root.expect("Test failed");
    assert_eq!(root.block_height, 3);
    assert!(root.signer.as_ref().expect("Test failed").same(&PublicKey::new(ETH_BRIDGE_PK)));
    assert!(ext.validator_set_update.is_none());
    // what this validator crafts, it accepts
    assert_eq!(validate_eth_events_vext(&h.shell.storage, &events, 3), Ok(200_000_000_000));
    assert_eq!(validate_bp_roots_vext(&h.shell.storage, &root, 3), Ok(200_000_000_000));

    // the events stay in the queue until a block has taken them up
    let again = h.shell.craft_extension(Some(9));
    assert_eq!(again.ethereum_events.expect("Test failed").ethereum_events.len(), 2);
    let update = again.validator_set_update.expect("Test failed");
    assert_eq!(update.signing_epoch, 9);
    assert_eq!(validate_valset_upd_vext(&h.shell.storage, &update, 9), Ok(200_000_000_000));
    h.shell.mode.dequeue_eth_events(&vec![
        event(EthereumEventKind::TransfersToNamada, 1),
        event(EthereumEventKind::TransfersToNamada, 7),
    ]);
    let left = h.shell.craft_extension(None);
    assert_eq!(
        left.ethereum_events.expect("Test failed").ethereum_events,
        vec![event(EthereumEventKind::TransfersToNamada, 2)]
    );
}

#[test]
fn test_craft_extension_with_the_bridge_out_of_use() {
    let mut storage = initial_storage(3);
    storage.eth_bridge_status = Some(EthBridgeStatus::Disabled);
    let mut h = harness(storage, TendermintMode::Validator, true);
    h.events.try_send(event(EthereumEventKind::TransfersToNamada, 2)).expect("Test failed");
    let ext = h.shell.craft_extension(Some(4));
    assert!(ext.ethereum_events.is_none());
    assert!(ext.bridge_pool_root.is_none());
    assert_eq!(ext.validator_set_update.as_ref().expect("Test failed").signing_epoch, 4);
    // the oracle's event was left in the channel
    assert_eq!(h.shell.mode.new_ethereum_events().len(), 1);
    let txs = iter_protocol_txs(ext);
    assert_eq!(txs.len(), 1);
    assert!(matches!(txs[0], ProtocolTxType::ValSetUpdateVext(_)));
}

#[test]
fn test_craft_extension_of_an_unknown_validator() {
    let mut storage = initial_storage(3);
    storage.validators.clear();
    let mut h = harness(storage, TendermintMode::Validator, false);
    let ext = h.shell.craft_extension(None);
    let events = ext.ethereum_events.expect("Test failed");
    assert!(events.signer.is_none());
    assert!(events.ethereum_events.is_empty());
    assert_eq!(
        validate_eth_events_vext(&h.shell.storage, &events, 3),
        Err(VoteExtensionError::PubKeyNotInStorage)
    );
}

#[test]
fn test_iter_protocol_txs() {
    let all = VoteExtension {
        ethereum_events: Some(eth_events_vext(3, Some(PROTOCOL_PK))),
        bridge_pool_root: Some(BridgePoolVext {
            validator_addr: Address::new(VALIDATOR),
            block_height: 3,
            signer: None,
        }),
        validator_set_update: Some(ValSetUpdateVext {
            validator_addr: Address::new(VALIDATOR),
            signing_epoch: 1,
            signer: None,
        }),
    };
    let txs = iter_protocol_txs(all);
    assert_eq!(txs.len(), 3);
    assert!(matches!(txs[0], ProtocolTxType::EthEventsVext(_)));
    assert!(matches!(txs[1], ProtocolTxType::BridgePoolVext(_)));
    assert!(matches!(txs[2], ProtocolTxType::ValSetUpdateVext(_)));
    let none = VoteExtension {
        ethereum_events: None,
        bridge_pool_root: None,
        validator_set_update: None,
    };
    assert!(iter_protocol_txs(none).is_empty());
    let two = VoteExtension {
        ethereum_events: Some(eth_events_vext(3, None)),
        bridge_pool_root: None,
        validator_set_update: Some(ValSetUpdateVext {
            validator_addr: Address::new(VALIDATOR),
            signing_epoch: 1,
            signer: None,
        }),
    };
    let txs = iter_protocol_txs(two);
    assert_eq!(txs.len(), 2);
    assert!(matches!(txs[0], ProtocolTxType::EthEventsVext(_)));
    assert!(matches!(txs[1], ProtocolTxType::ValSetUpdateVext(_)));
}

#[test]
fn test_vote_extension_error_messages() {
    assert_eq!(
        VoteExtensionError::EthereumBridgeInactive.to_string(),
        "The Ethereum bridge is currently not active"
    );
    assert_eq!(
        VoteExtensionError::UnexpectedBlockHeight.to_string(),
        "The vote extension was issued for an unexpected block height"
    );
    assert_eq!(
        VoteExtensionError::UnexpectedEpoch.to_string(),
        "The vote extension was issued for an unexpected epoch"
    );
    assert_eq!(
        VoteExtensionError::PubKeyNotInStorage.to_string(),
        "The vote extension was issued by a node that is not a bonded validator"
    );
    assert_eq!(
        VoteExtensionError::VerifySigFailed.to_string(),
        "The vote extension's signature is invalid"
    );
}
