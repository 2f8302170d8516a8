use soroban_sdk::Env;
use trustline_engine::engine::{
    compute_intent_id, init, version, EngineState, Error, GuardedOp, TxMetadata, TxState,
};
use trustline_engine::registry::RegistryState;
use trustline_engine::sanctions::SanctionsListState;
use trustline_engine::types::{Addr, Table};
use trustline_sdk::types::ValidationMode;

struct World {
    env: Env,
    admin: Addr,
    oracle: Addr,
    protocol: Addr,
    registry: RegistryState,
    engine: EngineState,
    now: u64,
}

fn addr(n: u8) -> Addr {
    Addr::account([n; 32])
}

fn setup() -> World {
    let env = Env::default();
    let admin = addr(1);
    let oracle = addr(2);
    let protocol = Addr::contract([3; 32]);
    let (mut registry, _) = RegistryState::new(admin);
    registry.set_oracle(oracle, true);
    let registry_id = Addr::contract([4; 32]);
    let (engine, _) = init(admin, registry_id, 1800, 432000, 60);
    let now = env.ledger().timestamp();
    World { env, admin, oracle, protocol, registry, engine, now }
}

fn intent(w: &World, sender: &Addr, protocol: &Addr, value: i128, data: &[u8]) -> [u8; 32] {
    compute_intent_id(&w.env, ValidationMode::Dapp, sender, protocol, value, data)
}

fn publish(w: &mut World, oracle: &Addr, id: &[u8; 32], policy: [u8; 32], ts: u64, manual: bool) -> Result<(), Error> {
    let approved = w.registry.is_oracle(oracle);
    w.engine
        .add_tx(&w.env, id, &policy, ts, manual, approved, w.now)
        .map(|_| ())
}

/// The screened addresses that a sanctions list reports.
fn flagged_by(list: Option<&SanctionsListState>, sender: &Addr, addresses: &[Addr]) -> Vec<Addr> {
    let mut out = Vec::new();
    if let Some(list) = list {
        if list.is_sanctioned(sender) {
            out.push(*sender);
        }
        for a in addresses {
            if list.is_sanctioned(a) {
                out.push(*a);
            }
        }
    }
    out
}

fn state_of(w: &World, sender: &Addr, id: &[u8; 32]) -> TxState {
    w.engine.get_tx_state(sender, id, &Vec::new(), &Vec::new(), w.now)
}

fn require(w: &mut World, sender: &Addr, value: i128, data: &[u8]) -> Result<(), Error> {
    let protocol = w.protocol;
    w.engine
        .require_trustline(&w.env, &protocol, sender, value, data, &Vec::new(), w.now)
        .map(|_| ())
}

fn check(w: &World, sender: &Addr, value: i128, data: &[u8]) -> bool {
    w.engine
        .check_trustline_status(&w.env, &w.protocol, sender, value, data, &Vec::new(), w.now)
}

#[test]
fn add_tx_then_require_trustline_consumes_once() {
    let mut w = setup();
    let sender = addr(10);
    let value: i128 = 100;
    let data = b"pay";
    let id = intent(&w, &sender, &w.protocol, value, data);
    let ts = w.now;
    let oracle = w.oracle;
    publish(&mut w, &oracle, &id, [0u8; 32], ts, false).unwrap();
    assert_eq!(state_of(&w, &sender, &id), TxState::Approved);

    require(&mut w, &sender, value, data).unwrap();
    assert_eq!(state_of(&w, &sender, &id), TxState::Unknown);

    let second = require(&mut w, &sender, value, data);
    assert!(second.is_err());
}

#[test]
fn add_tx_rejects_non_oracle() {
    let mut w = setup();
    let impostor = addr(11);
    let sender = addr(12);
    let id = intent(&w, &sender, &w.protocol, 1, b"x");
    let now = w.now;
    assert!(publish(&mut w, &impostor, &id, [7u8; 32], now, false).is_err());
}

#[test]
fn expired_proof_is_rejected() {
    let mut w = setup();
    let sender = addr(13);
    let value: i128 = 0;
    let data = b"x";
    let id = intent(&w, &sender, &w.protocol, value, data);
    let ts = w.now;
    let oracle = w.oracle;
    publish(&mut w, &oracle, &id, [1u8; 32], ts, false).unwrap();

    w.now = ts + 1801;

    assert_eq!(state_of(&w, &sender, &id), TxState::Expired);
    assert!(!check(&w, &sender, value, data));
    assert!(require(&mut w, &sender, value, data).is_err());
}

#[test]
fn require_trustline_fails_without_prevalidation() {
    let mut w = setup();
    let sender = addr(14);
    let value: i128 = 10;
    let data = b"unvalidated";
    assert!(require(&mut w, &sender, value, data).is_err());
    assert!(!check(&w, &sender, value, data));
}

#[test]
fn require_trustline_succeeds_without_proof_when_oracle_disabled() {
    let mut w = setup();
    let sender = addr(15);
    let value: i128 = 10;
    let data = b"sanctions-only";

    assert!(w.engine.trustline_oracle_enabled());
    assert!(!w.engine.sanctions_oracle_enabled());

    w.engine.set_validation_configuration(false, false, None, None).unwrap();

    assert!(!w.engine.trustline_oracle_enabled());
    assert!(!w.engine.sanctions_oracle_enabled());
    assert!(check(&w, &sender, value, data));
    require(&mut w, &sender, value, data).unwrap();
}

#[test]
fn sanctions_still_reject_when_oracle_disabled() {
    let mut w = setup();
    let sender = addr(16);

    let sanctions_id = Addr::contract([20; 32]);
    let mut sanctions = SanctionsListState::new(w.admin);
    sanctions.set_sanction(sender, true);

    let sanctions_key = b"SANCTIONS_ONLY".to_vec();
    w.registry.set_record(&w.env, sanctions_key.clone(), sanctions_id).unwrap();
    let resolved = w.registry.get_record(&w.env, &sanctions_key);
    w.engine
        .set_validation_configuration(false, true, Some(sanctions_key), resolved)
        .unwrap();

    assert!(!w.engine.trustline_oracle_enabled());
    assert!(w.engine.sanctions_oracle_enabled());
    let data = b"sanctions-only";
    let flagged = flagged_by(Some(&sanctions), &sender, &[]);
    let protocol = w.protocol;
    assert!(!w
        .engine
        .check_trustline_status(&w.env, &protocol, &sender, 0, data, &flagged, w.now));
    assert!(w
        .engine
        .require_trustline(&w.env, &protocol, &sender, 0, data, &flagged, w.now)
        .is_err());
}

#[test]
fn wrong_intent_cannot_consume_proof() {
    let mut w = setup();
    let sender = addr(17);
    let value: i128 = 50;
    let data = b"pay";
    let other_data = b"other";
    let other_protocol = Addr::contract([21; 32]);

    let id = intent(&w, &sender, &w.protocol, value, data);
    let now = w.now;
    let oracle = w.oracle;
    publish(&mut w, &oracle, &id, [4u8; 32], now, false).unwrap();

    assert!(require(&mut w, &sender, value, other_data).is_err());
    assert!(require(&mut w, &sender, value + 1, data).is_err());
    assert!(w
        .engine
        .require_trustline(&w.env, &other_protocol, &sender, value, data, &Vec::new(), w.now)
        .is_err());

    require(&mut w, &sender, value, data).unwrap();
}

#[test]
fn add_tx_rejects_exact_replay() {
    let mut w = setup();
    let sender = addr(18);
    let id = intent(&w, &sender, &w.protocol, 1, b"replay");
    let ts = w.now;
    let oracle = w.oracle;
    publish(&mut w, &oracle, &id, [5u8; 32], ts, false).unwrap();
    assert!(publish(&mut w, &oracle, &id, [5u8; 32], ts, false).is_err());
}

#[test]
fn sanctions_reject_when_enabled() {
    let mut w = setup();
    let sender = addr(19);
    let bad = addr(22);

    let sanctions_id = Addr::contract([23; 32]);
    let mut sanctions = SanctionsListState::new(w.admin);
    sanctions.set_sanction(bad, true);

    let key = b"TRUSTLINE_TEST_ORACLE".to_vec();
    w.registry.set_record(&w.env, key.clone(), sanctions_id).unwrap();
    let resolved = w.registry.get_record(&w.env, &key);
    w.engine.set_validation_configuration(true, true, Some(key), resolved).unwrap();

    let value: i128 = 1;
    let data = b"pay";
    let id = intent(&w, &sender, &w.protocol, value, data);
    let now = w.now;
    let oracle = w.oracle;
    publish(&mut w, &oracle, &id, [2u8; 32], now, false).unwrap();

    let addresses = vec![bad];
    let flagged = flagged_by(Some(&sanctions), &sender, &addresses);
    assert_eq!(
        w.engine.get_tx_state(&sender, &id, &addresses, &flagged, w.now),
        TxState::Rejected
    );

    let protocol = w.protocol;
    let rejected = w.engine.require_trustline_addrs(
        &w.env, &protocol, &sender, value, data, &addresses, &flagged, w.now,
    );
    assert!(rejected.is_err());
}

#[test]
fn pending_then_approve() {
    let mut w = setup();
    let sender = addr(24);
    let value: i128 = 0;
    let data = b"manual";
    let id = intent(&w, &sender, &w.protocol, value, data);
    let ts = w.now;
    let oracle = w.oracle;
    publish(&mut w, &oracle, &id, [3u8; 32], ts, true).unwrap();
    assert_eq!(state_of(&w, &sender, &id), TxState::Pending);

    w.engine.approve_or_reject_tx(&w.env, &id, true, w.now).unwrap();
    assert_eq!(state_of(&w, &sender, &id), TxState::Approved);

    require(&mut w, &sender, value, data).unwrap();
}

#[test]
fn pending_then_reject() {
    let mut w = setup();
    let sender = addr(25);
    let value: i128 = 0;
    let data = b"manual-reject";
    let id = intent(&w, &sender, &w.protocol, value, data);
    let ts = w.now;
    let oracle = w.oracle;
    publish(&mut w, &oracle, &id, [8u8; 32], ts, true).unwrap();
    assert_eq!(state_of(&w, &sender, &id), TxState::Pending);

    w.engine.approve_or_reject_tx(&w.env, &id, false, w.now).unwrap();
    assert_eq!(state_of(&w, &sender, &id), TxState::Unknown);
    assert!(!check(&w, &sender, value, data));
    assert!(require(&mut w, &sender, value, data).is_err());
}

#[test]
fn add_tx_rejects_timestamp_too_early() {
    let mut w = setup();
    let sender = addr(26);
    let id = intent(&w, &sender, &w.protocol, 1, b"early");
    // max_skew_secs = 60 in setup()
    let too_early = w.now + 61;
    let oracle = w.oracle;
    assert!(publish(&mut w, &oracle, &id, [9u8; 32], too_early, false).is_err());
    assert_eq!(state_of(&w, &sender, &id), TxState::Unknown);
}

#[test]
fn add_tx_rejects_expired_at_registration() {
    let mut w = setup();
    w.now = 2000;
    let sender = addr(27);
    let id = intent(&w, &sender, &w.protocol, 1, b"late");
    // auto_validity_secs = 1800; reject when timestamp + auto_validity <= now
    let expired_at_submit = w.now.saturating_sub(1800);
    let oracle = w.oracle;
    assert!(publish(&mut w, &oracle, &id, [10u8; 32], expired_at_submit, false).is_err());
    assert_eq!(state_of(&w, &sender, &id), TxState::Unknown);
}

#[test]
fn intent_id_is_deterministic() {
    let env = Env::default();
    let sender = Addr::contract([30; 32]);
    let protocol = Addr::contract([31; 32]);
    let data = b"abc";
    let a = compute_intent_id(&env, ValidationMode::Dapp, &sender, &protocol, 42, data);
    let b = compute_intent_id(&env, ValidationMode::Dapp, &sender, &protocol, 42, data);
    assert_eq!(a, b);
    let c = compute_intent_id(&env, ValidationMode::Dapp, &sender, &protocol, 43, data);
    assert_ne!(a, c);
}

// ---------------------------------------------------------------------------
// Further cases.

#[test]
fn init_sets_defaults() {
    let w = setup();
    assert_eq!(w.engine.admin(), w.admin);
    assert_eq!(w.engine.registry(), Addr::contract([4; 32]));
    assert_eq!(w.engine.auditor(), w.admin);
    assert!(w.engine.trustline_oracle_enabled());
    assert!(!w.engine.sanctions_oracle_enabled());
    assert_eq!(version(), 1);
}

#[test]
fn init_event_carries_configuration() {
    let (_, ev) = init(addr(1), addr(2), 7, 8, 9);
    assert_eq!(ev.admin, addr(1));
    assert_eq!(ev.registry, addr(2));
    assert_eq!(ev.auto_validity_secs, 7);
    assert_eq!(ev.manual_validity_secs, 8);
}

#[test]
fn each_add_tx_error_has_its_input() {
    let mut w = setup();
    w.now = 5000;
    let oracle = w.oracle;
    let id = [40u8; 32];
    assert_eq!(publish(&mut w, &addr(99), &id, [0; 32], 5000, false), Err(Error::Unauthorized));
    // timestamp + 1800 == now: expired
    assert_eq!(publish(&mut w, &oracle, &id, [0; 32], 3200, false), Err(Error::ValidationExpired));
    // timestamp == now + 61: too early; now + 60 is accepted
    assert_eq!(publish(&mut w, &oracle, &id, [0; 32], 5061, false), Err(Error::ValidationTooEarly));
    assert_eq!(publish(&mut w, &oracle, &id, [0; 32], 5060, false), Ok(()));
    assert_eq!(publish(&mut w, &oracle, &id, [0; 32], 5060, false), Err(Error::AlreadySubmitted));
    // a different timestamp overwrites the stored proof
    assert_eq!(publish(&mut w, &oracle, &id, [0; 32], 5000, true), Ok(()));
    assert_eq!(w.engine.check_oracle_state(&id, w.now), TxState::Pending);
}

#[test]
fn add_tx_stores_metadata_and_events() {
    let mut w = setup();
    w.now = 100;
    let id = [41u8; 32];
    let policy = [42u8; 32];
    let reg = w.engine.add_tx(&w.env, &id, &policy, 90, false, true, 100).unwrap();
    assert_eq!(
        w.engine.stored_proof(&id),
        Some(TxMetadata { created_at: 90, valid_until: 1890, state: TxState::Approved })
    );
    let expected = trustline_sdk::intent::final_tx_id(
        &w.env,
        &soroban_sdk::BytesN::from_array(&w.env, &id),
        90,
    )
    .to_array();
    assert_eq!(reg.added.final_id, expected);
    assert_ne!(reg.added.final_id, id);
    assert_eq!(reg.added.policy_hash, policy);
    assert!(reg.pending.is_none());
    assert_eq!(reg.ttl_ledgers, 1800 / 5 + 120);

    let id2 = [43u8; 32];
    let reg2 = w.engine.add_tx(&w.env, &id2, &policy, 100, true, true, 100).unwrap();
    assert_eq!(
        w.engine.stored_proof(&id2),
        Some(TxMetadata { created_at: 100, valid_until: 0, state: TxState::Pending })
    );
    let pending = reg2.pending.unwrap();
    assert_eq!(pending.id, id2);
    assert_eq!(pending.final_id, reg2.added.final_id);
}

#[test]
fn approval_sets_manual_window() {
    let mut w = setup();
    w.now = 10;
    let id = [44u8; 32];
    w.engine.add_tx(&w.env, &id, &[0; 32], 10, true, true, 10).unwrap();
    let d = w.engine.approve_or_reject_tx(&w.env, &id, true, 20).unwrap();
    assert!(d.approval.decision);
    assert_eq!(d.ttl_ledgers, Some(432000 / 5 + 120));
    assert_eq!(
        w.engine.stored_proof(&id),
        Some(TxMetadata { created_at: 10, valid_until: 432020, state: TxState::Approved })
    );
    assert_eq!(w.engine.check_oracle_state(&id, 432019), TxState::Approved);
    assert_eq!(w.engine.check_oracle_state(&id, 432020), TxState::Expired);
    // an approved proof is no longer pending
    assert_eq!(w.engine.approve_or_reject_tx(&w.env, &id, true, 30).unwrap_err(), Error::NotPending);
}

#[test]
fn decision_on_absent_proof_is_not_pending() {
    let mut w = setup();
    let r = w.engine.approve_or_reject_tx(&w.env, &[45u8; 32], false, 0);
    assert_eq!(r.unwrap_err(), Error::NotPending);
}

#[test]
fn consume_with_known_id_reports_errors() {
    let mut w = setup();
    let sender = addr(46);
    let id = [47u8; 32];
    let r = w.engine.validate_and_consume(&w.env, &sender, &id, &Vec::new(), &Vec::new(), 0);
    assert_eq!(r.unwrap_err(), Error::NotApproved);

    w.engine.add_tx(&w.env, &id, &[0; 32], 0, false, true, 0).unwrap();
    let ev = w.engine
        .validate_and_consume(&w.env, &sender, &id, &Vec::new(), &Vec::new(), 0)
        .unwrap();
    let expected = trustline_sdk::intent::final_tx_id(
        &w.env,
        &soroban_sdk::BytesN::from_array(&w.env, &id),
        0,
    )
    .to_array();
    assert_eq!(ev.final_id, expected);
    assert!(w.engine.stored_proof(&id).is_none());
}

#[test]
fn sanctioned_address_list_entry_is_rejected() {
    let mut w = setup();
    w.engine
        .set_validation_configuration(true, true, Some(b"K".to_vec()), Some(addr(50)))
        .unwrap();
    let sender = addr(51);
    let other = addr(52);
    let id = [53u8; 32];
    w.engine.add_tx(&w.env, &id, &[0; 32], 0, false, true, 0).unwrap();
    let addresses = vec![addr(54), other];
    let flagged = vec![other];
    let r = w.engine.validate_and_consume(&w.env, &sender, &id, &addresses, &flagged, 0);
    assert_eq!(r.unwrap_err(), Error::Sanctioned);
    // the proof is still there
    assert_eq!(w.engine.check_oracle_state(&id, 0), TxState::Approved);
    // a flag on an address that is not screened is ignored
    assert_eq!(
        w.engine.check_sanctions(&sender, &vec![addr(54)], &flagged),
        TxState::Approved
    );
    assert_eq!(w.engine.check_sanctions(&other, &Vec::new(), &flagged), TxState::Rejected);
}

#[test]
fn configuration_needs_resolvable_key() {
    let mut w = setup();
    let r = w.engine.set_validation_configuration(true, true, None, Some(addr(60)));
    assert_eq!(r.unwrap_err(), Error::SanctionsKeyUnknown);
    let r = w.engine.set_validation_configuration(false, true, Some(b"MISSING".to_vec()), None);
    assert_eq!(r.unwrap_err(), Error::SanctionsKeyUnknown);
    // refused configurations change nothing
    assert!(w.engine.trustline_oracle_enabled());
    assert!(!w.engine.sanctions_oracle_enabled());

    let ev = w.engine
        .set_validation_configuration(true, true, Some(b"LIST".to_vec()), Some(addr(61)))
        .unwrap();
    assert!(ev.trustline_enabled && ev.sanctions_enabled);
    assert_eq!(w.engine.sanctions_list(), Some(addr(61)));
    assert_eq!(w.engine.sanctions_key(), Some(b"LIST".to_vec()));

    w.engine.set_validation_configuration(true, false, Some(b"LIST".to_vec()), None).unwrap();
    assert_eq!(w.engine.sanctions_list(), None);
    assert_eq!(w.engine.sanctions_key(), None);
}

#[test]
fn admin_and_auditor_roles_move() {
    let mut w = setup();
    w.engine.transfer_admin(addr(70));
    assert_eq!(w.engine.admin(), addr(70));
    w.engine.set_auditor(addr(71));
    assert_eq!(w.engine.auditor(), addr(71));
    assert_eq!(w.engine.admin(), addr(70));
}

#[test]
fn absent_flags_read_as_defaults() {
    let engine = EngineState::restore(
        addr(1), addr(2), addr(1), None, None, None, None, 1800, 432000, 60, Table::new(),
    )
    .unwrap();
    assert!(engine.trustline_oracle_enabled());
    assert!(!engine.sanctions_oracle_enabled());
    // screening on with no list is refused
    assert!(EngineState::restore(
        addr(1), addr(2), addr(1), None, Some(true), None, None, 1800, 432000, 60, Table::new(),
    )
    .is_none());
}

#[test]
fn tx_state_and_error_codes() {
    assert_eq!(u32::from(TxState::Approved), 0);
    assert_eq!(u32::from(TxState::Rejected), 1);
    assert_eq!(u32::from(TxState::Expired), 2);
    assert_eq!(u32::from(TxState::Pending), 3);
    assert_eq!(u32::from(TxState::Unknown), 4);
    assert_eq!(Error::Unauthorized.code(), 1);
    assert_eq!(Error::ValidationExpired.code(), 2);
    assert_eq!(Error::ValidationTooEarly.code(), 3);
    assert_eq!(Error::AlreadySubmitted.code(), 4);
    assert_eq!(Error::NotApproved.code(), 5);
    assert_eq!(Error::Sanctioned.code(), 6);
    assert_eq!(Error::NotPending.code(), 7);
    assert_eq!(Error::SanctionsKeyUnknown.code(), 8);
}

#[test]
fn intent_id_matches_sdk_and_binds_address_kind() {
    let env = Env::default();
    let sender = Addr::account([80; 32]);
    let protocol = Addr::contract([81; 32]);
    let ours = compute_intent_id(&env, ValidationMode::Dapp, &sender, &protocol, 5, b"d");
    let sender_host = soroban_sdk::address_payload::AddressPayload::AccountIdPublicKeyEd25519(
        soroban_sdk::BytesN::from_array(&env, &[80; 32]),
    )
    .to_address(&env);
    let protocol_host = soroban_sdk::address_payload::AddressPayload::ContractIdHash(
        soroban_sdk::BytesN::from_array(&env, &[81; 32]),
    )
    .to_address(&env);
    let theirs = trustline_sdk::intent::intent_id(
        &env,
        ValidationMode::Dapp,
        &sender_host,
        &protocol_host,
        5,
        &soroban_sdk::Bytes::from_slice(&env, b"d"),
    )
    .to_array();
    assert_eq!(ours, theirs);
    let as_contract = Addr::contract([80; 32]);
    assert_ne!(
        ours,
        compute_intent_id(&env, ValidationMode::Dapp, &as_contract, &protocol, 5, b"d")
    );
}

#[test]
fn oracle_off_passes_without_reading_proofs() {
    let mut w = setup();
    let id = [90u8; 32];
    w.engine.add_tx(&w.env, &id, &[0; 32], 0, false, true, 0).unwrap();
    w.engine.set_validation_configuration(false, false, None, None).unwrap();
    let ev = w.engine
        .validate_and_consume(&w.env, &addr(91), &id, &Vec::new(), &Vec::new(), 0)
        .unwrap();
    let expected = trustline_sdk::intent::final_tx_id(
        &w.env,
        &soroban_sdk::BytesN::from_array(&w.env, &id),
        0,
    )
    .to_array();
    assert_eq!(ev.final_id, expected);
    // the stored proof is untouched
    assert!(w.engine.stored_proof(&id).is_some());
}

#[test]
fn status_agrees_with_enforcement() {
    let mut w = setup();
    let sender = addr(100);
    let data = b"agree";
    assert!(!check(&w, &sender, 3, data));
    assert!(require(&mut w, &sender, 3, data).is_err());
    let id = intent(&w, &sender, &w.protocol, 3, data);
    let now = w.now;
    let oracle = w.oracle;
    publish(&mut w, &oracle, &id, [0; 32], now, false).unwrap();
    assert!(check(&w, &sender, 3, data));
    assert!(require(&mut w, &sender, 3, data).is_ok());
    assert!(!check(&w, &sender, 3, data));
}

#[test]
fn pending_proof_cannot_be_spent() {
    let mut w = setup();
    let sender = addr(101);
    let data = b"wait";
    let id = intent(&w, &sender, &w.protocol, 0, data);
    let now = w.now;
    let oracle = w.oracle;
    publish(&mut w, &oracle, &id, [0; 32], now, true).unwrap();
    assert!(!check(&w, &sender, 0, data));
    assert_eq!(require(&mut w, &sender, 0, data), Err(Error::NotApproved));
    // the failed attempt leaves the proof pending
    assert_eq!(state_of(&w, &sender, &id), TxState::Pending);
}

#[test]
fn expired_proof_stays_expired() {
    let mut w = setup();
    let id = [102u8; 32];
    w.engine.add_tx(&w.env, &id, &[0; 32], 0, false, true, 0).unwrap();
    assert_eq!(w.engine.check_oracle_state(&id, 1799), TxState::Approved);
    assert_eq!(w.engine.check_oracle_state(&id, 1800), TxState::Expired);
    assert_eq!(w.engine.check_oracle_state(&id, u64::MAX), TxState::Expired);
}

#[test]
fn consuming_one_proof_leaves_others() {
    let mut w = setup();
    let a = [103u8; 32];
    let b = [104u8; 32];
    w.engine.add_tx(&w.env, &a, &[0; 32], 0, false, true, 0).unwrap();
    w.engine.add_tx(&w.env, &b, &[0; 32], 0, true, true, 0).unwrap();
    w.engine
        .validate_and_consume(&w.env, &addr(105), &a, &Vec::new(), &Vec::new(), 0)
        .unwrap();
    assert_eq!(w.engine.check_oracle_state(&a, 0), TxState::Unknown);
    assert_eq!(w.engine.check_oracle_state(&b, 0), TxState::Pending);
}

#[test]
fn republishing_replaces_a_pending_proof() {
    let mut w = setup();
    let id = [106u8; 32];
    w.engine.add_tx(&w.env, &id, &[0; 32], 10, true, true, 10).unwrap();
    assert_eq!(w.engine.check_oracle_state(&id, 10), TxState::Pending);
    w.engine.add_tx(&w.env, &id, &[0; 32], 11, false, true, 11).unwrap();
    assert_eq!(w.engine.check_oracle_state(&id, 11), TxState::Approved);
}

#[test]
fn saturating_validity_never_wraps() {
    let mut w = setup();
    w.engine = init(addr(1), addr(2), u64::MAX, 432000, 60).0;
    let id = [107u8; 32];
    w.engine.add_tx(&w.env, &id, &[0; 32], 5, false, true, 5).unwrap();
    assert_eq!(w.engine.stored_proof(&id).unwrap().valid_until, u64::MAX);
    assert_eq!(w.engine.check_oracle_state(&id, u64::MAX - 1), TxState::Approved);
}

#[test]
fn auditor_decides_and_admin_configures() {
    let mut w = setup();
    w.engine.set_auditor(addr(110));
    assert_eq!(w.engine.required_signer(GuardedOp::ApproveOrRejectTx), addr(110));
    assert_eq!(w.engine.required_signer(GuardedOp::TransferAdmin), w.admin);
    assert_eq!(w.engine.required_signer(GuardedOp::SetAuditor), w.admin);
    assert_eq!(w.engine.required_signer(GuardedOp::SetValidationConfiguration), w.admin);
    assert_eq!(w.engine.required_signer(GuardedOp::Upgrade), w.admin);
}

#[test]
fn screening_asks_sender_then_addresses() {
    let mut w = setup();
    let sender = addr(111);
    let addresses = vec![addr(112), addr(113)];
    assert!(w.engine.screening_targets(&sender, &addresses).is_empty());
    w.engine
        .set_validation_configuration(true, true, Some(b"K".to_vec()), Some(addr(114)))
        .unwrap();
    assert_eq!(
        w.engine.screening_targets(&sender, &addresses),
        vec![sender, addr(112), addr(113)]
    );
}

#[test]
fn enforcement_spends_the_proof_of_its_own_call() {
    let mut w = setup();
    let sender = addr(115);
    let protocol = w.protocol;
    // a proof published for the call with sender and protocol swapped
    let swapped = intent(&w, &protocol, &sender, 9, b"call");
    let now = w.now;
    let oracle = w.oracle;
    publish(&mut w, &oracle, &swapped, [0; 32], now, false).unwrap();
    assert!(require(&mut w, &sender, 9, b"call").is_err());
    assert_eq!(w.engine.check_oracle_state(&swapped, now), TxState::Approved);
}
