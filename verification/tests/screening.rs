use trustline_engine::engine::{init, EngineState, TxState};
use trustline_engine::sanctions::SanctionsListState;
use trustline_engine::screening::Screening;
use trustline_engine::types::Addr;

fn addr(n: u8) -> Addr {
    Addr::account([n; 32])
}

fn engine() -> EngineState {
    let (engine, _) = init(addr(1), Addr::contract([4; 32]), 1800, 432000, 60);
    engine
}

/// Runs a screening against `list`, answering as it does; gives the
/// questions asked and the flagged addresses reported.
fn run(
    engine: &EngineState,
    list: &SanctionsListState,
    sender: &Addr,
    addresses: &Vec<Addr>,
) -> (Vec<(Addr, Addr)>, Vec<Addr>) {
    let mut screening = Screening::start(engine, sender, addresses);
    let mut asked = Vec::new();
    while let Some((l, target)) = screening.next_query() {
        asked.push((l, target));
        screening.record(list.is_sanctioned(&target));
    }
    (asked, screening.flagged())
}

#[test]
fn screening_off_asks_nothing() {
    let engine = engine();
    let mut list = SanctionsListState::new(addr(1));
    list.set_sanction(addr(10), true);
    let (asked, flagged) = run(&engine, &list, &addr(10), &vec![addr(11)]);
    assert!(asked.is_empty());
    assert!(flagged.is_empty());
    assert_eq!(engine.check_sanctions(&addr(10), &vec![addr(11)], &flagged), TxState::Approved);
}

#[test]
fn screening_stops_at_first_flagged_address() {
    let mut engine = engine();
    let list_id = Addr::contract([20; 32]);
    engine
        .set_validation_configuration(true, true, Some(b"LIST".to_vec()), Some(list_id))
        .unwrap();
    let mut list = SanctionsListState::new(addr(1));
    list.set_sanction(addr(12), true);
    list.set_sanction(addr(13), true);
    let sender = addr(11);
    let addresses = vec![addr(12), addr(13)];
    let (asked, flagged) = run(&engine, &list, &sender, &addresses);
    assert_eq!(asked, vec![(list_id, sender), (list_id, addr(12))]);
    assert_eq!(flagged, vec![addr(12)]);
    assert_eq!(engine.check_sanctions(&sender, &addresses, &flagged), TxState::Rejected);
}

#[test]
fn screening_flagged_sender_asks_once() {
    let mut engine = engine();
    let list_id = Addr::contract([21; 32]);
    engine
        .set_validation_configuration(false, true, Some(b"LIST".to_vec()), Some(list_id))
        .unwrap();
    let mut list = SanctionsListState::new(addr(1));
    list.set_sanction(addr(14), true);
    let (asked, flagged) = run(&engine, &list, &addr(14), &vec![addr(15), addr(16)]);
    assert_eq!(asked, vec![(list_id, addr(14))]);
    assert_eq!(flagged, vec![addr(14)]);
}

#[test]
fn screening_clean_call_asks_every_address() {
    let mut engine = engine();
    let list_id = Addr::contract([22; 32]);
    engine
        .set_validation_configuration(true, true, Some(b"LIST".to_vec()), Some(list_id))
        .unwrap();
    let list = SanctionsListState::new(addr(1));
    let sender = addr(17);
    let addresses = vec![addr(18), addr(19)];
    let (asked, flagged) = run(&engine, &list, &sender, &addresses);
    assert_eq!(asked, vec![(list_id, sender), (list_id, addr(18)), (list_id, addr(19))]);
    assert!(flagged.is_empty());
    assert_eq!(engine.check_sanctions(&sender, &addresses, &flagged), TxState::Approved);
}

#[test]
fn screening_asks_the_list_resolved_at_configuration() {
    let mut engine = engine();
    let first = Addr::contract([23; 32]);
    engine
        .set_validation_configuration(true, true, Some(b"LIST".to_vec()), Some(first))
        .unwrap();
    // the registry record may change afterwards; the engine keeps its list
    let list = SanctionsListState::new(addr(1));
    let (asked, _) = run(&engine, &list, &addr(24), &Vec::new());
    assert_eq!(asked, vec![(first, addr(24))]);
    assert_eq!(engine.sanctions_list(), Some(first));
}
