use trustline_engine::sanctions::SanctionsListState;
use trustline_engine::types::Addr;

#[test]
fn set_and_check_sanction() {
    let owner = Addr::account([1; 32]);
    let target = Addr::account([2; 32]);
    let mut client = SanctionsListState::new(owner);

    assert!(!client.is_sanctioned(&target));
    client.set_sanction(target, true);
    assert!(client.is_sanctioned(&target));
    client.set_sanction(target, false);
    assert!(!client.is_sanctioned(&target));
}

#[test]
fn owner_moves_and_marks_are_per_address() {
    let owner = Addr::account([1; 32]);
    let next = Addr::account([3; 32]);
    let mut list = SanctionsListState::new(owner);
    let ev = list.set_owner(next);
    assert_eq!(ev.old_owner, owner);
    assert_eq!(ev.new_owner, next);
    assert_eq!(list.owner(), next);
    let a = Addr::account([4; 32]);
    let b = Addr::account([5; 32]);
    let up = list.set_sanction(a, true);
    assert!(up.sanctioned);
    assert_eq!(up.addr, a);
    assert!(list.is_sanctioned(&a));
    assert!(!list.is_sanctioned(&b));
}
