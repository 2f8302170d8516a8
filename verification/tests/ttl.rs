use trustline_engine::ttl::{proof_ttl_ledgers, ttl_bump, WEEK_OF_LEDGERS};

#[test]
fn proof_ttl_counts_five_second_ledgers_plus_margin() {
    assert_eq!(proof_ttl_ledgers(0), 120);
    assert_eq!(proof_ttl_ledgers(4), 120);
    assert_eq!(proof_ttl_ledgers(1800), 480);
    assert_eq!(proof_ttl_ledgers(432000), 86520);
    // the count wraps modulo 2^32 before the margin, which saturates
    assert_eq!(proof_ttl_ledgers(5 * (u32::MAX as u64)), u32::MAX);
    assert_eq!(proof_ttl_ledgers(5 * (1u64 << 32)), 120);
}

#[test]
fn instance_bump_extends_to_max() {
    assert_eq!(ttl_bump(3_110_400), (3_110_400 - WEEK_OF_LEDGERS, 3_110_400));
    assert_eq!(ttl_bump(100), (0, 100));
}
