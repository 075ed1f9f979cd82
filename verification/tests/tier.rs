use cherub::tier::Tier;

#[test]
fn tier_ordering() {
    assert!(Tier::Observe < Tier::Act);
    assert!(Tier::Act < Tier::Commit);
    assert!(Tier::Observe < Tier::Commit);
}

#[test]
fn tier_rank_is_strictly_increasing() {
    assert!(Tier::Observe.lt(Tier::Act));
    assert!(Tier::Act.lt(Tier::Commit));
    assert!(!Tier::Commit.lt(Tier::Commit));
    assert!(!Tier::Act.lt(Tier::Observe));
}
