use radio_adapter::caps::{Capabilities, Capability, MacCapabilities, MacCapability};

#[test]
fn empty_set_holds_no_capability() {
    let caps = Capabilities::empty();
    assert!(!caps.contains(Capability::AckTimeout));
    assert!(!caps.contains(Capability::EnergyScan));
    assert!(!caps.contains(Capability::SleepToTx));
    assert!(!caps.contains(Capability::CsmaBackoff));
    assert!(!caps.contains(Capability::RxOnWhenIdle));
}

#[test]
fn singleton_holds_exactly_its_capability() {
    let caps = Capabilities::just(Capability::SleepToTx);
    assert!(caps.contains(Capability::SleepToTx));
    assert!(!caps.contains(Capability::AckTimeout));
    assert!(!caps.contains(Capability::EnergyScan));
    assert!(!caps.contains(Capability::CsmaBackoff));
    assert!(!caps.contains(Capability::RxOnWhenIdle));
}

#[test]
fn union_holds_members_of_both_sides() {
    let a = Capabilities::just(Capability::AckTimeout);
    let b = Capabilities::just(Capability::EnergyScan);
    let u = a.union(b);
    assert!(u.contains(Capability::AckTimeout));
    assert!(u.contains(Capability::EnergyScan));
    assert!(!u.contains(Capability::CsmaBackoff));
}

#[test]
fn mac_empty_and_union_mirror_the_adapter_sets() {
    let none = MacCapabilities::empty();
    assert!(!none.contains(MacCapability::TxSecurity));
    assert!(!none.contains(MacCapability::TxTiming));
    assert!(!none.contains(MacCapability::RxTiming));

    let all = MacCapabilities::all();
    let u = none.union(all);
    assert!(u.contains(MacCapability::TxSecurity));
    assert!(u.contains(MacCapability::TxTiming));
    assert!(u.contains(MacCapability::RxTiming));
}
