use proc_aud::dsp::param::ParamHandle;

#[test]
fn set_then_get_returns_the_clamped_value() {
    let mut h = ParamHandle::new("frequency", 440_000_000, 20_000_000, 20_000_000_000);
    for v in [
        i64::MIN,
        -1,
        0,
        19_999_999,
        20_000_000,
        20_000_001,
        440_000_000,
        19_999_999_999,
        20_000_000_000,
        20_000_000_001,
        i64::MAX,
    ] {
        h.set(v);
        assert_eq!(h.get(), v.clamp(20_000_000, 20_000_000_000));
    }
}

#[test]
fn value_inside_the_range_is_stored_unchanged() {
    let mut h = ParamHandle::new("amplitude", 300_000, 0, 1_000_000);
    h.set(750_000);
    assert_eq!(h.get(), 750_000);
}

#[test]
fn value_outside_the_range_is_pulled_to_the_nearer_end() {
    let mut h = ParamHandle::new("amplitude", 300_000, 0, 1_000_000);
    h.set(2_000_000);
    assert_eq!(h.get(), 1_000_000);
    h.set(-2_000_000);
    assert_eq!(h.get(), 0);
}

#[test]
fn later_write_wins() {
    let mut h = ParamHandle::new("intensity", 0, 0, 1_000_000);
    h.set(100_000);
    h.set(900_000);
    assert_eq!(h.get(), 900_000);
    h.set(5_000_000);
    h.set(200_000);
    assert_eq!(h.get(), 200_000);
}

#[test]
fn new_handle_holds_the_initial_value_clamped() {
    assert_eq!(ParamHandle::new("heart_rate", 72_000_000, 30_000_000, 220_000_000).get(), 72_000_000);
    assert_eq!(ParamHandle::new("heart_rate", 5_000_000, 30_000_000, 220_000_000).get(), 30_000_000);
    assert_eq!(ParamHandle::new("heart_rate", 900_000_000, 30_000_000, 220_000_000).get(), 220_000_000);
}

#[test]
fn handle_keeps_name_and_range() {
    let mut h = ParamHandle::new("filter_cutoff", 1_000_000_000, 20_000_000, 20_000_000_000);
    h.set(0);
    assert_eq!(h.name(), "filter_cutoff");
    assert_eq!(h.min(), 20_000_000);
    assert_eq!(h.max(), 20_000_000_000);
}

#[test]
fn range_of_one_value_holds_that_value() {
    let mut h = ParamHandle::new("fixed", 9, 4, 4);
    assert_eq!(h.get(), 4);
    h.set(-100);
    assert_eq!(h.get(), 4);
}
