use vizia_plug::widgets::param_registry::{ParamAxis, ParamRegistry, SignalLookup, SignalRef};

#[test]
fn new_registry_has_nothing_to_flush() {
    let reg = ParamRegistry::new();
    assert!(reg.flush_all().is_empty());
    assert!(reg.flush_one(7).is_empty());
    let reg2 = ParamRegistry::default();
    assert!(reg2.flush_all().is_empty());
}

#[test]
fn first_request_creates_second_reuses() {
    let mut reg = ParamRegistry::new();
    assert_eq!(reg.signal(10, ParamAxis::Modulated), SignalLookup::Created(0));
    assert_eq!(reg.signal(10, ParamAxis::Modulated), SignalLookup::Existing(0));
    assert_eq!(reg.modulated(10), SignalLookup::Existing(0));
    assert_eq!(reg.signal(10, ParamAxis::Modulated).slot(), 0);
}

#[test]
fn distinct_pairs_get_distinct_slots() {
    let mut reg = ParamRegistry::new();
    assert_eq!(reg.modulated(1), SignalLookup::Created(0));
    assert_eq!(reg.unmodulated(1), SignalLookup::Created(1));
    assert_eq!(reg.modulated(2), SignalLookup::Created(2));
    assert_eq!(reg.unmodulated(1), SignalLookup::Existing(1));
    assert_eq!(reg.modulated(1), SignalLookup::Existing(0));
    assert_eq!(reg.modulated(2).slot(), 2);
}

#[test]
fn flush_all_lists_every_signal_in_slot_order() {
    let mut reg = ParamRegistry::new();
    reg.unmodulated(5);
    reg.modulated(3);
    reg.modulated(5);
    assert_eq!(
        reg.flush_all(),
        vec![
            SignalRef { param: 5, axis: ParamAxis::Unmodulated, slot: 0 },
            SignalRef { param: 3, axis: ParamAxis::Modulated, slot: 1 },
            SignalRef { param: 5, axis: ParamAxis::Modulated, slot: 2 },
        ]
    );
}

#[test]
fn flush_one_lists_modulated_first_and_skips_missing_axes() {
    let mut reg = ParamRegistry::new();
    reg.unmodulated(5);
    reg.modulated(3);
    reg.modulated(5);
    assert_eq!(
        reg.flush_one(5),
        vec![
            SignalRef { param: 5, axis: ParamAxis::Modulated, slot: 2 },
            SignalRef { param: 5, axis: ParamAxis::Unmodulated, slot: 0 },
        ]
    );
    assert_eq!(reg.flush_one(3), vec![SignalRef { param: 3, axis: ParamAxis::Modulated, slot: 1 }]);
    assert!(reg.flush_one(4).is_empty());
}

#[test]
fn flush_one_matches_flush_all_filtered() {
    let mut reg = ParamRegistry::new();
    for p in [9u64, 1, 9, 4, 1] {
        reg.modulated(p);
    }
    reg.unmodulated(4);
    let all = reg.flush_all();
    for p in [9u64, 1, 4, 8] {
        let mut one = reg.flush_one(p);
        let mut expected: Vec<SignalRef> = all.iter().copied().filter(|r| r.param == p).collect();
        one.sort_by_key(|r| r.slot);
        expected.sort_by_key(|r| r.slot);
        assert_eq!(one, expected);
    }
}

#[test]
fn registering_keeps_earlier_slots() {
    let mut reg = ParamRegistry::new();
    reg.modulated(1);
    reg.unmodulated(2);
    let before = reg.flush_all();
    reg.modulated(3);
    let after = reg.flush_all();
    assert_eq!(&after[..2], &before[..]);
    assert_eq!(after[2], SignalRef { param: 3, axis: ParamAxis::Modulated, slot: 2 });
}
