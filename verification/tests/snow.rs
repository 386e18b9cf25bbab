use avalanche_types::snow::State;

#[test]
fn test_state() {
    let s = State::try_from(0).unwrap();
    assert!(matches!(s, State::Initializing));
    assert!(s.as_str() == "Initializing state");

    let s = State::try_from(1).unwrap();
    assert!(matches!(s, State::StateSyncing));
    assert!(s.as_str() == "State syncing state");

    let s = State::try_from(2).unwrap();
    assert!(matches!(s, State::Bootstrapping));
    assert!(s.as_str() == "Bootstrapping state");

    let s = State::try_from(3).unwrap();
    assert!(matches!(s, State::NormalOp));
    assert!(s.as_str() == "Normal operations state");
}

#[test]
fn test_state_round_trip() {
    for code in 0u32..4u32 {
        let s = State::try_from(code).unwrap();
        assert_eq!(s.to_u32(), code);
    }
    assert!(State::try_from(4).is_err());
    assert!(State::try_from(42).is_err());
    assert!(State::try_from(u32::MAX).is_err());
}
