use distance_friend::encoder::{EncoderDirection, EncoderState, MetaEncoderState};

#[test]
fn default_state() {
    let meta_state = MetaEncoderState::default();
    assert_eq!(
        meta_state,
        MetaEncoderState {
            current: EncoderState::Zero,
            last: EncoderState::Zero,
        }
    );
}

#[test]
fn anti_clockwise() {
    let mut meta_state = MetaEncoderState::default();

    meta_state.next(true, false);
    assert_eq!(meta_state.get_direction(), EncoderDirection::Bounce);
    meta_state.update_last();

    meta_state.next(true, true);
    assert_eq!(meta_state.get_direction(), EncoderDirection::AntiClockwise);
    meta_state.update_last();

    meta_state.next(false, true);
    assert_eq!(meta_state.get_direction(), EncoderDirection::Bounce);
    meta_state.update_last();

    meta_state.next(false, false);
    assert_eq!(meta_state.get_direction(), EncoderDirection::AntiClockwise);
    meta_state.update_last();
}

#[test]
fn clockwise() {
    let mut meta_state = MetaEncoderState::default();

    meta_state.next(false, true);
    assert_eq!(meta_state.get_direction(), EncoderDirection::Bounce);
    meta_state.update_last();

    meta_state.next(true, true);
    assert_eq!(meta_state.get_direction(), EncoderDirection::Clockwise);
    meta_state.update_last();

    meta_state.next(true, false);
    assert_eq!(meta_state.get_direction(), EncoderDirection::Bounce);
    meta_state.update_last();

    meta_state.next(false, false);
    assert_eq!(meta_state.get_direction(), EncoderDirection::Clockwise);
    meta_state.update_last();
}

#[test]
fn repeat() {
    let mut meta_state = MetaEncoderState::default();

    meta_state.next(false, true);
    assert_eq!(meta_state.get_direction(), EncoderDirection::Bounce);
    meta_state.update_last();

    meta_state.next(true, false);
    assert_eq!(meta_state.get_direction(), EncoderDirection::Bounce);
    meta_state.update_last();

    meta_state.next(false, true);
    assert_eq!(meta_state.get_direction(), EncoderDirection::Bounce);
    meta_state.update_last();
}

#[test]
fn new_encoder_state_is_zero() {
    assert_eq!(EncoderState::new(), EncoderState::Zero);
    assert_eq!(EncoderState::default(), EncoderState::Zero);
    assert_eq!(MetaEncoderState::new(), MetaEncoderState::default());
}

#[test]
fn every_legal_change_moves_to_the_named_position() {
    let table = [
        (EncoderState::Zero, true, false, EncoderState::Ninety),
        (EncoderState::Zero, false, true, EncoderState::SevenTwenty),
        (EncoderState::Ninety, true, true, EncoderState::OneEighty),
        (EncoderState::Ninety, false, false, EncoderState::Zero),
        (EncoderState::OneEighty, false, true, EncoderState::SevenTwenty),
        (EncoderState::OneEighty, true, false, EncoderState::Ninety),
        (EncoderState::SevenTwenty, false, false, EncoderState::Zero),
        (EncoderState::SevenTwenty, true, true, EncoderState::OneEighty),
    ];
    for (from, clk, dt, to) in table {
        let mut state = MetaEncoderState { current: from, last: EncoderState::Ninety };
        state.next(clk, dt);
        assert_eq!(state, MetaEncoderState { current: to, last: EncoderState::Ninety });
    }
}

#[test]
fn illegal_pair_resets_without_direction() {
    let states = [
        EncoderState::Zero,
        EncoderState::Ninety,
        EncoderState::OneEighty,
        EncoderState::SevenTwenty,
    ];
    let illegal = [
        (EncoderState::Zero, false, false),
        (EncoderState::Zero, true, true),
        (EncoderState::Ninety, true, false),
        (EncoderState::Ninety, false, true),
        (EncoderState::OneEighty, true, true),
        (EncoderState::OneEighty, false, false),
        (EncoderState::SevenTwenty, false, true),
        (EncoderState::SevenTwenty, true, false),
    ];
    for (current, clk, dt) in illegal {
        for last in states {
            let mut state = MetaEncoderState { current, last };
            state.next(clk, dt);
            assert_eq!(state, MetaEncoderState::new());
            assert_eq!(state.get_direction(), EncoderDirection::Bounce);
        }
    }
}

#[test]
fn direction_is_read_from_current_and_last() {
    let cases = [
        (EncoderState::Zero, EncoderState::Ninety, EncoderDirection::Clockwise),
        (EncoderState::Zero, EncoderState::SevenTwenty, EncoderDirection::AntiClockwise),
        (EncoderState::Zero, EncoderState::Zero, EncoderDirection::Bounce),
        (EncoderState::Zero, EncoderState::OneEighty, EncoderDirection::Bounce),
        (EncoderState::OneEighty, EncoderState::Ninety, EncoderDirection::AntiClockwise),
        (EncoderState::OneEighty, EncoderState::SevenTwenty, EncoderDirection::Clockwise),
        (EncoderState::OneEighty, EncoderState::OneEighty, EncoderDirection::Bounce),
        (EncoderState::OneEighty, EncoderState::Zero, EncoderDirection::Bounce),
        (EncoderState::Ninety, EncoderState::Zero, EncoderDirection::Bounce),
        (EncoderState::Ninety, EncoderState::OneEighty, EncoderDirection::Bounce),
        (EncoderState::SevenTwenty, EncoderState::Zero, EncoderDirection::Bounce),
        (EncoderState::SevenTwenty, EncoderState::OneEighty, EncoderDirection::Bounce),
    ];
    for (current, last, expected) in cases {
        let mut state = MetaEncoderState { current, last };
        assert_eq!(state.get_direction(), expected);
        assert_eq!(state, MetaEncoderState { current, last });
    }
}

#[test]
fn update_last_commits_current() {
    let mut state = MetaEncoderState { current: EncoderState::OneEighty, last: EncoderState::Ninety };
    state.update_last();
    assert_eq!(
        state,
        MetaEncoderState { current: EncoderState::OneEighty, last: EncoderState::OneEighty }
    );
    assert_eq!(state.get_direction(), EncoderDirection::Bounce);
}

#[test]
fn same_pair_twice_never_reads_as_direction() {
    let states = [
        EncoderState::Zero,
        EncoderState::Ninety,
        EncoderState::OneEighty,
        EncoderState::SevenTwenty,
    ];
    for current in states {
        for last in states {
            for (clk, dt) in [(false, false), (false, true), (true, false), (true, true)] {
                let mut state = MetaEncoderState { current, last };
                state.next(clk, dt);
                state.next(clk, dt);
                assert_eq!(state.get_direction(), EncoderDirection::Bounce);
                let mut state = MetaEncoderState { current, last };
                state.next(clk, dt);
                state.update_last();
                state.next(clk, dt);
                assert_eq!(state.get_direction(), EncoderDirection::Bounce);
            }
        }
    }
}

#[test]
fn back_and_forth_reads_the_way_back() {
    let mut state = MetaEncoderState::new();
    state.next(true, false);
    assert_eq!(state.get_direction(), EncoderDirection::Bounce);
    state.update_last();
    state.next(false, false);
    assert_eq!(state.get_direction(), EncoderDirection::Clockwise);
}
