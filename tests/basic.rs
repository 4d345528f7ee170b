use pebbles_game::{handle, init, state, DifficultyLevel, PebblesAction, PebblesInit, Player};

#[test]
fn basic_test() {
    // An even entropy word lets the user open.
    let init_msg = PebblesInit {
        difficulty: DifficultyLevel::Easy,
        pebbles_count: 15,
        max_pebbles_per_turn: 3,
    };
    let res = init(init_msg, 2);
    assert!(res.is_ok(), "Initialization failed");
    let mut session = Some(res.unwrap().0);

    let st = state(&session).expect("Unable to read state");
    assert_eq!(st.pebbles_remaining, 15, "Initial pebbles count mismatch");

    let user_action = PebblesAction::Turn(2);
    let res = handle(&mut session, user_action, 7);
    assert!(res.is_ok(), "User action failed");

    let st = state(&session).expect("Unable to read state");
    assert!(st.pebbles_remaining < 15, "Pebbles count did not decrease");

    let give_up_action = PebblesAction::GiveUp;
    let res = handle(&mut session, give_up_action, 11);
    assert!(res.is_ok(), "Give up action failed");

    let st = state(&session).expect("Unable to read state");
    assert_eq!(st.winner, Some(Player::Program), "Program should be the winner");

    let restart_action = PebblesAction::Restart {
        difficulty: DifficultyLevel::Hard,
        pebbles_count: 20,
        max_pebbles_per_turn: 4,
    };
    let res = handle(&mut session, restart_action, 4);
    assert!(res.is_ok(), "Restart action failed");

    let st = state(&session).expect("Unable to read state");
    assert_eq!(st.pebbles_remaining, 20, "Pebbles count after restart mismatch");
    assert_eq!(st.max_pebbles_per_turn, 4, "Max pebbles per turn after restart mismatch");
    assert_eq!(st.winner, None, "Winner should be None after restart");
}
