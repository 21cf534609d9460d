use ccline_intro::wizard::{ConfigAction, IntroApp};

#[test]
fn new_starts_at_first_step() {
    let app = IntroApp::new(false);
    assert_eq!(app.current_step(), 0);
    assert_eq!(app.total_steps(), 3);
    assert!(!app.is_awaiting_config_choice());
    assert!(!app.is_showing_overwrite_prompt());
    assert!(!app.should_continue());
    assert!(!app.should_exit());
}

#[test]
fn steps_stay_in_range_and_move_by_one() {
    let mut app = IntroApp::new(false);
    let mut prev = app.current_step();
    // A mixed advance/retreat sequence never leaves [0, total_steps - 1]
    // and never jumps by more than one step at a time.
    for round in 0..20 {
        if round % 3 == 0 {
            app.prev_step();
        } else {
            app.next_step();
        }
        let step = app.current_step();
        assert!(step < app.total_steps());
        assert!(step.abs_diff(prev) <= 1);
        prev = step;
    }
}

#[test]
fn retreat_at_first_step_is_noop() {
    let mut app = IntroApp::new(false);
    app.prev_step();
    assert_eq!(app.current_step(), 0);
    assert!(!app.is_awaiting_config_choice());
    assert!(!app.should_continue());
    assert!(!app.should_exit());
}

#[test]
fn advancing_into_final_step_opens_choice_once() {
    let mut app = IntroApp::new(false);
    app.next_step();
    assert_eq!(app.current_step(), 1);
    assert!(!app.is_awaiting_config_choice());
    app.next_step();
    assert_eq!(app.current_step(), 2);
    assert!(app.is_awaiting_config_choice());
    // A further advance is a no-op: it neither moves nor re-opens anything.
    app.next_step();
    assert_eq!(app.current_step(), 2);
    assert!(app.is_awaiting_config_choice());
}

#[test]
fn retreat_from_final_step_abandons_choice() {
    let mut app = IntroApp::new(false);
    app.next_step();
    app.next_step();
    assert!(app.is_awaiting_config_choice());
    app.prev_step();
    assert_eq!(app.current_step(), 1);
    assert!(!app.is_awaiting_config_choice());
}

#[test]
fn accept_without_existing_config_writes_once() {
    let mut app = IntroApp::new(false);
    app.next_step();
    app.next_step();
    let mut write_attempts = 0;
    if app.handle_config_choice('y') == ConfigAction::ForcedWrite {
        write_attempts += 1;
    }
    assert!(app.should_continue());
    assert!(!app.is_awaiting_config_choice());
    assert!(!app.is_showing_overwrite_prompt());
    // Further intents after the hand-off ask for no further write.
    if app.handle_config_choice('y') == ConfigAction::ForcedWrite {
        write_attempts += 1;
    }
    if app.handle_overwrite_response(true) == ConfigAction::ForcedWrite {
        write_attempts += 1;
    }
    assert_eq!(write_attempts, 1);
}

#[test]
fn decline_and_skip_write_nothing() {
    for choice in ['n', 'N', 's', 'S'] {
        let mut app = IntroApp::new(false);
        app.next_step();
        app.next_step();
        assert_eq!(app.handle_config_choice(choice), ConfigAction::NoWrite);
        assert!(app.should_continue());
        assert!(!app.is_awaiting_config_choice());
    }
}

#[test]
fn accept_with_existing_config_asks_before_overwriting() {
    let mut app = IntroApp::new(true);
    app.next_step();
    app.next_step();
    assert_eq!(app.handle_config_choice('y'), ConfigAction::NoWrite);
    assert!(app.is_showing_overwrite_prompt());
    assert!(!app.should_continue());
}

#[test]
fn confirming_overwrite_writes_once() {
    let mut app = IntroApp::new(true);
    app.next_step();
    app.next_step();
    app.handle_config_choice('Y');
    assert_eq!(app.handle_overwrite_response(true), ConfigAction::ForcedWrite);
    assert!(app.should_continue());
    assert!(!app.is_showing_overwrite_prompt());
}

#[test]
fn declining_overwrite_writes_nothing() {
    let mut app = IntroApp::new(true);
    app.next_step();
    app.next_step();
    app.handle_config_choice('y');
    assert_eq!(app.handle_overwrite_response(false), ConfigAction::NoWrite);
    assert!(app.should_continue());
    assert!(!app.is_showing_overwrite_prompt());
}

#[test]
fn choice_is_ignored_while_no_choice_is_pending() {
    let mut app = IntroApp::new(false);
    assert_eq!(app.handle_config_choice('y'), ConfigAction::NoWrite);
    assert_eq!(app.current_step(), 0);
    assert!(!app.should_continue());
}

#[test]
fn overwrite_response_is_ignored_while_no_prompt_is_shown() {
    let mut app = IntroApp::new(true);
    app.next_step();
    app.next_step();
    assert_eq!(app.handle_overwrite_response(true), ConfigAction::NoWrite);
    assert!(app.is_awaiting_config_choice());
    assert!(!app.should_continue());
}

#[test]
fn unrecognised_choice_is_a_noop() {
    let mut app = IntroApp::new(false);
    app.next_step();
    app.next_step();
    assert_eq!(app.handle_config_choice('x'), ConfigAction::NoWrite);
    assert!(app.is_awaiting_config_choice());
    assert!(!app.should_continue());
}

#[test]
fn skip_intro_exits() {
    let mut app = IntroApp::new(false);
    app.next_step();
    app.skip_intro();
    assert!(app.should_exit());
    assert_eq!(app.current_step(), 1);
    assert!(!app.should_continue());
}

#[test]
fn no_step_moves_after_exit() {
    let mut app = IntroApp::new(false);
    app.next_step();
    app.skip_intro();
    app.next_step();
    assert_eq!(app.current_step(), 1);
}

#[test]
fn configure_and_continue_requests_forced_write() {
    let mut app = IntroApp::new(false);
    assert_eq!(app.configure_and_continue(), ConfigAction::ForcedWrite);
    assert!(app.should_continue());
}
