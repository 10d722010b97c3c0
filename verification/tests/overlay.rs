use password_out::overlay::{
    countdown_text, fit_overlay, message_duration_ms, next_font_size, overlay_bounds,
    overlay_position, timer_tick, OverlayMode, TimerAction, CLEARED_DURATION_MS,
    MULTILINE_DURATION_MS, SINGLE_LINE_DURATION_MS,
};

#[test]
fn countdown_texts_use_two_digits() {
    assert_eq!(countdown_text(5), "PASSWORD OUT\n\n05 SEC\n\nAUTO CLEAR");
    assert_eq!(countdown_text(30), "PASSWORD OUT\n\n30 SEC\n\nAUTO CLEAR");
    assert_eq!(countdown_text(120), "PASSWORD OUT\n\n120 SEC\n\nAUTO CLEAR");
}

#[test]
fn countdown_ticks_down_then_shows_cleared_then_closes() {
    let mut mode = OverlayMode::Countdown { remaining_seconds: 2, showing_cleared: false };
    assert_eq!(timer_tick(&mut mode), TimerAction::Redraw(countdown_text(1)));
    assert_eq!(
        timer_tick(&mut mode),
        TimerAction::RedrawAndRestart(
            "PASSWORD OUT\n\nCLEARED\n\nCLIPBOARD EMPTY".to_string(),
            CLEARED_DURATION_MS
        )
    );
    assert_eq!(mode, OverlayMode::Countdown { remaining_seconds: 0, showing_cleared: true });
    assert_eq!(timer_tick(&mut mode), TimerAction::Close);
    let mut message = OverlayMode::Message;
    assert_eq!(timer_tick(&mut message), TimerAction::Close);
}

#[test]
fn multi_line_messages_stay_longer() {
    assert_eq!(message_duration_ms("Password copied"), SINGLE_LINE_DURATION_MS);
    assert_eq!(message_duration_ms("one\n"), SINGLE_LINE_DURATION_MS);
    assert_eq!(message_duration_ms("one\ntwo"), MULTILINE_DURATION_MS);
    assert_eq!(message_duration_ms(""), SINGLE_LINE_DURATION_MS);
}

#[test]
fn overlay_is_sized_and_placed_on_screen() {
    assert_eq!(overlay_bounds(1920, 1080), (1840, 1000));
    assert_eq!(overlay_bounds(100, 50), (320, 1));
    assert_eq!(fit_overlay(120, 500, 100, 1, 1840, 1000), Some((580, 140)));
    assert_eq!(fit_overlay(120, 2000, 100, 1, 1840, 1000), None);
    assert_eq!(fit_overlay(16, 2000, 20, 3, 1840, 1000), Some((1840, 104)));
    assert_eq!(next_font_size(120), 116);
    assert_eq!(next_font_size(18), 16);
    assert_eq!(overlay_position(1920, 1080, 580, 140), (1300, 40));
    assert_eq!(overlay_position(300, 100, 580, 140), (0, 0));
}
