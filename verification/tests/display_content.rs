use tabata_core::button::ButtonPressType;
use tabata_core::display::caption;
use tabata_core::{get_time_text, screen, Screen, State, TabataApp, TabataInput};

fn press() -> TabataInput {
    TabataInput { button_press: ButtonPressType::Press, steps: 0 }
}

#[test]
fn time_text_of_small_durations() {
    assert_eq!(&get_time_text(0), b"00:00");
    assert_eq!(&get_time_text(7), b"00:07");
    assert_eq!(&get_time_text(59), b"00:59");
    assert_eq!(&get_time_text(60), b"01:00");
    assert_eq!(&get_time_text(75), b"01:15");
    assert_eq!(&get_time_text(255), b"04:15");
    assert_eq!(&get_time_text(5999), b"99:59");
}

#[test]
fn time_text_runs_past_the_digits_from_100_minutes_on() {
    assert_eq!(&get_time_text(6000), b":0:00");
    assert_eq!(&get_time_text(255 * 60 + 59), b"I5:59");
}

#[test]
fn time_text_counts_minutes_modulo_256() {
    assert_eq!(&get_time_text(256 * 60), b"00:00");
    assert_eq!(&get_time_text(257 * 60 + 1), b"01:01");
    assert_eq!(get_time_text(u64::MAX), get_time_text(u64::MAX % (256 * 60)));
}

#[test]
fn every_cursor_position_has_its_caption() {
    assert_eq!(caption(0), Some("WORK TIME"));
    assert_eq!(caption(1), Some("REST TIME"));
    assert_eq!(caption(2), Some("NB CYCLES"));
    assert_eq!(caption(3), Some("NB SETS"));
    assert_eq!(caption(4), Some("REST in SETS"));
    assert_eq!(caption(5), Some("START?"));
    assert_eq!(caption(6), None);
    assert_eq!(caption(255), None);
}

#[test]
fn screen_follows_the_cursor_through_the_settings() {
    let mut app = TabataApp::default();
    assert_eq!(screen(&app), Screen::Setting { caption: "WORK TIME", value: 30 });
    assert_eq!(app.selected_value(), Some(30));
    app.update(100, &press());
    assert_eq!(screen(&app), Screen::Setting { caption: "REST TIME", value: 7 });
    app.update(100, &press());
    assert_eq!(screen(&app), Screen::Setting { caption: "NB CYCLES", value: 4 });
    app.update(100, &press());
    assert_eq!(screen(&app), Screen::Setting { caption: "NB SETS", value: 2 });
    app.update(100, &press());
    assert_eq!(screen(&app), Screen::Setting { caption: "REST in SETS", value: 60 });
    app.update(100, &press());
    assert_eq!(screen(&app), Screen::Question { caption: "START?" });
    assert_eq!(app.selected_value(), None);
}

#[test]
fn screen_shows_the_whole_seconds_left_while_running() {
    let mut app = TabataApp::default();
    for _ in 0..6 {
        app.update(100, &press());
    }
    assert_eq!(app.state(), State::Running);
    assert_eq!(screen(&app), Screen::Countdown { seconds: 30 });
    app.update(100, &TabataInput::default());
    assert_eq!(screen(&app), Screen::Countdown { seconds: 29 });
    app.update(100, &press());
    assert_eq!(screen(&app), Screen::Countdown { seconds: 29 });
}

#[test]
fn screen_is_blank_between_countdown_and_settings() {
    let mut app = TabataApp::default();
    for _ in 0..6 {
        app.update(100, &press());
    }
    app.update(100, &TabataInput { button_press: ButtonPressType::LongPress, steps: 0 });
    assert_eq!(app.state(), State::Configuring);
    assert_eq!(app.config_state(), 6);
    assert_eq!(screen(&app), Screen::Blank);
}
