use noteworthy::config::{Color, Style, Theme};
use noteworthy::input::{react, Command, Event, Key, Reaction};
use noteworthy::intern_error::Error;
use noteworthy::notification::{
    centered, soft_error_recovery, NotificationType, NotificationWidget, Popup,
};
use noteworthy::ui::block::list_style;

#[test]
fn every_gravity_has_its_title() {
    assert_eq!(NotificationType::Success.get_text(), "Success");
    assert_eq!(NotificationType::Message.get_text(), "Message");
    assert_eq!(NotificationType::ErrorLow.get_text(), "Error");
    assert_eq!(NotificationType::ErrorMid.get_text(), "Error");
    assert_eq!(NotificationType::ErrorHigh.get_text(), "Error");
    assert_eq!(NotificationType::default(), NotificationType::Message);
}

#[test]
fn every_gravity_has_its_colours() {
    let theme = Theme {
        background: Color::Blue,
        foreground: Color::Gray,
        success: Color::LightGreen,
        alert: Color::Rgb(200, 0, 0),
        highlight: Color::Indexed(3),
    };
    let style = |fg: Color| Style { fg: Some(fg), bg: Some(Color::Blue), bold: false, italic: false, reversed: false };
    assert_eq!(NotificationType::Message.get_style(&theme), style(Color::Gray));
    assert_eq!(NotificationType::Success.get_style(&theme), style(Color::LightGreen));
    assert_eq!(NotificationType::ErrorLow.get_style(&theme), style(Color::Rgb(200, 0, 0)));
    assert_eq!(NotificationType::ErrorMid.get_style(&theme), style(Color::Rgb(200, 0, 0)));
    assert_eq!(NotificationType::ErrorHigh.get_style(&theme), style(Color::Rgb(200, 0, 0)));
}

#[test]
fn the_default_theme_is_white_on_black() {
    let theme = Theme::default();
    assert_eq!(theme.background, Color::Black);
    assert_eq!(theme.foreground, Color::White);
    assert_eq!(theme.success, Color::Green);
    assert_eq!(theme.alert, Color::Red);
    assert_eq!(theme.highlight, Color::Yellow);
    assert_eq!(
        Style::default(),
        Style { fg: None, bg: None, bold: false, italic: false, reversed: false }
    );
}

#[test]
fn a_widget_is_built_from_text_and_gravity() {
    let widget = NotificationWidget::default();
    assert_eq!(widget.message(), "");
    assert_eq!(widget.level(), NotificationType::Message);
    let widget = widget.text("saved").notif_type(NotificationType::Success);
    assert_eq!(widget.message(), "saved");
    assert_eq!(widget.level(), NotificationType::Success);
    let widget = widget.text("again");
    assert_eq!(widget.message(), "again");
    assert_eq!(widget.level(), NotificationType::Success);
}

#[test]
fn the_body_is_the_message_and_the_hint() {
    let widget = NotificationWidget::default().text("disk full");
    assert_eq!(widget.generate_body(), vec!["disk full", "[press space to dismiss]"]);
}

#[test]
fn a_failure_becomes_a_notification_of_low_gravity() {
    let mut queue = vec![NotificationWidget::default().text("old")];
    let outcome: Result<Option<u8>, Error> =
        soft_error_recovery(&mut queue, Err(Error::VecAccessError(4)));
    assert_eq!(outcome, Ok(None));
    assert_eq!(queue.len(), 2);
    assert_eq!(queue[0].message(), "old");
    assert_eq!(queue[1].message(), "[ERR] Internal : Couldn't access item at index 4");
    assert_eq!(queue[1].level(), NotificationType::ErrorLow);
}

#[test]
fn a_success_is_handed_on_and_queues_nothing() {
    let mut queue: Vec<NotificationWidget> = Vec::new();
    assert_eq!(soft_error_recovery(&mut queue, Ok(7u8)), Ok(Some(7u8)));
    assert!(queue.is_empty());
    assert_eq!(soft_error_recovery(&mut queue, Ok(())), Ok(Some(())));
    assert!(queue.is_empty());
}

fn key(c: char) -> Event {
    Event::Key(Key::Char(c))
}

#[test]
fn escape_and_q_leave() {
    for pending in [false, true] {
        assert_eq!(react(Event::Key(Key::Esc), pending), Reaction { command: Command::Quit, redraw: true });
        assert_eq!(react(key('q'), pending), Reaction { command: Command::Quit, redraw: true });
    }
}

#[test]
fn space_dismisses_and_capital_s_synchronises() {
    for pending in [false, true] {
        assert_eq!(react(key(' '), pending), Reaction { command: Command::Dismiss, redraw: true });
        assert_eq!(react(key('S'), pending), Reaction { command: Command::Sync, redraw: true });
    }
}

#[test]
fn other_keys_go_to_the_panes_unless_a_notification_waits() {
    for event in [key('s'), key('Q'), key('j'), Event::Key(Key::Other)] {
        assert_eq!(react(event, false), Reaction { command: Command::Forward, redraw: true });
        assert_eq!(react(event, true), Reaction { command: Command::Ignore, redraw: true });
    }
}

#[test]
fn the_mouse_causes_nothing_and_other_events_a_drawing() {
    for pending in [false, true] {
        assert_eq!(react(Event::Mouse, pending), Reaction { command: Command::Ignore, redraw: false });
        assert_eq!(react(Event::Other, pending), Reaction { command: Command::Ignore, redraw: true });
    }
}

#[test]
fn a_notification_is_drawn_as_a_small_box_in_the_middle() {
    let theme = Theme::default();
    let widget = NotificationWidget::default().text("copied").notif_type(NotificationType::Success);
    assert_eq!(
        widget.render(&theme),
        Popup {
            title: String::from("Success"),
            body: vec![String::from("copied"), String::from("[press space to dismiss]")],
            style: Style {
                fg: Some(Color::Green),
                bg: Some(Color::Black),
                bold: false,
                italic: false,
                reversed: false
            },
            width_percent: 20,
            height_percent: 12,
        }
    );
}

#[test]
fn a_centred_part_has_equal_margins() {
    assert_eq!(centered(20), Some((40, 20, 40)));
    assert_eq!(centered(12), Some((44, 12, 44)));
    assert_eq!(centered(0), Some((50, 0, 50)));
    assert_eq!(centered(100), Some((0, 100, 0)));
    assert_eq!(centered(99), Some((0, 99, 0)));
    assert_eq!(centered(101), None);
    assert_eq!(centered(u16::MAX), None);
}

#[test]
fn a_pane_is_drawn_in_the_colours_of_the_theme() {
    assert_eq!(
        list_style(&Theme::default()),
        Style {
            fg: Some(Color::White),
            bg: Some(Color::Black),
            bold: false,
            italic: false,
            reversed: false
        }
    );
}
