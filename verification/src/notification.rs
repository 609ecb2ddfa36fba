//! Notifications: the messages that the navigator shows over its panes
//! until the user dismisses them.

use crate::config::{Style, Theme};
use crate::intern_error::Error;
use vstd::prelude::*;

verus! {

/// How grave a notification is.
#[derive(Copy, Clone, Debug, PartialEq, Eq, Structural)]
pub enum NotificationType {
    Success,
    ErrorLow,
    ErrorMid,
    ErrorHigh,
    Message,
}

impl Default for NotificationType {
    fn default() -> (r: Self)
        ensures
            r == NotificationType::Message,
    {
        NotificationType::Message
    }
}

/// A message together with its gravity.
#[derive(Debug, PartialEq, Eq)]
pub struct NotificationWidget {
    notif_text: String,
    notif_type: NotificationType,
}

pub struct NotificationWidgetView {
    pub notif_text: Seq<char>,
    pub notif_type: NotificationType,
}

impl View for NotificationWidget {
    type V = NotificationWidgetView;

    closed spec fn view(&self) -> NotificationWidgetView {
        NotificationWidgetView { notif_text: self.notif_text@, notif_type: self.notif_type }
    }
}

impl Default for NotificationWidget {
    /// An empty message.
    fn default() -> (r: Self)
        ensures
            r@ == (NotificationWidgetView {
                notif_text: Seq::empty(),
                notif_type: NotificationType::Message,
            }),
    {
        NotificationWidget { notif_text: String::new(), notif_type: NotificationType::Message }
    }
}

/// A notification as it is drawn: a framed box with a title, in the middle
/// of the screen.
#[derive(Debug, PartialEq, Eq)]
pub struct Popup {
    pub title: String,
    /// The lines inside the frame.
    pub body: Vec<String>,
    pub style: Style,
    /// The share of the width of the screen that the box takes, in percent.
    pub width_percent: u16,
    /// The share of the height of the screen that the box takes, in
    /// percent.
    pub height_percent: u16,
}

/// The shares of a length, in percent, that lie before, in and behind a
/// part that takes `percent` of it and lies in the middle; `None` where
/// `percent` is more than the whole.
pub open spec fn centering(percent: u16) -> Option<(u16, u16, u16)> {
    if percent <= 100 {
        Some((((100 - percent) / 2) as u16, percent, ((100 - percent) / 2) as u16))
    } else {
        None
    }
}

/// The shares of a length, in percent, that lie before, in and behind a
/// part that takes `percent` of it and lies in the middle.
pub fn centered(percent: u16) -> (r: Option<(u16, u16, u16)>)
    ensures
        r == centering(percent),
{
    if percent <= 100 {
        let margin: u16 = (100 - percent) / 2;
        Some((margin, percent, margin))
    } else {
        None
    }
}

/// The views of the notifications of `queue`, in order.
pub open spec fn widget_views(queue: Seq<NotificationWidget>) -> Seq<NotificationWidgetView> {
    queue.map_values(|w: NotificationWidget| w@)
}

/// The notification that reports the failure `why`: its message, at the
/// lowest gravity of failures.
pub open spec fn failure_notice(why: Error) -> NotificationWidgetView {
    NotificationWidgetView { notif_text: why@.message(), notif_type: NotificationType::ErrorLow }
}

impl NotificationType {
    /// The title of notifications of this gravity.
    pub open spec fn title(self) -> Seq<char> {
        match self {
            NotificationType::Success => "Success"@,
            NotificationType::Message => "Message"@,
            _ => "Error"@,
        }
    }

    /// The style of notifications of this gravity: on the background of the
    /// theme, a plain message in its foreground, a success in its success
    /// colour, every failure in its alert colour.
    pub open spec fn style(self, theme: Theme) -> Style {
        Style {
            fg: Some(
                match self {
                    NotificationType::Message => theme.foreground,
                    NotificationType::Success => theme.success,
                    _ => theme.alert,
                },
            ),
            bg: Some(theme.background),
            bold: false,
            italic: false,
            reversed: false,
        }
    }

    pub fn get_text(&self) -> (r: String)
        ensures
            r@ == self.title(),
    {
        match self {
            NotificationType::Success => "Success".to_owned(),
            NotificationType::Message => "Message".to_owned(),
            NotificationType::ErrorHigh | NotificationType::ErrorMid
            | NotificationType::ErrorLow => "Error".to_owned(),
        }
    }

    pub fn get_style(&self, theme: &Theme) -> (r: Style)
        ensures
            r == self.style(*theme),
    {
        Style {
            fg: Some(
                match self {
                    NotificationType::Message => theme.foreground,
                    NotificationType::Success => theme.success,
                    NotificationType::ErrorLow | NotificationType::ErrorMid
                    | NotificationType::ErrorHigh => theme.alert,
                },
            ),
            bg: Some(theme.background),
            bold: false,
            italic: false,
            reversed: false,
        }
    }
}

impl NotificationWidget {
    pub fn text(self, text: &str) -> (r: Self)
        ensures
            r@ == (NotificationWidgetView { notif_text: text@, ..self@ }),
    {
        let mut widget = self;
        widget.notif_text = text.to_owned();
        widget
    }

    pub fn notif_type(self, level: NotificationType) -> (r: Self)
        ensures
            r@ == (NotificationWidgetView { notif_type: level, ..self@ }),
    {
        let mut widget = self;
        widget.notif_type = level;
        widget
    }

    /// The message.
    pub fn message(&self) -> (r: &String)
        ensures
            r@ == self@.notif_text,
    {
        &self.notif_text
    }

    /// The gravity.
    pub fn level(&self) -> (r: NotificationType)
        ensures
            r == self@.notif_type,
    {
        self.notif_type
    }

    /// The notification as it is drawn with the colours of `theme`: titled
    /// by its gravity, in the style of its gravity, over a fifth of the
    /// width and about an eighth of the height of the screen.
    pub fn render(&self, theme: &Theme) -> (r: Popup)
        ensures
            r.title@ == self@.notif_type.title(),
            r.body@.len() == 2,
            r.body@[0]@ == self@.notif_text,
            r.body@[1]@ == "[press space to dismiss]"@,
            r.style == self@.notif_type.style(*theme),
            r.width_percent == 20,
            r.height_percent == 12,
    {
        Popup {
            title: self.notif_type.get_text(),
            body: self.generate_body(),
            style: self.notif_type.get_style(theme),
            width_percent: 20,
            height_percent: 12,
        }
    }

    /// The lines of the notification: the message, then the hint on how to
    /// dismiss it.
    pub fn generate_body(&self) -> (r: Vec<String>)
        ensures
            r@.len() == 2,
            r@[0]@ == self@.notif_text,
            r@[1]@ == "[press space to dismiss]"@,
    {
        let mut lines: Vec<String> = Vec::new();
        lines.push(self.notif_text.clone());
        lines.push("[press space to dismiss]".to_owned());
        lines
    }
}

/// Turns a failure into a notification: the failure of `result` is queued
/// as a notification of low gravity and the caller goes on without a value;
/// a success is handed on and queues nothing.
pub fn soft_error_recovery<T>(
    notifications: &mut Vec<NotificationWidget>,
    result: Result<T, Error>,
) -> (r: Result<Option<T>, Error>)
    ensures
        match result {
            Err(why) => r == Ok::<Option<T>, Error>(None) && widget_views(final(notifications)@)
                == widget_views(old(notifications)@).push(failure_notice(why)),
            Ok(val) => r == Ok::<Option<T>, Error>(Some(val)) && final(notifications)@ == old(
                notifications,
            )@,
        },
{
    match result {
        Err(why) => {
            let text = why.to_string();
            let widget = NotificationWidget::default().text(text.as_str()).notif_type(
                NotificationType::ErrorLow,
            );
            notifications.push(widget);
            assert(widget_views(notifications@) =~= widget_views(old(notifications)@).push(
                failure_notice(why),
            ));
            Ok(None)
        },
        Ok(val) => Ok(Some(val)),
    }
}

} // verus!
