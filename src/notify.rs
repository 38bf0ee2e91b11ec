use vstd::prelude::*;

verus! {

/// Which kind of modal dialog a notification asks for.
#[derive(Clone, Copy, Debug, PartialEq, Eq, Structural)]
pub enum NoticeKind {
    About,
    Error,
}

/// A (title, message) pair handed to the dialog surface.
#[derive(Debug)]
pub struct Notification {
    pub kind: NoticeKind,
    pub title: String,
    pub message: String,
}

/// The mathematical content of a notification.
pub struct NotificationView {
    pub kind: NoticeKind,
    pub title: Seq<char>,
    pub message: Seq<char>,
}

impl View for Notification {
    type V = NotificationView;

    open spec fn view(&self) -> NotificationView {
        NotificationView { kind: self.kind, title: self.title@, message: self.message@ }
    }
}

/// Author and copyright text shown by the about dialog.
pub open spec fn about_text() -> Seq<char> {
    "Author: Michael Pfister\n\nCopyright\nAll game content and materials are copyright of Cloud Imperium Rights LLC and Cloud Imperium Rights Ltd.. Star Citizen®, Squadron 42®, Roberts Space Industries®, and Cloud Imperium® are registered trademarks of Cloud Imperium Rights LLC. All rights reserved. Other content is available under Creative Commons Attribution-ShareAlike unless otherwise noted."@
}

/// The about notification's content.
pub open spec fn about_notice() -> NotificationView {
    NotificationView { kind: NoticeKind::About, title: "About"@, message: about_text() }
}

/// An error notification's content.
pub open spec fn error_notice(message: Seq<char>) -> NotificationView {
    NotificationView { kind: NoticeKind::Error, title: "Error"@, message }
}

/// The fixed about notification.
pub fn about_notification() -> (r: Notification)
    ensures
        r@ == about_notice(),
{
    Notification {
        kind: NoticeKind::About,
        title: String::from_str("About"),
        message: String::from_str(
            "Author: Michael Pfister\n\nCopyright\nAll game content and materials are copyright of Cloud Imperium Rights LLC and Cloud Imperium Rights Ltd.. Star Citizen®, Squadron 42®, Roberts Space Industries®, and Cloud Imperium® are registered trademarks of Cloud Imperium Rights LLC. All rights reserved. Other content is available under Creative Commons Attribution-ShareAlike unless otherwise noted.",
        ),
    }
}

/// An error notification carrying the given message.
pub fn error_notification(message: String) -> (r: Notification)
    ensures
        r@ == error_notice(message@),
{
    Notification { kind: NoticeKind::Error, title: String::from_str("Error"), message }
}

} // verus!
