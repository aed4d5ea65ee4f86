//! Desktop notifications shown through the system notification service.
use vstd::prelude::*;

use crate::models::{NotificationData, clone_opt};
use crate::text::push_char;

verus! {

/// A desktop notification: the text and icon to show, and the
/// application it is shown for.
#[derive(Debug)]
pub struct Notification {
    /// The notification body.
    pub body: Option<String>,
    /// The notification title.
    pub title: Option<String>,
    /// The notification icon.
    pub icon: Option<String>,
    /// The identifier of the application.
    pub identifier: String,
}

impl Notification {
    /// A notification for the application `identifier`, with nothing to show yet.
    pub fn new(identifier: String) -> (r: Self)
        ensures
            r.identifier@ == identifier@,
            r.body is None,
            r.title is None,
            r.icon is None,
    {
        Notification { body: None, title: None, icon: None, identifier }
    }

    /// Sets the notification body.
    pub fn body(self, body: String) -> (r: Self)
        ensures
            r.body.deep_view() == Some(body@),
            r.title == self.title,
            r.icon == self.icon,
            r.identifier == self.identifier,
    {
        Notification { body: Some(body), ..self }
    }

    /// Sets the notification title.
    pub fn title(self, title: String) -> (r: Self)
        ensures
            r.title.deep_view() == Some(title@),
            r.body == self.body,
            r.icon == self.icon,
            r.identifier == self.identifier,
    {
        Notification { title: Some(title), ..self }
    }

    /// Sets the notification icon.
    pub fn icon(self, icon: String) -> (r: Self)
        ensures
            r.icon.deep_view() == Some(icon@),
            r.body == self.body,
            r.title == self.title,
            r.identifier == self.identifier,
    {
        Notification { icon: Some(icon), ..self }
    }

    /// The desktop notification for `data`, shown for the application
    /// `identifier`: the title falls back to the product name; the body and
    /// icon are the data's.
    pub fn from_data(data: &NotificationData, identifier: String, product_name: Option<String>) -> (r: Self)
        ensures
            r.identifier@ == identifier@,
            r.title.deep_view() == match data.title.deep_view() {
                Some(t) => Some(t),
                None => product_name.deep_view(),
            },
            r.body.deep_view() == data.body.deep_view(),
            r.icon.deep_view() == data.icon.deep_view(),
    {
        let mut notification = Notification::new(identifier);
        let title = match clone_opt(&data.title) {
            Some(t) => Some(t),
            None => product_name,
        };
        match title {
            Some(t) => {
                notification = notification.title(t);
            },
            None => {},
        }
        match clone_opt(&data.body) {
            Some(b) => {
                notification = notification.body(b);
            },
            None => {},
        }
        match clone_opt(&data.icon) {
            Some(i) => {
                notification = notification.icon(i);
            },
            None => {},
        }
        notification
    }
}

/// Whether `s` ends with `suffix`.
pub open spec fn ends_with(s: Seq<char>, suffix: Seq<char>) -> bool {
    suffix.len() <= s.len() && s.subrange(s.len() - suffix.len(), s.len() as int) == suffix
}

/// Whether `s` ends with `suffix`.
pub fn str_ends_with(s: &str, suffix: &str) -> (r: bool)
    ensures
        r == ends_with(s@, suffix@),
{
    let n = s.unicode_len();
    let m = suffix.unicode_len();
    if m > n {
        return false;
    }
    let mut i: usize = 0;
    while i < m
        invariant
            n == s@.len(),
            m == suffix@.len(),
            m <= n,
            i <= m,
            forall|j: int| 0 <= j < i ==> s@[n - m + j] == suffix@[j],
        decreases m - i,
    {
        if s.get_char(n - m + i) != suffix.get_char(i) {
            assert(s@.subrange(n - m, n as int)[i as int] != suffix@[i as int]);
            return false;
        }
        i = i + 1;
    }
    assert(s@.subrange(n - m, n as int) =~= suffix@);
    true
}

/// `sep`, `target`, `sep`, then `profile`.
pub open spec fn build_dir_suffix(sep: char, profile: Seq<char>) -> Seq<char> {
    seq![sep] + "target"@ + seq![sep] + profile
}

fn dir_suffix(sep: char, profile: &str) -> (r: String)
    ensures
        r@ == build_dir_suffix(sep, profile@),
{
    let mut s = String::new();
    push_char(&mut s, sep);
    s.append("target");
    push_char(&mut s, sep);
    s.append(profile);
    assert(s@ =~= build_dir_suffix(sep, profile@));
    s
}

/// Whether the executable runs from an installed location rather than from
/// a build directory (`<sep>target<sep>debug` or `<sep>target<sep>release`):
/// only an installed application gets its application id on Windows.
pub fn is_installed_app_dir(exe_dir: &str, sep: char) -> (r: bool)
    ensures
        r == !(ends_with(exe_dir@, build_dir_suffix(sep, "debug"@)) || ends_with(
            exe_dir@,
            build_dir_suffix(sep, "release"@),
        )),
{
    let debug = dir_suffix(sep, "debug");
    let release = dir_suffix(sep, "release");
    !(str_ends_with(exe_dir, debug.as_str()) || str_ends_with(exe_dir, release.as_str()))
}

/// The application that macOS shows a notification for: the terminal while
/// developing, the application's own identifier otherwise.
pub fn macos_application(is_dev: bool, identifier: &str) -> (r: String)
    ensures
        is_dev ==> r@ == "com.apple.Terminal"@,
        !is_dev ==> r@ == identifier@,
{
    if is_dev {
        String::from_str("com.apple.Terminal")
    } else {
        String::from_str(identifier)
    }
}

} // verus!
