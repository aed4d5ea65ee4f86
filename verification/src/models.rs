//! The data that notifications, schedules, actions and channels are made of.
use vstd::prelude::*;

use crate::error::{Error, ErrorView};
use crate::text::{all_ascii, ascii_lower, ascii_lower_char, to_lowercase, unicode_lowercase};

verus! {

// ---------------------------------------------------------------------------
// Small helpers on optional text
// ---------------------------------------------------------------------------
/// `r` is the borrowed form of `o`.
pub open spec fn borrows_opt(r: Option<&str>, o: Option<String>) -> bool {
    match (r, o) {
        (Some(a), Some(b)) => a@ == b@,
        (None, None) => true,
        _ => false,
    }
}

/// Borrows the text of an optional `String`.
pub fn opt_as_str(o: &Option<String>) -> (r: Option<&str>)
    ensures
        borrows_opt(r, *o),
{
    match o {
        Some(s) => Some(s.as_str()),
        None => None,
    }
}

/// Copies an optional `String`.
pub fn clone_opt(o: &Option<String>) -> (r: Option<String>)
    ensures
        r.deep_view() == o.deep_view(),
{
    match o {
        Some(s) => Some(s.clone()),
        None => None,
    }
}

/// Copies a list of key/value texts.
pub fn clone_pairs(v: &Vec<(String, String)>) -> (r: Vec<(String, String)>)
    ensures
        r.deep_view() == v.deep_view(),
{
    let mut r: Vec<(String, String)> = Vec::new();
    let mut i: usize = 0;
    while i < v.len()
        invariant
            i <= v.len(),
            r.deep_view() == v.deep_view().take(i as int),
        decreases v.len() - i,
    {
        let k = v[i].0.clone();
        let x = v[i].1.clone();
        r.push((k, x));
        assert(v.deep_view().take(i + 1) =~= v.deep_view().take(i as int).push(v[i as int].deep_view()));
        i = i + 1;
    }
    assert(v.deep_view().take(v.len() as int) =~= v.deep_view());
    r
}

/// Whether two strings hold the same characters.
pub fn str_equals(a: &str, b: &str) -> (r: bool)
    ensures
        r == (a@ == b@),
{
    let x = String::from_str(a);
    let y = String::from_str(b);
    x == y
}

// ---------------------------------------------------------------------------
// Permission
// ---------------------------------------------------------------------------
/// Whether the user lets the application show notifications.
#[derive(Clone, Copy, Debug, PartialEq, Eq, Structural)]
pub enum PermissionState {
    Granted,
    Denied,
    Prompt,
    PromptWithRationale,
}

/// The reply of the native side to a permission query.
#[derive(Debug)]
pub struct PermissionResponse {
    pub permission_state: PermissionState,
}

/// The reply of the native side to a push registration.
#[derive(Debug)]
pub struct PushNotificationResponse {
    pub device_token: String,
}

/// A delivered notification to remove. `tag` addresses what the id alone
/// cannot: Android keys tagged notifications by (tag, id), and a pushed
/// notification on iOS has a non-numeric identifier.
#[derive(Debug)]
pub struct NotificationIdentifier {
    pub id: i32,
    pub tag: Option<String>,
    /// Remove only while the delivered notification is not newer than
    /// this (ms).
    pub max_when: Option<i64>,
}

// ---------------------------------------------------------------------------
// URL and attachment
// ---------------------------------------------------------------------------
/// The serialization that `url::Url::parse` gives a text, where it accepts it.
pub uninterp spec fn url_parse_result(input: Seq<char>) -> Option<Seq<char>>;

/// Calls `url::Url::parse` and keeps the serialization of the parsed URL.
/// Its result is named `url_parse_result`: the URL standard's parser is not
/// restated here.
#[verifier::external_body]
fn parse_url_text(input: &str) -> (r: Option<String>)
    ensures
        r.deep_view() == url_parse_result(input@),
{
    match url::Url::parse(input) {
        Ok(u) => Some(String::from(u)),
        Err(_) => None,
    }
}

/// An absolute URL, held by its serialization.
#[derive(Debug, PartialEq, Eq)]
pub struct Url {
    serialization: String,
}

impl View for Url {
    type V = Seq<char>;

    closed spec fn view(&self) -> Seq<char> {
        self.serialization@
    }
}

impl Url {
    /// Parses an absolute URL.
    pub fn parse(input: &str) -> (r: Result<Url, Error>)
        ensures
            match url_parse_result(input@) {
                Some(s) => r is Ok && r->Ok_0@ == s,
                None => r is Err && r->Err_0@ == ErrorView::InvalidUrl(input@),
            },
    {
        match parse_url_text(input) {
            Some(s) => Ok(Url { serialization: s }),
            None => Err(Error::InvalidUrl(String::from_str(input))),
        }
    }

    /// The serialization of the URL.
    pub fn as_str(&self) -> (r: &str)
        ensures
            r@ == self@,
    {
        self.serialization.as_str()
    }
}

impl Clone for Url {
    fn clone(&self) -> (r: Self)
        ensures
            r@ == self@,
    {
        Url { serialization: self.serialization.clone() }
    }
}

/// An image or file shown with a notification.
#[derive(Debug)]
pub struct Attachment {
    pub id: String,
    pub url: Url,
}

/// The value of an [`Attachment`].
pub struct AttachmentView {
    pub id: Seq<char>,
    pub url: Seq<char>,
}

impl View for Attachment {
    type V = AttachmentView;

    open spec fn view(&self) -> AttachmentView {
        AttachmentView { id: self.id@, url: self.url@ }
    }
}

impl Attachment {
    pub fn new(id: String, url: Url) -> (r: Self)
        ensures
            r@ == (AttachmentView { id: id@, url: url@ }),
    {
        Attachment { id, url }
    }

    pub fn id(&self) -> (r: &str)
        ensures
            r@ == self@.id,
    {
        self.id.as_str()
    }

    pub fn url(&self) -> (r: &Url)
        ensures
            r@ == self@.url,
    {
        &self.url
    }
}

impl Clone for Attachment {
    fn clone(&self) -> (r: Self)
        ensures
            r@ == self@,
    {
        Attachment { id: self.id.clone(), url: self.url.clone() }
    }
}

/// The views of a list of attachments.
pub open spec fn attachments_view(v: Seq<Attachment>) -> Seq<AttachmentView> {
    v.map_values(|a: Attachment| a@)
}

/// Copies a list of attachments.
pub fn clone_attachments(v: &Vec<Attachment>) -> (r: Vec<Attachment>)
    ensures
        attachments_view(r@) == attachments_view(v@),
{
    let mut r: Vec<Attachment> = Vec::new();
    let mut i: usize = 0;
    while i < v.len()
        invariant
            i <= v.len(),
            attachments_view(r@) == attachments_view(v@).take(i as int),
        decreases v.len() - i,
    {
        let a = v[i].clone();
        let ghost old_r = r@;
        r.push(a);
        assert(r@ == old_r.push(a));
        assert(a@ == v@[i as int]@);
        assert(attachments_view(r@) =~= attachments_view(old_r).push(a@));
        assert(attachments_view(v@).take(i + 1) =~= attachments_view(v@).take(i as int).push(
            attachments_view(v@)[i as int],
        ));
        i = i + 1;
    }
    assert(attachments_view(v@).take(v.len() as int) =~= attachments_view(v@));
    r
}

// ---------------------------------------------------------------------------
// Schedules
// ---------------------------------------------------------------------------
/// Calendar fields of a repeating schedule; an absent field matches any value.
#[derive(Debug, Clone, Copy, PartialEq, Eq, Structural)]
pub struct ScheduleInterval {
    pub year: Option<u8>,
    pub month: Option<u8>,
    pub day: Option<u8>,
    pub weekday: Option<u8>,
    pub hour: Option<u8>,
    pub minute: Option<u8>,
    pub second: Option<u8>,
}

impl Default for ScheduleInterval {
    fn default() -> (r: Self)
        ensures
            r.year is None,
            r.month is None,
            r.day is None,
            r.weekday is None,
            r.hour is None,
            r.minute is None,
            r.second is None,
    {
        ScheduleInterval {
            year: None,
            month: None,
            day: None,
            weekday: None,
            hour: None,
            minute: None,
            second: None,
        }
    }
}

/// The unit of a repeating schedule.
#[derive(Debug, Clone, Copy, PartialEq, Eq, Structural)]
pub enum ScheduleEvery {
    Year,
    Month,
    TwoWeeks,
    Week,
    Day,
    Hour,
    Minute,
    Second,
}

/// The name under which a repetition unit is written.
pub open spec fn every_name(e: ScheduleEvery) -> Seq<char> {
    match e {
        ScheduleEvery::Year => "year"@,
        ScheduleEvery::Month => "month"@,
        ScheduleEvery::TwoWeeks => "twoWeeks"@,
        ScheduleEvery::Week => "week"@,
        ScheduleEvery::Day => "day"@,
        ScheduleEvery::Hour => "hour"@,
        ScheduleEvery::Minute => "minute"@,
        ScheduleEvery::Second => "second"@,
    }
}

/// The repetition unit that a lower-case name stands for.
pub open spec fn every_from_lowercase(s: Seq<char>) -> Option<ScheduleEvery> {
    if s == "year"@ {
        Some(ScheduleEvery::Year)
    } else if s == "month"@ {
        Some(ScheduleEvery::Month)
    } else if s == "twoweeks"@ {
        Some(ScheduleEvery::TwoWeeks)
    } else if s == "week"@ {
        Some(ScheduleEvery::Week)
    } else if s == "day"@ {
        Some(ScheduleEvery::Day)
    } else if s == "hour"@ {
        Some(ScheduleEvery::Hour)
    } else if s == "minute"@ {
        Some(ScheduleEvery::Minute)
    } else if s == "second"@ {
        Some(ScheduleEvery::Second)
    } else {
        None
    }
}

impl ScheduleEvery {
    /// The name of the unit, as it is written in a schedule.
    pub fn to_string(&self) -> (r: String)
        ensures
            r@ == every_name(*self),
    {
        match self {
            ScheduleEvery::Year => String::from_str("year"),
            ScheduleEvery::Month => String::from_str("month"),
            ScheduleEvery::TwoWeeks => String::from_str("twoWeeks"),
            ScheduleEvery::Week => String::from_str("week"),
            ScheduleEvery::Day => String::from_str("day"),
            ScheduleEvery::Hour => String::from_str("hour"),
            ScheduleEvery::Minute => String::from_str("minute"),
            ScheduleEvery::Second => String::from_str("second"),
        }
    }

    /// The unit that a name already in lower case stands for.
    pub fn from_lowercase_name(name: &str) -> (r: Option<ScheduleEvery>)
        ensures
            r == every_from_lowercase(name@),
    {
        if str_equals(name, "year") {
            Some(ScheduleEvery::Year)
        } else if str_equals(name, "month") {
            Some(ScheduleEvery::Month)
        } else if str_equals(name, "twoweeks") {
            Some(ScheduleEvery::TwoWeeks)
        } else if str_equals(name, "week") {
            Some(ScheduleEvery::Week)
        } else if str_equals(name, "day") {
            Some(ScheduleEvery::Day)
        } else if str_equals(name, "hour") {
            Some(ScheduleEvery::Hour)
        } else if str_equals(name, "minute") {
            Some(ScheduleEvery::Minute)
        } else if str_equals(name, "second") {
            Some(ScheduleEvery::Second)
        } else {
            None
        }
    }

    /// Reads a unit from its name, in any letter case.
    pub fn from_name(name: &str) -> (r: Result<ScheduleEvery, Error>)
        ensures
            match every_from_lowercase(unicode_lowercase(name@)) {
                Some(e) => r == Ok::<ScheduleEvery, Error>(e),
                None => r is Err && r->Err_0@ == ErrorView::UnknownScheduleEvery(name@),
            },
            all_ascii(name@) ==> unicode_lowercase(name@) == ascii_lower(name@),
    {
        let lower = to_lowercase(name);
        match ScheduleEvery::from_lowercase_name(lower.as_str()) {
            Some(e) => Ok(e),
            None => Err(Error::UnknownScheduleEvery(String::from_str(name))),
        }
    }
}

/// Every unit's name is ASCII, and reading it in any letter case gives
/// the unit back: what `to_string` writes, `from_name` reads as the same unit.
pub proof fn lemma_every_name_roundtrip(e: ScheduleEvery)
    ensures
        all_ascii(every_name(e)),
        every_from_lowercase(ascii_lower(every_name(e))) == Some(e),
{
    reveal_strlit("year");
    reveal_strlit("month");
    reveal_strlit("twoWeeks");
    reveal_strlit("twoweeks");
    reveal_strlit("week");
    reveal_strlit("day");
    reveal_strlit("hour");
    reveal_strlit("minute");
    reveal_strlit("second");
    let n = every_name(e);
    let l = ascii_lower(n);
    match e {
        ScheduleEvery::Year => {
            assert(l =~= "year"@);
        },
        ScheduleEvery::Month => {
            assert(l =~= "month"@);
        },
        ScheduleEvery::TwoWeeks => {
            assert(ascii_lower_char('W') == 'w');
            assert(l =~= "twoweeks"@);
        },
        ScheduleEvery::Week => {
            assert(l =~= "week"@);
            assert(l[0] != "year"@[0]);
        },
        ScheduleEvery::Day => {
            assert(l =~= "day"@);
        },
        ScheduleEvery::Hour => {
            assert(l =~= "hour"@);
            assert(l[0] != "year"@[0] && l[0] != "week"@[0]);
        },
        ScheduleEvery::Minute => {
            assert(l =~= "minute"@);
        },
        ScheduleEvery::Second => {
            assert(l =~= "second"@);
            assert(l[0] != "minute"@[0]);
        },
    }
}

/// A point in time: nanoseconds since the Unix epoch, and the UTC offset
/// (in seconds) it is written in.
#[derive(Debug, Clone, Copy, PartialEq, Eq, Structural)]
pub struct Timestamp {
    pub unix_nanos: i128,
    pub offset_seconds: i32,
}

/// When a notification is delivered.
#[allow(inconsistent_fields)]
#[derive(Debug, Clone, Copy, PartialEq, Eq, Structural)]
pub enum Schedule {
    /// Once at `date`, or every year at that time when `repeating`.
    At { date: Timestamp, repeating: bool, allow_while_idle: bool },
    /// Whenever the calendar matches `interval`.
    Interval { interval: ScheduleInterval, allow_while_idle: bool },
    /// Every `count` units.
    Every { interval: ScheduleEvery, count: u8, allow_while_idle: bool },
}

// ---------------------------------------------------------------------------
// Notification data
// ---------------------------------------------------------------------------
/// A notification to show.
#[derive(Debug)]
pub struct NotificationData {
    pub id: i32,
    pub channel_id: Option<String>,
    pub title: Option<String>,
    pub body: Option<String>,
    pub schedule: Option<Schedule>,
    pub large_body: Option<String>,
    pub summary: Option<String>,
    pub action_type_id: Option<String>,
    pub group: Option<String>,
    pub group_summary: bool,
    pub sound: Option<String>,
    pub inbox_lines: Vec<String>,
    pub icon: Option<String>,
    pub large_icon: Option<String>,
    pub icon_color: Option<String>,
    pub attachments: Vec<Attachment>,
    /// Extra data: each key with the JSON text of its value.
    pub extra: Vec<(String, String)>,
    pub ongoing: bool,
    pub auto_cancel: bool,
    pub silent: bool,
}

/// Calls `rand::random::<i32>()`. Nothing is promised of the number.
#[verifier::external_body]
fn random_id() -> i32 {
    rand::random::<i32>()
}

/// The data has every field at its default, but for the id.
pub open spec fn is_default_data(d: NotificationData) -> bool {
    &&& d.channel_id is None
    &&& d.title is None
    &&& d.body is None
    &&& d.schedule is None
    &&& d.large_body is None
    &&& d.summary is None
    &&& d.action_type_id is None
    &&& d.group is None
    &&& !d.group_summary
    &&& d.sound is None
    &&& d.inbox_lines@.len() == 0
    &&& d.icon is None
    &&& d.large_icon is None
    &&& d.icon_color is None
    &&& d.attachments@.len() == 0
    &&& d.extra@.len() == 0
    &&& !d.ongoing
    &&& !d.auto_cancel
    &&& !d.silent
}

/// No key occurs twice in a list of key and value pairs.
pub open spec fn keys_unique(v: Seq<(Seq<char>, Seq<char>)>) -> bool {
    forall|i: int, j: int| 0 <= i < j < v.len() ==> v[i].0 != v[j].0
}

impl NotificationData {
    /// The extra data names each key once, as a map does.
    pub open spec fn wf(&self) -> bool {
        keys_unique(self.extra.deep_view())
    }

    /// Data with the given id and every other field at its default.
    pub fn with_id(id: i32) -> (r: Self)
        ensures
            r.id == id,
            is_default_data(r),
            r.wf(),
    {
        NotificationData {
            id,
            channel_id: None,
            title: None,
            body: None,
            schedule: None,
            large_body: None,
            summary: None,
            action_type_id: None,
            group: None,
            group_summary: false,
            sound: None,
            inbox_lines: Vec::new(),
            icon: None,
            large_icon: None,
            icon_color: None,
            attachments: Vec::new(),
            extra: Vec::new(),
            ongoing: false,
            auto_cancel: false,
            silent: false,
        }
    }

    /// The id that a random draw gives a notification: the drawn number,
    /// but 1 for a drawn 0, which no notification carries.
    pub fn id_from_draw(drawn: i32) -> (r: i32)
        ensures
            r == if drawn == 0 {
                1
            } else {
                drawn
            },
    {
        if drawn == 0 {
            1
        } else {
            drawn
        }
    }

    /// A fresh random id for a notification that names none: a random draw
    /// taken by `id_from_draw`.
    pub fn default_id() -> (r: i32)
        ensures
            r != 0,
    {
        NotificationData::id_from_draw(random_id())
    }
}

impl Default for NotificationData {
    /// Data with a random id and every other field at its default.
    fn default() -> (r: Self)
        ensures
            r.id != 0,
            is_default_data(r),
            r.wf(),
    {
        NotificationData::with_id(NotificationData::default_id())
    }
}

/// A notification that is scheduled and not yet delivered.
#[derive(Debug)]
pub struct PendingNotification {
    pub id: i32,
    pub title: Option<String>,
    pub body: Option<String>,
    pub schedule: Schedule,
}

impl PendingNotification {
    pub fn id(&self) -> (r: i32)
        ensures
            r == self.id,
    {
        self.id
    }

    pub fn title(&self) -> (r: Option<&str>)
        ensures
            borrows_opt(r, self.title),
    {
        opt_as_str(&self.title)
    }

    pub fn body(&self) -> (r: Option<&str>)
        ensures
            borrows_opt(r, self.body),
    {
        opt_as_str(&self.body)
    }

    pub fn schedule(&self) -> (r: &Schedule)
        ensures
            *r == self.schedule,
    {
        &self.schedule
    }
}

/// A notification that is delivered and still shown.
#[derive(Debug)]
pub struct ActiveNotification {
    pub id: i32,
    pub tag: Option<String>,
    pub title: Option<String>,
    pub body: Option<String>,
    pub group: Option<String>,
    pub group_summary: bool,
    /// The data payload: each key with its text.
    pub data: Vec<(String, String)>,
    /// Extra data: each key with the JSON text of its value.
    pub extra: Vec<(String, String)>,
    pub attachments: Vec<Attachment>,
    pub action_type_id: Option<String>,
    pub schedule: Option<Schedule>,
    pub sound: Option<String>,
    /// "push" or "local": where the notification came from, where the
    /// platform can tell.
    pub source: Option<String>,
    /// The event time of the notification in ms, where the platform has one.
    pub when: Option<i64>,
}

impl ActiveNotification {
    /// The data payload and the extra data each name a key once, as a map
    /// does.
    pub open spec fn wf(&self) -> bool {
        &&& keys_unique(self.data.deep_view())
        &&& keys_unique(self.extra.deep_view())
    }

    pub fn id(&self) -> (r: i32)
        ensures
            r == self.id,
    {
        self.id
    }

    pub fn tag(&self) -> (r: Option<&str>)
        ensures
            borrows_opt(r, self.tag),
    {
        opt_as_str(&self.tag)
    }

    pub fn title(&self) -> (r: Option<&str>)
        ensures
            borrows_opt(r, self.title),
    {
        opt_as_str(&self.title)
    }

    pub fn body(&self) -> (r: Option<&str>)
        ensures
            borrows_opt(r, self.body),
    {
        opt_as_str(&self.body)
    }

    pub fn group(&self) -> (r: Option<&str>)
        ensures
            borrows_opt(r, self.group),
    {
        opt_as_str(&self.group)
    }

    pub fn group_summary(&self) -> (r: bool)
        ensures
            r == self.group_summary,
    {
        self.group_summary
    }

    pub fn data(&self) -> (r: &Vec<(String, String)>)
        ensures
            r.deep_view() == self.data.deep_view(),
    {
        &self.data
    }

    pub fn extra(&self) -> (r: &Vec<(String, String)>)
        ensures
            r.deep_view() == self.extra.deep_view(),
    {
        &self.extra
    }

    pub fn attachments(&self) -> (r: &[Attachment])
        ensures
            attachments_view(r@) == attachments_view(self.attachments@),
    {
        self.attachments.as_slice()
    }

    pub fn action_type_id(&self) -> (r: Option<&str>)
        ensures
            borrows_opt(r, self.action_type_id),
    {
        opt_as_str(&self.action_type_id)
    }

    pub fn schedule(&self) -> (r: Option<&Schedule>)
        ensures
            match (r, self.schedule) {
                (Some(a), Some(b)) => *a == b,
                (None, None) => true,
                _ => false,
            },
    {
        match &self.schedule {
            Some(s) => Some(s),
            None => None,
        }
    }

    pub fn sound(&self) -> (r: Option<&str>)
        ensures
            borrows_opt(r, self.sound),
    {
        opt_as_str(&self.sound)
    }

    pub fn source(&self) -> (r: Option<&str>)
        ensures
            borrows_opt(r, self.source),
    {
        opt_as_str(&self.source)
    }

    pub fn when(&self) -> (r: Option<i64>)
        ensures
            r == self.when,
    {
        self.when
    }
}

} // verus!
