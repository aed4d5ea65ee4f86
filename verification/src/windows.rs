//! Windows toast notifications: time conversion, tags, the plugin's state
//! and what each call shows, schedules or reports.
use vstd::prelude::*;

use crate::actions::{ActionType, ActionTypeView, ActionTypes, types_view};
use crate::error::{Error, ErrorResponse, ErrorView, PluginInvokeError, io_error};
use crate::models::{
    PermissionState, ActiveNotification, NotificationData, PendingNotification, Schedule, ScheduleEvery,
    Timestamp, attachments_view, clone_attachments, clone_opt, clone_pairs,
};
use crate::text::{
    i32_to_decimal, int_decimal, lemma_decimal_roundtrip, parse_i32, parse_i32_spec, push_char,
};
use crate::toast::{build_toast_xml, toast_node};
use crate::xml::XmlElement;

verus! {

/// Windows FILETIME epoch (January 1, 1601) offset from the Unix epoch
/// (January 1, 1970) in 100-nanosecond ticks.
pub const WINDOWS_EPOCH_OFFSET_TICKS: i128 = 116_444_736_000_000_000;

/// The earliest instant the `time` crate represents: -9999-01-01 00:00 UTC,
/// in nanoseconds since the Unix epoch.
pub const MIN_UNIX_NANOS: i128 = -377_705_116_800_000_000_000;

/// The latest instant the `time` crate represents: 9999-12-31
/// 23:59:59.999999999 UTC, in nanoseconds since the Unix epoch.
pub const MAX_UNIX_NANOS: i128 = 253_402_300_799_999_999_999;

/// Whether `n` nanoseconds since the Unix epoch is a representable instant.
pub open spec fn in_time_range(n: int) -> bool {
    MIN_UNIX_NANOS <= n <= MAX_UNIX_NANOS
}

/// A Windows `DateTime`: 100-nanosecond ticks since January 1, 1601 UTC.
#[derive(Debug, Clone, Copy, PartialEq, Eq, Structural)]
pub struct WindowsDateTime {
    pub universal_time: i64,
}

/// Division that rounds toward zero, as Rust's `/` does.
pub open spec fn trunc_div(a: int, b: int) -> int {
    if a >= 0 {
        a / b
    } else {
        -((-a) / b)
    }
}

/// The Windows ticks of an instant given in Unix nanoseconds.
pub open spec fn unix_nanos_to_ticks(n: int) -> int {
    trunc_div(n, 100) + WINDOWS_EPOCH_OFFSET_TICKS
}

/// The Unix nanoseconds of an instant given in Windows ticks.
pub open spec fn ticks_to_unix_nanos(t: int) -> int {
    (t - WINDOWS_EPOCH_OFFSET_TICKS) * 100
}

/// What `unix_to_windows_datetime` returns for an instant.
pub open spec fn spec_unix_to_windows(n: int) -> Result<WindowsDateTime, ErrorView> {
    let t = unix_nanos_to_ticks(n);
    if i64::MIN <= t <= i64::MAX {
        Ok(WindowsDateTime { universal_time: t as i64 })
    } else {
        Err(ErrorView::Io("Schedule date out of range"@))
    }
}

/// `r`, with its error taken by its view.
pub open spec fn result_view<T>(r: Result<T, Error>) -> Result<T, ErrorView> {
    match r {
        Ok(v) => Ok(v),
        Err(e) => Err(e@),
    }
}

/// Converts an instant to a Windows `DateTime`; it fails where the ticks do
/// not fit in an `i64`.
pub fn unix_to_windows_datetime(time: Timestamp) -> (r: Result<WindowsDateTime, Error>)
    ensures
        result_view(r) == spec_unix_to_windows(time.unix_nanos as int),
{
    let ticks: i128 = time.unix_nanos / 100 + WINDOWS_EPOCH_OFFSET_TICKS;
    if ticks < i64::MIN as i128 || ticks > i64::MAX as i128 {
        Err(io_error("Schedule date out of range"))
    } else {
        Ok(WindowsDateTime { universal_time: ticks as i64 })
    }
}

/// Calls `time::OffsetDateTime::from_unix_timestamp_nanos` and keeps whether
/// it succeeded: it does exactly on the instants that the crate represents
/// (-9999-01-01 to 9999-12-31 UTC).
#[verifier::external_body]
fn representable_instant(nanos: i128) -> (r: bool)
    ensures
        r == in_time_range(nanos as int),
{
    time::OffsetDateTime::from_unix_timestamp_nanos(nanos).is_ok()
}

/// What `windows_datetime_to_unix` returns for a Windows `DateTime`.
pub open spec fn spec_windows_to_unix(dt: WindowsDateTime) -> Result<Timestamp, ErrorView> {
    let n = ticks_to_unix_nanos(dt.universal_time as int);
    if in_time_range(n) {
        Ok(Timestamp { unix_nanos: n as i128, offset_seconds: 0 })
    } else {
        Err(ErrorView::Io("DateTime out of range"@))
    }
}

/// Converts a Windows `DateTime` back to an instant in UTC; it fails where
/// the instant is out of the representable range.
pub fn windows_datetime_to_unix(dt: WindowsDateTime) -> (r: Result<Timestamp, Error>)
    ensures
        result_view(r) == spec_windows_to_unix(dt),
{
    let nanos: i128 = (dt.universal_time as i128 - WINDOWS_EPOCH_OFFSET_TICKS) * 100;
    if representable_instant(nanos) {
        Ok(Timestamp { unix_nanos: nanos, offset_seconds: 0 })
    } else {
        Err(io_error("DateTime out of range"))
    }
}

/// An instant converted to Windows ticks and back comes back whole, less
/// than one tick (100 ns) early or late; the conversions do not fail on
/// any representable instant.
pub proof fn lemma_windows_datetime_roundtrip(n: int)
    requires
        in_time_range(n),
    ensures
        spec_unix_to_windows(n) is Ok,
        spec_windows_to_unix(spec_unix_to_windows(n)->Ok_0) is Ok,
        ({
            let back = spec_windows_to_unix(spec_unix_to_windows(n)->Ok_0)->Ok_0.unix_nanos as int;
            n - 100 < back < n + 100
        }),
{
    let t = unix_nanos_to_ticks(n);
    let back = ticks_to_unix_nanos(t);
    if n >= 0 {
        vstd::arithmetic::div_mod::lemma_fundamental_div_mod(n, 100);
        assert(back == (n / 100) * 100);
    } else {
        vstd::arithmetic::div_mod::lemma_fundamental_div_mod(-n, 100);
        assert(back == -(((-n) / 100) * 100));
    }
}

/// Calls `time::OffsetDateTime::now_utc` and keeps its instant in Unix
/// nanoseconds (`unix_timestamp_nanos`). Nothing is stated of which instant
/// it is, only that it is a representable one.
#[verifier::external_body]
fn now_unix_nanos() -> (r: i128)
    ensures
        in_time_range(r as int),
{
    time::OffsetDateTime::now_utc().unix_timestamp_nanos()
}

/// Seconds in one repetition unit: a month counts 30 days, a year 365.
pub open spec fn every_seconds(e: ScheduleEvery) -> int {
    match e {
        ScheduleEvery::Year => 365int * 86400,
        ScheduleEvery::Month => 30int * 86400,
        ScheduleEvery::TwoWeeks => 14int * 86400,
        ScheduleEvery::Week => 7int * 86400,
        ScheduleEvery::Day => 86400int,
        ScheduleEvery::Hour => 3600int,
        ScheduleEvery::Minute => 60int,
        ScheduleEvery::Second => 1int,
    }
}

/// A calendar field, or zero where it is absent.
pub open spec fn field_or_zero(f: Option<u8>) -> int {
    match f {
        Some(v) => v as int,
        None => 0,
    }
}

/// Seconds from now to the delivery of a relative schedule: the day, hour,
/// minute and second fields of an interval added up (the others are not
/// used), or `count` repetition units.
pub open spec fn schedule_delay_seconds(s: Schedule) -> int {
    match s {
        Schedule::At { .. } => 0,
        Schedule::Interval { interval, .. } => field_or_zero(interval.second) + field_or_zero(
            interval.minute,
        ) * 60 + field_or_zero(interval.hour) * 3600 + field_or_zero(interval.day) * 86400,
        Schedule::Every { interval, count, .. } => every_seconds(interval) * count,
    }
}

/// When a schedule delivers, seen at `now`.
pub open spec fn spec_delivery_time(s: Schedule, now: Timestamp) -> Result<Timestamp, ErrorView> {
    match s {
        Schedule::At { date, .. } => Ok(date),
        _ => {
            let n = now.unix_nanos + schedule_delay_seconds(s) * 1_000_000_000;
            if in_time_range(n) {
                Ok(Timestamp { unix_nanos: n as i128, offset_seconds: now.offset_seconds })
            } else {
                Err(ErrorView::Io("Schedule date out of range"@))
            }
        },
    }
}

fn field_seconds(f: Option<u8>) -> (r: i64)
    ensures
        r == field_or_zero(f),
{
    match f {
        Some(v) => v as i64,
        None => 0,
    }
}

/// When `schedule` delivers, seen at `now`: its date, or now plus its delay.
pub fn delivery_time(schedule: &Schedule, now: Timestamp) -> (r: Result<Timestamp, Error>)
    requires
        in_time_range(now.unix_nanos as int),
    ensures
        result_view(r) == spec_delivery_time(*schedule, now),
{
    let seconds: i64 = match schedule {
        Schedule::At { date, .. } => {
            return Ok(*date);
        },
        Schedule::Interval { interval, .. } => {
            field_seconds(interval.second) + field_seconds(interval.minute) * 60 + field_seconds(
                interval.hour,
            ) * 3600 + field_seconds(interval.day) * 86400
        },
        Schedule::Every { interval, count, .. } => {
            let base: i64 = match interval {
                ScheduleEvery::Year => 365 * 86400,
                ScheduleEvery::Month => 30 * 86400,
                ScheduleEvery::TwoWeeks => 14 * 86400,
                ScheduleEvery::Week => 7 * 86400,
                ScheduleEvery::Day => 86400,
                ScheduleEvery::Hour => 3600,
                ScheduleEvery::Minute => 60,
                ScheduleEvery::Second => 1,
            };
            assert(0 <= base <= 365 * 86400);
            assert(base * (*count as i64) <= 365 * 86400 * 255) by (nonlinear_arith)
                requires
                    0 <= base <= 365 * 86400,
                    0 <= *count <= 255,
            ;
            base * (*count as i64)
        },
    };
    let n: i128 = now.unix_nanos + (seconds as i128) * 1_000_000_000;
    if n < MIN_UNIX_NANOS || n > MAX_UNIX_NANOS {
        Err(io_error("Schedule date out of range"))
    } else {
        Ok(Timestamp { unix_nanos: n, offset_seconds: now.offset_seconds })
    }
}

/// A repetition schedule delivers `count` units after `now`, where a year
/// is 365 days, a month 30 days, two weeks 14 days, a week 7 days, a day 24
/// hours, an hour 60 minutes and a minute 60 seconds; past the
/// representable range it fails with "Schedule date out of range".
pub proof fn lemma_every_delivers_count_units(
    unit: ScheduleEvery,
    count: u8,
    allow_while_idle: bool,
    now: Timestamp,
)
    ensures
        ({
            let unit_seconds: int = match unit {
                ScheduleEvery::Year => 365int * 24 * 3600,
                ScheduleEvery::Month => 30int * 24 * 3600,
                ScheduleEvery::TwoWeeks => 14int * 24 * 3600,
                ScheduleEvery::Week => 7int * 24 * 3600,
                ScheduleEvery::Day => 24int * 3600,
                ScheduleEvery::Hour => 60int * 60,
                ScheduleEvery::Minute => 60int,
                ScheduleEvery::Second => 1int,
            };
            let t = now.unix_nanos + count * unit_seconds * 1_000_000_000;
            spec_delivery_time(Schedule::Every { interval: unit, count, allow_while_idle }, now) == if in_time_range(t) {
                Ok::<Timestamp, ErrorView>(Timestamp { unix_nanos: t as i128, offset_seconds: now.offset_seconds })
            } else {
                Err::<Timestamp, ErrorView>(ErrorView::Io("Schedule date out of range"@))
            }
        }),
{
    let us = every_seconds(unit);
    assert(count * us * 1_000_000_000 == us * count * 1_000_000_000) by (nonlinear_arith);
}

/// One more repetition delivers one unit later: the delay grows by the
/// delay of a single unit with each count.
pub proof fn lemma_every_next_count_one_unit_later(
    unit: ScheduleEvery,
    count: u8,
    allow_while_idle: bool,
    now: Timestamp,
)
    requires
        count < 255,
        spec_delivery_time(Schedule::Every { interval: unit, count, allow_while_idle }, now) is Ok,
        spec_delivery_time(
            Schedule::Every { interval: unit, count: (count + 1) as u8, allow_while_idle },
            now,
        ) is Ok,
        spec_delivery_time(Schedule::Every { interval: unit, count: 1, allow_while_idle }, now) is Ok,
    ensures
        spec_delivery_time(
            Schedule::Every { interval: unit, count: (count + 1) as u8, allow_while_idle },
            now,
        )->Ok_0.unix_nanos - spec_delivery_time(
            Schedule::Every { interval: unit, count, allow_while_idle },
            now,
        )->Ok_0.unix_nanos == spec_delivery_time(
            Schedule::Every { interval: unit, count: 1, allow_while_idle },
            now,
        )->Ok_0.unix_nanos - now.unix_nanos,
{
    lemma_every_delivers_count_units(unit, count, allow_while_idle, now);
    lemma_every_delivers_count_units(unit, (count + 1) as u8, allow_while_idle, now);
    lemma_every_delivers_count_units(unit, 1, allow_while_idle, now);
    let us = every_seconds(unit);
    assert((count + 1) * us * 1_000_000_000 - count * us * 1_000_000_000 == 1 * us
        * 1_000_000_000) by (nonlinear_arith);
}

/// The Windows `DateTime` at which a schedule delivers, seen at `now`.
pub open spec fn spec_schedule_to_datetime(s: Schedule, now: Timestamp) -> Result<
    WindowsDateTime,
    ErrorView,
> {
    match spec_delivery_time(s, now) {
        Ok(d) => spec_unix_to_windows(d.unix_nanos as int),
        Err(e) => Err(e),
    }
}

/// The current instant, in UTC.
pub fn current_time() -> (r: Timestamp)
    ensures
        in_time_range(r.unix_nanos as int),
        r.offset_seconds == 0,
{
    Timestamp { unix_nanos: now_unix_nanos(), offset_seconds: 0 }
}

/// The Windows `DateTime` at which `schedule` delivers, seen at `now`: a
/// fixed date does not depend on the clock; a relative schedule delivers
/// its delay after `now`.
pub fn schedule_to_datetime(schedule: &Schedule, now: Timestamp) -> (r: Result<
    WindowsDateTime,
    Error,
>)
    requires
        in_time_range(now.unix_nanos as int),
    ensures
        result_view(r) == spec_schedule_to_datetime(*schedule, now),
{
    let delivery = match delivery_time(schedule, now) {
        Ok(d) => d,
        Err(e) => {
            return Err(e);
        },
    };
    unix_to_windows_datetime(delivery)
}

// ---------------------------------------------------------------------------
// Tags
// ---------------------------------------------------------------------------
/// The id that a toast's tag stands for: the tag read as an `i32`, or 0.
pub open spec fn id_of_tag(tag: Seq<char>) -> i32 {
    match parse_i32_spec(tag) {
        Some(v) => v,
        None => 0,
    }
}

/// The tag under which a notification's toast is shown: its id in decimal.
pub fn notification_tag(id: i32) -> (r: String)
    ensures
        r@ == int_decimal(id as int),
{
    i32_to_decimal(id)
}

/// The id that a toast's tag stands for: the tag read as an `i32`, or 0
/// where it is not one.
pub fn id_from_tag(tag: &str) -> (r: i32)
    ensures
        r == id_of_tag(tag@),
{
    match parse_i32(tag) {
        Some(v) => v,
        None => 0,
    }
}

/// The tag of a notification's toast gives its id back.
pub proof fn lemma_tag_roundtrip(id: i32)
    ensures
        parse_i32_spec(int_decimal(id as int)) == Some(id),
        id_of_tag(int_decimal(id as int)) == id,
{
    lemma_decimal_roundtrip(id);
}

/// Whether a scheduled toast is one of those to cancel: its tag must read
/// as an `i32` that is among `ids`.
pub fn tag_is_cancelled(tag: &str, ids: &Vec<i32>) -> (r: bool)
    ensures
        r == (parse_i32_spec(tag@) matches Some(v) && ids@.contains(v)),
{
    match parse_i32(tag) {
        Some(v) => {
            let mut i: usize = 0;
            while i < ids.len()
                invariant
                    i <= ids.len(),
                    parse_i32_spec(tag@) == Some(v),
                    forall|j: int| 0 <= j < i ==> ids@[j] != v,
                decreases ids.len() - i,
            {
                if ids[i] == v {
                    assert(ids@[i as int] == v);
                    return true;
                }
                i = i + 1;
            }
            false
        },
        None => false,
    }
}

// ---------------------------------------------------------------------------
// Pending and active notifications
// ---------------------------------------------------------------------------
/// A scheduled toast as the notifier lists it.
#[derive(Debug)]
pub struct ScheduledToast {
    pub tag: String,
    /// The first line of its text, where it has one.
    pub title: Option<String>,
    /// The second line of its text, where it has one.
    pub body: Option<String>,
    /// Its delivery time, where the notifier gives one.
    pub delivery_time: Option<WindowsDateTime>,
}

/// The pending notification that a scheduled toast stands for, where its
/// delivery time converts to a date.
pub open spec fn pending_of(t: ScheduledToast) -> Option<(i32, Option<Seq<char>>, Option<Seq<char>>, Schedule)> {
    match t.delivery_time {
        Some(dt) => match spec_windows_to_unix(dt) {
            Ok(date) => Some(
                (
                    id_of_tag(t.tag@),
                    t.title.deep_view(),
                    t.body.deep_view(),
                    Schedule::At { date, repeating: false, allow_while_idle: false },
                ),
            ),
            Err(_) => None,
        },
        None => None,
    }
}

/// The view of a pending notification.
pub open spec fn pending_view(p: PendingNotification) -> (i32, Option<Seq<char>>, Option<Seq<char>>, Schedule) {
    (p.id, p.title.deep_view(), p.body.deep_view(), p.schedule)
}

/// The pending notification of one scheduled toast; none where the
/// delivery time is missing or does not convert.
pub fn pending_from_toast(toast: ScheduledToast) -> (r: Option<PendingNotification>)
    ensures
        match (r, pending_of(toast)) {
            (Some(p), Some(v)) => pending_view(p) == v,
            (None, None) => true,
            _ => false,
        },
        r matches Some(p) ==> p.id == id_of_tag(toast.tag@) && p.title.deep_view()
            == toast.title.deep_view() && p.body.deep_view() == toast.body.deep_view(),
{
    let ghost t0 = toast;
    match toast.delivery_time {
        Some(dt) => match windows_datetime_to_unix(dt) {
            Ok(date) => {
                let id = id_from_tag(toast.tag.as_str());
                Some(
                    PendingNotification {
                        id,
                        title: toast.title,
                        body: toast.body,
                        schedule: Schedule::At { date, repeating: false, allow_while_idle: false },
                    },
                )
            },
            Err(_) => None,
        },
        None => None,
    }
}

/// A notification scheduled at a representable date, whose toast carries
/// the tag and delivery time that `plan_toast` gives it, is listed as
/// pending under its own id, scheduled at that date in UTC to within one
/// tick (less than 100 ns early or late).
pub proof fn lemma_scheduled_toast_lists_back(id: i32, date: Timestamp, toast: ScheduledToast)
    requires
        in_time_range(date.unix_nanos as int),
        toast.tag@ == int_decimal(id as int),
        toast.delivery_time == Some(spec_unix_to_windows(date.unix_nanos as int)->Ok_0),
    ensures
        pending_of(toast) matches Some((pid, _, _, Schedule::At { date: back, repeating, .. })) && pid
            == id && !repeating && back.offset_seconds == 0 && date.unix_nanos - 100
            < back.unix_nanos < date.unix_nanos + 100,
{
    lemma_windows_datetime_roundtrip(date.unix_nanos as int);
    lemma_tag_roundtrip(id);
}

/// The pending notifications of the scheduled toasts, in order, without the
/// toasts whose delivery time is missing or does not convert.
pub open spec fn pending_list(s: Seq<ScheduledToast>) -> Seq<(i32, Option<Seq<char>>, Option<Seq<char>>, Schedule)>
    decreases s.len(),
{
    if s.len() == 0 {
        Seq::empty()
    } else {
        pending_list(s.drop_last()) + match pending_of(s.last()) {
            Some(v) => seq![v],
            None => Seq::empty(),
        }
    }
}

/// The pending notification `v` carries the scheduled toast `t`'s id (read
/// from its tag), its first text line as the title and its second as the
/// body, and `t` has a delivery time.
pub open spec fn carries_toast_text(
    v: (i32, Option<Seq<char>>, Option<Seq<char>>, Schedule),
    t: ScheduledToast,
) -> bool {
    &&& v.0 == id_of_tag(t.tag@)
    &&& v.1 == t.title.deep_view()
    &&& v.2 == t.body.deep_view()
    &&& t.delivery_time is Some
}

/// Some toast of `s` is the source of the pending notification `v`.
pub open spec fn has_source_toast(
    v: (i32, Option<Seq<char>>, Option<Seq<char>>, Schedule),
    s: Seq<ScheduledToast>,
) -> bool {
    exists|j: int| 0 <= j < s.len() && #[trigger] carries_toast_text(v, s[j])
}

/// Every listed pending notification comes from one of the scheduled
/// toasts and carries its id, title and body; no more are listed than
/// there are toasts.
pub proof fn lemma_pending_list_keeps_text(s: Seq<ScheduledToast>)
    ensures
        pending_list(s).len() <= s.len(),
        forall|k: int|
            0 <= k < pending_list(s).len() ==> #[trigger] has_source_toast(pending_list(s)[k], s),
    decreases s.len(),
{
    if s.len() > 0 {
        let init = s.drop_last();
        lemma_pending_list_keeps_text(init);
        let p = pending_list(s);
        let last: Seq<(i32, Option<Seq<char>>, Option<Seq<char>>, Schedule)> = match pending_of(
            s.last(),
        ) {
            Some(v) => seq![v],
            None => Seq::empty(),
        };
        assert(p == pending_list(init) + last);
        assert forall|k: int| 0 <= k < p.len() implies #[trigger] has_source_toast(p[k], s) by {
            if k < pending_list(init).len() {
                assert(p[k] == pending_list(init)[k]);
                assert(has_source_toast(pending_list(init)[k], init));
                let j = choose|j: int|
                    0 <= j < init.len() && #[trigger] carries_toast_text(pending_list(init)[k], init[j]);
                assert(s[j] == init[j]);
                assert(carries_toast_text(p[k], s[j]));
            } else {
                let j = s.len() - 1;
                assert(s[j] == s.last());
                assert(last.len() == 1 && p[k] == last[0]);
                assert(carries_toast_text(p[k], s[j]));
            }
        }
    } else {
        assert(pending_list(s) =~= Seq::<(i32, Option<Seq<char>>, Option<Seq<char>>, Schedule)>::empty());
    }
}

/// The pending notifications of all scheduled toasts.
pub fn pending_from_toasts(toasts: Vec<ScheduledToast>) -> (r: Vec<PendingNotification>)
    ensures
        r@.map_values(|p: PendingNotification| pending_view(p)) == pending_list(toasts@),
        r@.len() <= toasts@.len(),
        forall|k: int|
            0 <= k < r@.len() ==> #[trigger] has_source_toast(pending_view(r@[k]), toasts@),
{
    let ghost all = toasts@;
    let mut toasts = toasts;
    let mut r: Vec<PendingNotification> = Vec::new();
    let mut k: usize = 0;
    let n = toasts.len();
    while toasts.len() > 0
        invariant
            n == all.len(),
            toasts.len() + k == n,
            toasts@ == all.skip(k as int),
            r@.map_values(|p: PendingNotification| pending_view(p)) == pending_list(
                all.take(k as int),
            ),
        decreases toasts.len(),
    {
        let t = toasts.remove(0);
        assert(t == all[k as int]);
        assert(toasts@ =~= all.skip(k + 1));
        let ghost before = r@;
        match pending_from_toast(t) {
            Some(p) => {
                r.push(p);
            },
            None => {},
        }
        proof {
            let tk = all.take(k + 1);
            assert(tk.drop_last() =~= all.take(k as int));
            assert(tk.last() == all[k as int]);
            assert(r@.map_values(|p: PendingNotification| pending_view(p)) =~= pending_list(tk));
        }
        k = k + 1;
    }
    assert(all.take(n as int) =~= all);
    proof {
        lemma_pending_list_keeps_text(all);
        assert forall|k: int| 0 <= k < r@.len() implies #[trigger] has_source_toast(
            pending_view(r@[k]),
            all,
        ) by {
            assert(r@.map_values(|p: PendingNotification| pending_view(p))[k] == pending_view(r@[k]));
        }
    }
    r
}

/// The active notification of a toast in the history: the id is read from
/// the tag, which is kept; nothing else is known of it.
pub fn active_from_toast(
    tag: String,
    group: Option<String>,
    title: Option<String>,
    body: Option<String>,
) -> (r: ActiveNotification)
    ensures
        r.id == id_of_tag(tag@),
        r.tag.deep_view() == Some(tag@),
        r.group.deep_view() == group.deep_view(),
        r.title.deep_view() == title.deep_view(),
        r.body.deep_view() == body.deep_view(),
        !r.group_summary,
        r.data@.len() == 0,
        r.extra@.len() == 0,
        r.attachments@.len() == 0,
        r.action_type_id is None,
        r.schedule is None,
        r.sound is None,
        r.source is None,
        r.when is None,
        r.wf(),
{
    let id = id_from_tag(tag.as_str());
    ActiveNotification {
        id,
        tag: Some(tag),
        title,
        body,
        group,
        group_summary: false,
        data: Vec::new(),
        extra: Vec::new(),
        attachments: Vec::new(),
        action_type_id: None,
        schedule: None,
        sound: None,
        source: None,
        when: None,
    }
}

/// A toast in the notification history, as the notifier lists it.
#[derive(Debug)]
pub struct HistoryToast {
    pub tag: String,
    pub group: Option<String>,
    /// The first line of its text, where it has one.
    pub title: Option<String>,
    /// The second line of its text, where it has one.
    pub body: Option<String>,
}

/// The active notification that a toast in the history stands for:
/// its id, tag, group, title and body.
pub open spec fn active_of(t: HistoryToast) -> (i32, Option<Seq<char>>, Option<Seq<char>>, Option<Seq<char>>, Option<Seq<char>>) {
    (id_of_tag(t.tag@), Some(t.tag@), t.group.deep_view(), t.title.deep_view(), t.body.deep_view())
}

/// The id, tag, group, title and body of an active notification that
/// carries nothing else.
pub open spec fn active_view(a: ActiveNotification) -> Option<(i32, Option<Seq<char>>, Option<Seq<char>>, Option<Seq<char>>, Option<Seq<char>>)> {
    if a.wf() && !a.group_summary && a.data@.len() == 0 && a.extra@.len() == 0
        && a.attachments@.len() == 0 && a.action_type_id is None && a.schedule is None
        && a.sound is None && a.source is None && a.when is None {
        Some((a.id, a.tag.deep_view(), a.group.deep_view(), a.title.deep_view(), a.body.deep_view()))
    } else {
        None
    }
}

/// An active notification read from a history toast carries the toast's
/// tag, the id the tag stands for, and the toast's group, title and body,
/// whatever they are.
pub proof fn lemma_active_keeps_toast_text(a: ActiveNotification, t: HistoryToast)
    requires
        active_view(a) == Some(active_of(t)),
    ensures
        a.id == id_of_tag(t.tag@),
        a.tag.deep_view() == Some(t.tag@),
        a.group.deep_view() == t.group.deep_view(),
        a.title.deep_view() == t.title.deep_view(),
        a.body.deep_view() == t.body.deep_view(),
{
}

/// The active notifications of the toasts in the history, one for each, in
/// the history's order.
pub fn active_from_toasts(toasts: Vec<HistoryToast>) -> (r: Vec<ActiveNotification>)
    ensures
        r@.len() == toasts@.len(),
        forall|i: int|
            0 <= i < r@.len() ==> #[trigger] active_view(r@[i]) == Some(active_of(toasts@[i])),
        forall|i: int|
            0 <= i < r@.len() ==> (#[trigger] r@[i]).id == id_of_tag(toasts@[i].tag@)
                && r@[i].tag.deep_view() == Some(toasts@[i].tag@) && r@[i].group.deep_view()
                == toasts@[i].group.deep_view() && r@[i].title.deep_view()
                == toasts@[i].title.deep_view() && r@[i].body.deep_view()
                == toasts@[i].body.deep_view(),
{
    let ghost all = toasts@;
    let mut toasts = toasts;
    let mut r: Vec<ActiveNotification> = Vec::new();
    let mut k: usize = 0;
    let n = toasts.len();
    while toasts.len() > 0
        invariant
            n == all.len(),
            toasts.len() + k == n,
            toasts@ == all.skip(k as int),
            r@.len() == k,
            forall|i: int| 0 <= i < k ==> #[trigger] active_view(r@[i]) == Some(active_of(all[i])),
            forall|i: int|
                0 <= i < k ==> (#[trigger] r@[i]).id == id_of_tag(all[i].tag@) && r@[i].tag.deep_view()
                    == Some(all[i].tag@) && r@[i].group.deep_view() == all[i].group.deep_view()
                    && r@[i].title.deep_view() == all[i].title.deep_view()
                    && r@[i].body.deep_view() == all[i].body.deep_view(),
        decreases toasts.len(),
    {
        let t = toasts.remove(0);
        assert(t == all[k as int]);
        assert(toasts@ =~= all.skip(k + 1));
        let HistoryToast { tag, group, title, body } = t;
        let a = active_from_toast(tag, group, title, body);
        r.push(a);
        k = k + 1;
    }
    r
}

// ---------------------------------------------------------------------------
// Plugin state
// ---------------------------------------------------------------------------
/// The action types of a list registered one after the other on top of `m`.
pub open spec fn register_all(
    m: Map<Seq<char>, ActionTypeView>,
    s: Seq<ActionTypeView>,
) -> Map<Seq<char>, ActionTypeView>
    decreases s.len(),
{
    if s.len() == 0 {
        m
    } else {
        register_all(m, s.drop_last()).insert(s.last().id, s.last())
    }
}

/// The state of the Windows plugin: the application's id, the registered
/// action types and whether a click listener is registered.
#[derive(Debug)]
pub struct WindowsPlugin {
    app_id: String,
    action_types: ActionTypes,
    click_listener_active: bool,
}

impl WindowsPlugin {
    /// The application's id.
    pub closed spec fn spec_app_id(&self) -> Seq<char> {
        self.app_id@
    }

    /// The registered action types, by id.
    pub closed spec fn spec_action_types(&self) -> Map<Seq<char>, ActionTypeView> {
        self.action_types@
    }

    /// Whether a click listener is registered.
    pub closed spec fn spec_click_listener_active(&self) -> bool {
        self.click_listener_active
    }

    /// A plugin for the application `app_id`, with no action type and no
    /// click listener.
    pub fn new(app_id: String) -> (r: Self)
        ensures
            r.spec_app_id() == app_id@,
            r.spec_action_types() == Map::<Seq<char>, ActionTypeView>::empty(),
            !r.spec_click_listener_active(),
    {
        WindowsPlugin { app_id, action_types: ActionTypes::new(), click_listener_active: false }
    }

    pub fn app_id(&self) -> (r: &str)
        ensures
            r@ == self.spec_app_id(),
    {
        self.app_id.as_str()
    }

    /// A copy of the registered action types.
    pub fn action_types(&self) -> (r: ActionTypes)
        ensures
            r@ == self.spec_action_types(),
    {
        self.action_types.clone()
    }

    /// Registers each action type under its id, in order: a later type
    /// replaces an earlier one with the same id.
    pub fn register_action_types(&mut self, types: Vec<ActionType>)
        ensures
            final(self).spec_app_id() == old(self).spec_app_id(),
            final(self).spec_click_listener_active() == old(self).spec_click_listener_active(),
            final(self).spec_action_types() == register_all(
                old(self).spec_action_types(),
                types_view(types@),
            ),
    {
        let ghost all = types_view(types@);
        let ghost start = self.action_types@;
        let mut types = types;
        let mut k: usize = 0;
        let n = types.len();
        while types.len() > 0
            invariant
                n == all.len(),
                types.len() + k == n,
                types_view(types@) == all.skip(k as int),
                self.action_types@ == register_all(start, all.take(k as int)),
                self.app_id == old(self).app_id,
                self.click_listener_active == old(self).click_listener_active,
            decreases types.len(),
        {
            let ghost before = types@;
            let t = types.remove(0);
            assert(types_view(before)[0] == before[0]@);
            assert(all.skip(k as int)[0] == all[k as int]);
            assert(t@ == all[k as int]);
            assert(types_view(types@) =~= all.skip(k + 1)) by {
                assert(types@ =~= before.subrange(1, before.len() as int));
                assert forall|j: int| 0 <= j < types@.len() implies types_view(types@)[j] == all.skip(k + 1)[j] by {
                    assert(types_view(types@)[j] == types@[j]@);
                    assert(types@[j] == before[j + 1]);
                    assert(types_view(before)[j + 1] == before[j + 1]@);
                    assert(all.skip(k as int)[j + 1] == all.skip(k + 1)[j]);
                }
            }
            self.action_types.insert(t);
            proof {
                let tk = all.take(k + 1);
                assert(tk.drop_last() =~= all.take(k as int));
                assert(tk.last() == all[k as int]);
            }
            k = k + 1;
        }
        assert(all.take(n as int) =~= all);
    }

    pub fn is_click_listener_active(&self) -> (r: bool)
        ensures
            r == self.spec_click_listener_active(),
    {
        self.click_listener_active
    }

    pub fn set_click_listener(&mut self, active: bool)
        ensures
            final(self).spec_click_listener_active() == active,
            final(self).spec_app_id() == old(self).spec_app_id(),
            final(self).spec_action_types() == old(self).spec_action_types(),
            sets_click_listener(*old(self), active, *final(self)),
    {
        self.click_listener_active = active;
    }
}

/// One call of `set_click_listener(active)` takes the plugin `p` to `q`.
pub open spec fn sets_click_listener(p: WindowsPlugin, active: bool, q: WindowsPlugin) -> bool {
    &&& q.spec_click_listener_active() == active
    &&& q.spec_app_id() == p.spec_app_id()
    &&& q.spec_action_types() == p.spec_action_types()
}

/// A plugin that starts with no click listener, as `new` makes it, and then
/// has the listener set to each of `settings` in turn reports the last
/// setting, or no listener where there was none; its application id and
/// action types stay as they were.
pub proof fn lemma_click_listener_follows_last_setting(ps: Seq<WindowsPlugin>, settings: Seq<bool>)
    requires
        ps.len() == settings.len() + 1,
        !ps[0].spec_click_listener_active(),
        forall|i: int|
            0 <= i < settings.len() ==> #[trigger] sets_click_listener(ps[i], settings[i], ps[i + 1]),
    ensures
        ps.last().spec_click_listener_active() == (if settings.len() == 0 {
            false
        } else {
            settings.last()
        }),
        ps.last().spec_app_id() == ps[0].spec_app_id(),
        ps.last().spec_action_types() == ps[0].spec_action_types(),
    decreases settings.len(),
{
    if settings.len() > 0 {
        let k = settings.len() - 1;
        assert(sets_click_listener(ps[k], settings[k], ps[k + 1]));
        lemma_click_listener_follows_last_setting(ps.drop_last(), settings.drop_last());
    }
}

// ---------------------------------------------------------------------------
// Showing a toast
// ---------------------------------------------------------------------------
/// How a toast is handed to the notifier.
#[derive(Debug)]
pub enum ToastDelivery {
    /// Added to the schedule, to show at the given time.
    Scheduled(WindowsDateTime),
    /// Shown now; with the notification to report when the user activates
    /// it, where a click listener is registered.
    Immediate(Option<ActiveNotification>),
}

/// Everything the notifier needs to show a notification.
#[derive(Debug)]
pub struct ToastPlan {
    pub content: XmlElement,
    pub tag: String,
    pub group: Option<String>,
    pub delivery: ToastDelivery,
}

/// The notification reported when the user activates a toast shown now:
/// the data's fields, tagged with the id, and no data payload.
pub open spec fn is_click_record(r: ActiveNotification, d: NotificationData) -> bool {
    &&& r.id == d.id
    &&& r.tag.deep_view() == Some(int_decimal(d.id as int))
    &&& r.title.deep_view() == d.title.deep_view()
    &&& r.body.deep_view() == d.body.deep_view()
    &&& r.group.deep_view() == d.group.deep_view()
    &&& r.group_summary == d.group_summary
    &&& r.data@.len() == 0
    &&& r.extra.deep_view() == d.extra.deep_view()
    &&& attachments_view(r.attachments@) == attachments_view(d.attachments@)
    &&& r.action_type_id.deep_view() == d.action_type_id.deep_view()
    &&& r.schedule == d.schedule
    &&& r.sound.deep_view() == d.sound.deep_view()
    &&& r.source is None
    &&& r.when is None
}

/// The notification reported on activation carries the data's id, its
/// tag (the id in decimal), title, body, group, group summary flag, extra
/// data, action type, schedule and sound, with an empty data payload.
pub proof fn lemma_click_record_carries_data(r: ActiveNotification, d: NotificationData)
    requires
        is_click_record(r, d),
    ensures
        r.id == d.id,
        r.tag.deep_view() == Some(int_decimal(d.id as int)),
        r.title.deep_view() == d.title.deep_view(),
        r.body.deep_view() == d.body.deep_view(),
        r.group.deep_view() == d.group.deep_view(),
        r.group_summary == d.group_summary,
        r.extra.deep_view() == d.extra.deep_view(),
        r.action_type_id.deep_view() == d.action_type_id.deep_view(),
        r.schedule == d.schedule,
        r.sound.deep_view() == d.sound.deep_view(),
        r.data@.len() == 0,
{
}

/// The notification to report when a toast shown now is activated.
fn click_record(data: &NotificationData) -> (r: ActiveNotification)
    ensures
        is_click_record(r, *data),
{
    ActiveNotification {
        id: data.id,
        tag: Some(notification_tag(data.id)),
        title: clone_opt(&data.title),
        body: clone_opt(&data.body),
        group: clone_opt(&data.group),
        group_summary: data.group_summary,
        data: Vec::new(),
        extra: clone_pairs(&data.extra),
        attachments: clone_attachments(&data.attachments),
        action_type_id: clone_opt(&data.action_type_id),
        schedule: data.schedule,
        sound: clone_opt(&data.sound),
        source: None,
        when: None,
    }
}

/// How to show a notification with the plugin in its current state, seen
/// at `now`: the toast document, the tag (the id in decimal), the group,
/// and either the time to schedule it at or, to show it now, the
/// notification to report on activation when a click listener is
/// registered. It fails only where the schedule's delivery time is out of
/// range.
pub fn plan_toast(data: &NotificationData, plugin: &WindowsPlugin, now: Timestamp) -> (r: Result<
    ToastPlan,
    Error,
>)
    requires
        in_time_range(now.unix_nanos as int),
    ensures
        r matches Ok(p) ==> {
            &&& p.content.node() == toast_node(*data, plugin.spec_action_types())
            &&& p.tag@ == int_decimal(data.id as int)
            &&& p.group.deep_view() == data.group.deep_view()
            &&& match data.schedule {
                Some(s) => p.delivery matches ToastDelivery::Scheduled(dt) && spec_schedule_to_datetime(
                    s,
                    now,
                ) == Ok::<WindowsDateTime, ErrorView>(dt),
                None => p.delivery matches ToastDelivery::Immediate(record) && (
                plugin.spec_click_listener_active() <==> record is Some) && (record matches Some(
                    rec,
                ) ==> is_click_record(rec, *data)) && (record matches Some(rec) ==> (data.wf()
                    ==> rec.wf())) && (record matches Some(rec) ==> rec.id == data.id
                    && rec.title.deep_view() == data.title.deep_view() && rec.body.deep_view()
                    == data.body.deep_view() && rec.group.deep_view() == data.group.deep_view()),
            }
        },
        data.schedule is None ==> r is Ok,
        data.schedule matches Some(s) ==> (r is Ok <==> spec_schedule_to_datetime(s, now) is Ok),
        data.schedule matches Some(s) ==> (r matches Err(e) ==> Err::<WindowsDateTime, ErrorView>(
            e@,
        ) == spec_schedule_to_datetime(s, now)),
{
    let content = build_toast_xml(data, &plugin.action_types);
    let tag = notification_tag(data.id);
    let group = clone_opt(&data.group);
    let delivery = match &data.schedule {
        Some(schedule) => match schedule_to_datetime(schedule, now) {
            Ok(dt) => ToastDelivery::Scheduled(dt),
            Err(e) => {
                return Err(e);
            },
        },
        None => {
            if plugin.click_listener_active {
                ToastDelivery::Immediate(Some(click_record(data)))
            } else {
                ToastDelivery::Immediate(None)
            }
        },
    };
    Ok(ToastPlan { content, tag, group, delivery })
}

/// What a toast activation reports: the action id (`tap` for the toast
/// itself), whether a typed reply is to be read, and whether the toast
/// itself was clicked.
#[derive(Debug)]
pub struct Activation {
    pub action_id: String,
    pub reads_input: bool,
    pub clicked: bool,
}

/// What an activation with the given arguments reports: the toast body
/// carries no arguments and reports a click under the action id `tap`; an
/// action button carries its id and may carry a typed reply.
pub fn activation(arguments: String) -> (r: Activation)
    ensures
        arguments@.len() == 0 ==> r.action_id@ == "tap"@ && !r.reads_input && r.clicked,
        arguments@.len() != 0 ==> r.action_id@ == arguments@ && r.reads_input && !r.clicked,
{
    if arguments.as_str().is_empty() {
        Activation { action_id: String::from_str("tap"), reads_input: false, clicked: true }
    } else {
        Activation { action_id: arguments, reads_input: true, clicked: false }
    }
}

// ---------------------------------------------------------------------------
// Errors of the Windows runtime
// ---------------------------------------------------------------------------
/// The upper-case hexadecimal digit of `d` (`0 <= d < 16`).
pub open spec fn hex_digit(d: int) -> char {
    if d < 10 {
        (48 + d) as char
    } else {
        (55 + d) as char
    }
}

/// The eight hexadecimal digits of a 32-bit value, most significant first.
pub open spec fn hex8(u: u32) -> Seq<char> {
    Seq::new(8, |k: int| hex_digit(((u >> ((28 - 4 * k) as u32)) & 15u32) as int))
}

/// How an error code of the Windows runtime is written: `0x` and the eight
/// upper-case hexadecimal digits of its bits.
pub open spec fn hresult_text(code: i32) -> Seq<char> {
    seq!['0', 'x'] + hex8(code as u32)
}

/// The plugin error for a failed call into the Windows runtime, with its
/// error code and message.
pub fn windows_runtime_error(code: i32, message: String) -> (e: Error)
    ensures
        e@ == (ErrorView::InvokeRejected { code: Some(hresult_text(code)), message: Some(message@) }),
{
    let bits: u32 = code as u32;
    let mut text = String::from_str("0x");
    proof {
        reveal_strlit("0x");
    }
    let mut k: u32 = 0;
    while k < 8
        invariant
            k <= 8,
            bits == code as u32,
            text@ == seq!['0', 'x'] + hex8(bits).take(k as int),
        decreases 8 - k,
    {
        let shift: u32 = 28 - 4 * k;
        let nibble: u32 = (bits >> shift) & 15u32;
        assert(nibble < 16) by (bit_vector)
            requires
                nibble == (bits >> shift) & 15u32,
        ;
        let c = if nibble < 10 {
            (48u8 + nibble as u8) as char
        } else {
            (55u8 + nibble as u8) as char
        };
        assert(c == hex_digit(nibble as int));
        push_char(&mut text, c);
        assert(hex8(bits).take(k + 1) =~= hex8(bits).take(k as int).push(c));
        k = k + 1;
    }
    assert(hex8(bits).take(8) =~= hex8(bits));
    Error::PluginInvoke(
        PluginInvokeError::InvokeRejected(ErrorResponse { code: Some(text), message: Some(message) }),
    )
}

// ---------------------------------------------------------------------------
// Permission
// ---------------------------------------------------------------------------
/// The notification setting that Windows reports for the application.
#[derive(Debug, Clone, Copy, PartialEq, Eq, Structural)]
pub enum ToastSetting {
    Enabled,
    DisabledForApplication,
    DisabledForUser,
    DisabledByGroupPolicy,
    DisabledByManifest,
    /// A setting this plugin does not know.
    Unknown,
}

/// The permission state that a notification setting means: enabled is
/// granted, every kind of disabled is denied, anything else asks.
pub fn permission_from_setting(setting: ToastSetting) -> (r: PermissionState)
    ensures
        r == match setting {
            ToastSetting::Enabled => PermissionState::Granted,
            ToastSetting::Unknown => PermissionState::Prompt,
            _ => PermissionState::Denied,
        },
{
    match setting {
        ToastSetting::Enabled => PermissionState::Granted,
        ToastSetting::DisabledForApplication | ToastSetting::DisabledForUser
        | ToastSetting::DisabledByGroupPolicy | ToastSetting::DisabledByManifest => {
            PermissionState::Denied
        },
        ToastSetting::Unknown => PermissionState::Prompt,
    }
}

// ---------------------------------------------------------------------------
// Laws of the registry
// ---------------------------------------------------------------------------
/// The last action type of the list with the id `k`.
pub open spec fn last_with_id(s: Seq<ActionTypeView>, k: Seq<char>) -> Option<ActionTypeView>
    decreases s.len(),
{
    if s.len() == 0 {
        None
    } else if s.last().id == k {
        Some(s.last())
    } else {
        last_with_id(s.drop_last(), k)
    }
}

/// Registering a list of action types leaves, under each id, the last type
/// of the list with that id; an id that no type of the list has keeps what
/// was registered under it before, or stays unregistered.
pub proof fn lemma_register_later_wins(
    m: Map<Seq<char>, ActionTypeView>,
    s: Seq<ActionTypeView>,
    k: Seq<char>,
)
    ensures
        match last_with_id(s, k) {
            Some(t) => register_all(m, s).contains_key(k) && register_all(m, s)[k] == t,
            None => register_all(m, s).contains_key(k) == m.contains_key(k) && (m.contains_key(k)
                ==> register_all(m, s)[k] == m[k]),
        },
    decreases s.len(),
{
    if s.len() > 0 {
        lemma_register_later_wins(m, s.drop_last(), k);
    }
}

} // verus!
