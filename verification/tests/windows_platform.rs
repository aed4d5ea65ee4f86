use notifications::models::PermissionState;
use notifications::windows::{permission_from_setting, ToastSetting};
use notifications::actions::{Action, ActionType, ActionTypes};
use notifications::error::{Error, PluginInvokeError};
use notifications::models::{
    Attachment, NotificationData, Schedule, ScheduleEvery, ScheduleInterval, Timestamp, Url,
};
use notifications::windows::{
    activation, active_from_toast, active_from_toasts, current_time, delivery_time, id_from_tag, notification_tag,
    pending_from_toasts, plan_toast, schedule_to_datetime, tag_is_cancelled,
    unix_to_windows_datetime, windows_datetime_to_unix, windows_runtime_error, HistoryToast,
    ScheduledToast,
    ToastDelivery, WindowsDateTime, WindowsPlugin, MAX_UNIX_NANOS, MIN_UNIX_NANOS,
    WINDOWS_EPOCH_OFFSET_TICKS,
};

fn utc(date: time::Date, hour: u8, minute: u8, second: u8) -> Timestamp {
    let dt = date.with_hms(hour, minute, second).expect("time").assume_utc();
    Timestamp { unix_nanos: dt.unix_timestamp_nanos(), offset_seconds: 0 }
}

#[test]
fn test_windows_epoch_offset() {
    let expected_days = 134_774i128;
    let ticks_per_day = 24 * 60 * 60 * 10_000_000i128;
    assert_eq!(WINDOWS_EPOCH_OFFSET_TICKS, expected_days * ticks_per_day);
}

#[test]
fn test_unix_to_windows_datetime_epoch() {
    let result = unix_to_windows_datetime(Timestamp { unix_nanos: 0, offset_seconds: 0 })
        .expect("Failed to convert Unix epoch");
    assert_eq!(result.universal_time as i128, WINDOWS_EPOCH_OFFSET_TICKS);
}

#[test]
fn test_unix_to_windows_datetime_known_date() {
    let date = utc(time::Date::from_calendar_date(2000, time::Month::January, 1).expect("date"), 0, 0, 0);
    let result = unix_to_windows_datetime(date).expect("Failed to convert known date");

    let unix_nanos = 946_684_800i128 * 1_000_000_000;
    let expected = (unix_nanos / 100) + WINDOWS_EPOCH_OFFSET_TICKS;
    assert_eq!(result.universal_time as i128, expected);
}

#[test]
fn test_windows_datetime_roundtrip() {
    let start = utc(time::Date::from_calendar_date(2024, time::Month::June, 15).expect("date"), 14, 30, 45);
    let windows_dt =
        unix_to_windows_datetime(start).expect("Failed to convert to Windows datetime");
    let roundtrip = windows_datetime_to_unix(windows_dt).expect("Failed to convert back to Unix");

    let diff = (start.unix_nanos - roundtrip.unix_nanos).abs();
    assert!(diff < 100, "Roundtrip diff: {}ns", diff);
}

#[test]
fn windows_roundtrip_truncates_toward_zero() {
    for n in [123_456_789_i128, -123_456_789, -1, 1, 99, -99, MIN_UNIX_NANOS, MAX_UNIX_NANOS] {
        let dt = unix_to_windows_datetime(Timestamp { unix_nanos: n, offset_seconds: 0 }).expect("to windows");
        let back = windows_datetime_to_unix(dt).expect("back");
        assert_eq!(back.unix_nanos, (n / 100) * 100);
        assert_eq!(back.offset_seconds, 0);
        assert!((back.unix_nanos - n).abs() < 100);
    }
}

#[test]
fn time_range_bounds_match_the_time_crate() {
    assert!(time::OffsetDateTime::from_unix_timestamp_nanos(MIN_UNIX_NANOS).is_ok());
    assert!(time::OffsetDateTime::from_unix_timestamp_nanos(MIN_UNIX_NANOS - 1).is_err());
    assert!(time::OffsetDateTime::from_unix_timestamp_nanos(MAX_UNIX_NANOS).is_ok());
    assert!(time::OffsetDateTime::from_unix_timestamp_nanos(MAX_UNIX_NANOS + 1).is_err());
}

#[test]
fn windows_datetime_out_of_range() {
    match windows_datetime_to_unix(WindowsDateTime { universal_time: i64::MAX }) {
        Err(Error::Io(m)) => assert_eq!(m, "DateTime out of range"),
        other => panic!("unexpected {:?}", other),
    }
    match unix_to_windows_datetime(Timestamp { unix_nanos: i128::MAX, offset_seconds: 0 }) {
        Err(Error::Io(m)) => assert_eq!(m, "Schedule date out of range"),
        other => panic!("unexpected {:?}", other),
    }
}

#[test]
fn test_schedule_at_conversion() {
    let target = utc(time::Date::from_calendar_date(2025, time::Month::December, 25).expect("date"), 10, 0, 0);
    let schedule = Schedule::At { date: target, repeating: false, allow_while_idle: false };

    let result = schedule_to_datetime(&schedule, current_time()).expect("Failed to convert schedule");
    let back = windows_datetime_to_unix(result).expect("Failed to convert back");
    assert!((target.unix_nanos - back.unix_nanos).abs() < 100);
}

#[test]
fn test_schedule_interval() {
    let schedule = Schedule::Interval {
        interval: ScheduleInterval {
            year: None,
            month: None,
            day: Some(1),
            weekday: None,
            hour: Some(2),
            minute: Some(30),
            second: Some(45),
        },
        allow_while_idle: false,
    };

    let before = current_time();
    let result = schedule_to_datetime(&schedule, before).expect("Failed to convert interval schedule");
    let converted = windows_datetime_to_unix(result).expect("Failed to convert back");

    let expected = 86400 + 7200 + 1800 + 45; // 1d + 2h + 30m + 45s
    let actual = ((converted.unix_nanos - before.unix_nanos) / 1_000_000_000) as i64;
    assert!((actual - expected).abs() <= 2);
}

#[test]
fn test_schedule_every_variants() {
    let cases = [
        (ScheduleEvery::Second, 1, 1i64),
        (ScheduleEvery::Minute, 1, 60),
        (ScheduleEvery::Hour, 1, 3600),
        (ScheduleEvery::Day, 1, 86400),
        (ScheduleEvery::Week, 1, 7 * 86400),
        (ScheduleEvery::TwoWeeks, 1, 14 * 86400),
        (ScheduleEvery::Month, 1, 30 * 86400),
        (ScheduleEvery::Year, 1, 365 * 86400),
    ];

    for (interval, count, expected) in cases {
        let schedule = Schedule::Every { interval, count, allow_while_idle: false };

        let before = current_time();
        let result = schedule_to_datetime(&schedule, before)
            .unwrap_or_else(|e| panic!("Failed to convert {:?}: {:?}", interval, e));
        let converted = windows_datetime_to_unix(result)
            .unwrap_or_else(|e| panic!("Failed to convert back {:?}: {:?}", interval, e));
        let actual = ((converted.unix_nanos - before.unix_nanos) / 1_000_000_000) as i64;
        assert!((actual - expected).abs() <= 2, "{:?}: {} vs {}", interval, actual, expected);
    }
}

#[test]
fn delivery_time_exact_values() {
    let now = Timestamp { unix_nanos: 1_000_000_000_000_000_000, offset_seconds: 3600 };
    let every = Schedule::Every { interval: ScheduleEvery::Week, count: 3, allow_while_idle: true };
    let d = delivery_time(&every, now).expect("delivery");
    assert_eq!(d.unix_nanos, now.unix_nanos + 3 * 7 * 86400 * 1_000_000_000);
    assert_eq!(d.offset_seconds, 3600);
    let at = Timestamp { unix_nanos: 5, offset_seconds: -7200 };
    let d = delivery_time(&Schedule::At { date: at, repeating: true, allow_while_idle: false }, now).expect("at");
    assert_eq!(d, at);
    let late = Timestamp { unix_nanos: MAX_UNIX_NANOS, offset_seconds: 0 };
    let every = Schedule::Every { interval: ScheduleEvery::Second, count: 1, allow_while_idle: false };
    match delivery_time(&every, late) {
        Err(Error::Io(m)) => assert_eq!(m, "Schedule date out of range"),
        other => panic!("unexpected {:?}", other),
    }
    let interval = Schedule::Interval {
        interval: ScheduleInterval { year: Some(1), month: Some(2), weekday: Some(3), ..ScheduleInterval::default() },
        allow_while_idle: false,
    };
    assert_eq!(delivery_time(&interval, now).expect("interval").unix_nanos, now.unix_nanos);
}

#[test]
fn tags_carry_ids() {
    for id in [0, 1, -1, 42, i32::MAX, i32::MIN, 1_000_000] {
        let tag = notification_tag(id);
        assert_eq!(tag, id.to_string());
        assert_eq!(id_from_tag(&tag), id);
    }
    assert_eq!(id_from_tag("+17"), 17);
    assert_eq!(id_from_tag("-0"), 0);
    assert_eq!(id_from_tag("abc"), 0);
    assert_eq!(id_from_tag(""), 0);
    assert_eq!(id_from_tag("2147483648"), 0);
    assert_eq!(id_from_tag("-2147483648"), i32::MIN);
    assert_eq!(id_from_tag(" 5"), 0);
}

#[test]
fn cancel_selects_parsed_tags() {
    let ids = vec![3, 7];
    assert!(tag_is_cancelled("7", &ids));
    assert!(tag_is_cancelled("+3", &ids));
    assert!(!tag_is_cancelled("4", &ids));
    assert!(!tag_is_cancelled("x", &ids));
    assert!(!tag_is_cancelled("0", &vec![]));
}

#[test]
fn pending_list_skips_unconvertible_times() {
    let toasts = vec![
        ScheduledToast {
            tag: "5".to_string(),
            title: Some("A".to_string()),
            body: None,
            delivery_time: Some(WindowsDateTime { universal_time: WINDOWS_EPOCH_OFFSET_TICKS as i64 }),
        },
        ScheduledToast { tag: "6".to_string(), title: None, body: None, delivery_time: None },
        ScheduledToast {
            tag: "oops".to_string(),
            title: None,
            body: Some("B".to_string()),
            delivery_time: Some(WindowsDateTime { universal_time: WINDOWS_EPOCH_OFFSET_TICKS as i64 + 10 }),
        },
        ScheduledToast {
            tag: "8".to_string(),
            title: None,
            body: None,
            delivery_time: Some(WindowsDateTime { universal_time: i64::MAX }),
        },
    ];
    let pending = pending_from_toasts(toasts);
    assert_eq!(pending.len(), 2);
    assert_eq!(pending[0].id(), 5);
    assert_eq!(pending[0].title(), Some("A"));
    assert_eq!(
        pending[0].schedule(),
        &Schedule::At { date: Timestamp { unix_nanos: 0, offset_seconds: 0 }, repeating: false, allow_while_idle: false }
    );
    assert_eq!(pending[1].id(), 0);
    assert_eq!(pending[1].body(), Some("B"));
    assert_eq!(
        pending[1].schedule(),
        &Schedule::At { date: Timestamp { unix_nanos: 1000, offset_seconds: 0 }, repeating: false, allow_while_idle: false }
    );
}

#[test]
fn active_toast_record() {
    let a = active_from_toast("12".to_string(), Some("g".to_string()), Some("T".to_string()), None);
    assert_eq!(a.id(), 12);
    assert_eq!(a.tag(), Some("12"));
    assert_eq!(a.group(), Some("g"));
    assert_eq!(a.title(), Some("T"));
    assert!(a.body().is_none());
    assert!(!a.group_summary());
}

#[test]
fn active_history_keeps_order() {
    let toasts = vec![
        HistoryToast { tag: "3".to_string(), group: None, title: Some("A".to_string()), body: Some("a".to_string()) },
        HistoryToast { tag: "x".to_string(), group: Some("g".to_string()), title: None, body: None },
    ];
    let active = active_from_toasts(toasts);
    assert_eq!(active.len(), 2);
    assert_eq!(active[0].id(), 3);
    assert_eq!(active[0].tag(), Some("3"));
    assert_eq!(active[0].title(), Some("A"));
    assert_eq!(active[0].body(), Some("a"));
    assert!(active[0].group().is_none());
    assert_eq!(active[1].id(), 0);
    assert_eq!(active[1].tag(), Some("x"));
    assert_eq!(active[1].group(), Some("g"));
    assert!(active[1].data().is_empty() && active[1].extra().is_empty());
    assert!(active_from_toasts(vec![]).is_empty());
}

#[test]
fn click_listener_reports_last_setting() {
    let mut plugin = WindowsPlugin::new("app".to_string());
    assert!(!plugin.is_click_listener_active());
    plugin.set_click_listener(true);
    plugin.set_click_listener(false);
    assert!(!plugin.is_click_listener_active());
    plugin.set_click_listener(false);
    plugin.set_click_listener(true);
    assert!(plugin.is_click_listener_active());
    assert_eq!(plugin.app_id(), "app");
    assert_eq!(plugin.action_types().len(), 0);
}

#[test]
fn test_action_types_storage() {
    let mut types = ActionTypes::new();
    let action_type = ActionType::new(
        "test".to_string(),
        vec![Action::new("btn".to_string(), "Button".to_string(), false)],
    );
    types.insert(action_type);
    assert!(types.contains_key("test"));
    assert_eq!(types.get("test").expect("Key not found").actions().len(), 1);
}

#[test]
fn test_multiple_action_types() {
    let mut w = ActionTypes::new();
    w.insert(ActionType::new(
        "confirm".to_string(),
        vec![
            Action::new("yes".to_string(), "Yes".to_string(), true),
            Action::new("no".to_string(), "No".to_string(), false),
        ],
    ));
    w.insert(ActionType::new(
        "reply".to_string(),
        vec![Action::new("reply".to_string(), "Reply".to_string(), true)],
    ));
    assert_eq!(w.len(), 2);
    assert!(w.contains_key("confirm") && w.contains_key("reply"));
}

#[test]
fn registering_a_type_again_replaces_it() {
    let mut plugin = WindowsPlugin::new("app.id".to_string());
    assert_eq!(plugin.app_id(), "app.id");
    assert!(!plugin.is_click_listener_active());
    plugin.register_action_types(vec![
        ActionType::new("a".to_string(), vec![]),
        ActionType::new("b".to_string(), vec![]),
        ActionType::new("a".to_string(), vec![Action::new("x".to_string(), "X".to_string(), false)]),
    ]);
    let types = plugin.action_types();
    assert_eq!(types.len(), 2);
    assert_eq!(types.get("a").expect("a").actions().len(), 1);
    assert_eq!(types.get("b").expect("b").actions().len(), 0);
    assert!(types.get("c").is_none());
    plugin.set_click_listener(true);
    assert!(plugin.is_click_listener_active());
}

#[test]
fn plan_immediate_toast_with_click_listener() {
    let mut plugin = WindowsPlugin::new("app".to_string());
    let mut data = NotificationData::with_id(-42);
    data.title = Some("Hello".to_string());
    data.group = Some("grp".to_string());
    data.extra = vec![("k".to_string(), "1".to_string())];
    data.attachments = vec![Attachment::new("i".to_string(), Url::parse("https://e.org/a.png").expect("url"))];
    let plan = plan_toast(&data, &plugin, current_time()).expect("plan");
    assert_eq!(plan.tag, "-42");
    assert_eq!(plan.group.as_deref(), Some("grp"));
    assert!(matches!(plan.delivery, ToastDelivery::Immediate(None)));
    plugin.set_click_listener(true);
    let plan = plan_toast(&data, &plugin, current_time()).expect("plan");
    match plan.delivery {
        ToastDelivery::Immediate(Some(rec)) => {
            assert_eq!(rec.id(), -42);
            assert_eq!(rec.tag(), Some("-42"));
            assert_eq!(rec.title(), Some("Hello"));
            assert_eq!(rec.extra(), &vec![("k".to_string(), "1".to_string())]);
            assert_eq!(rec.attachments().len(), 1);
            assert!(rec.data().is_empty());
        }
        other => panic!("unexpected {:?}", other),
    }
    assert_eq!(
        plan.content.to_xml(),
        "<toast><visual><binding template=\"ToastGeneric\"><text>Hello</text><image placement=\"hero\" src=\"https://e.org/a.png\"/></binding></visual></toast>"
    );
}

#[test]
fn plan_scheduled_toast() {
    let plugin = WindowsPlugin::new("app".to_string());
    let mut data = NotificationData::with_id(1);
    data.schedule = Some(Schedule::At { date: Timestamp { unix_nanos: 0, offset_seconds: 0 }, repeating: false, allow_while_idle: false });
    let plan = plan_toast(&data, &plugin, current_time()).expect("plan");
    match plan.delivery {
        ToastDelivery::Scheduled(dt) => assert_eq!(dt.universal_time as i128, WINDOWS_EPOCH_OFFSET_TICKS),
        other => panic!("unexpected {:?}", other),
    }
    data.schedule = Some(Schedule::At { date: Timestamp { unix_nanos: i128::MIN, offset_seconds: 0 }, repeating: false, allow_while_idle: false });
    assert!(plan_toast(&data, &plugin, current_time()).is_err());
}

#[test]
fn plan_relative_toast_at_given_time() {
    let plugin = WindowsPlugin::new("app".to_string());
    let now = Timestamp { unix_nanos: 1_700_000_000_000_000_000, offset_seconds: 0 };
    let mut data = NotificationData::with_id(9);
    data.schedule = Some(Schedule::Every { interval: ScheduleEvery::Hour, count: 2, allow_while_idle: false });
    let plan = plan_toast(&data, &plugin, now).expect("plan");
    let expected = (now.unix_nanos + 2 * 3600 * 1_000_000_000) / 100 + WINDOWS_EPOCH_OFFSET_TICKS;
    match plan.delivery {
        ToastDelivery::Scheduled(dt) => assert_eq!(dt.universal_time as i128, expected),
        other => panic!("unexpected {:?}", other),
    }
    assert_eq!(schedule_to_datetime(&data.schedule.expect("schedule"), now).expect("dt").universal_time as i128, expected);
    let late = Timestamp { unix_nanos: MAX_UNIX_NANOS, offset_seconds: 0 };
    let again = Schedule::Every { interval: ScheduleEvery::Minute, count: 1, allow_while_idle: false };
    data.schedule = Some(again);
    match plan_toast(&data, &plugin, late) {
        Err(Error::Io(m)) => assert_eq!(m, "Schedule date out of range"),
        other => panic!("unexpected {:?}", other),
    }
}

#[test]
fn activation_reports() {
    let tap = activation(String::new());
    assert_eq!(tap.action_id, "tap");
    assert!(tap.clicked && !tap.reads_input);
    let button = activation("reply".to_string());
    assert_eq!(button.action_id, "reply");
    assert!(!button.clicked && button.reads_input);
}

#[test]
fn runtime_error_code_text() {
    match windows_runtime_error(0x8007_0005u32 as i32, "Access is denied.".to_string()) {
        Error::PluginInvoke(PluginInvokeError::InvokeRejected(r)) => {
            assert_eq!(r.code.as_deref(), Some("0x80070005"));
            assert_eq!(r.message.as_deref(), Some("Access is denied."));
        }
        other => panic!("unexpected {:?}", other),
    }
    match windows_runtime_error(0xAB, String::new()) {
        Error::PluginInvoke(PluginInvokeError::InvokeRejected(r)) => {
            assert_eq!(r.code.as_deref(), Some(format!("0x{:08X}", 0xABi32).as_str()));
        }
        other => panic!("unexpected {:?}", other),
    }
}

#[test]
fn permission_follows_toast_setting() {
    assert_eq!(permission_from_setting(ToastSetting::Enabled), PermissionState::Granted);
    for s in [
        ToastSetting::DisabledForApplication,
        ToastSetting::DisabledForUser,
        ToastSetting::DisabledByGroupPolicy,
        ToastSetting::DisabledByManifest,
    ] {
        assert_eq!(permission_from_setting(s), PermissionState::Denied);
    }
    assert_eq!(permission_from_setting(ToastSetting::Unknown), PermissionState::Prompt);
}

#[test]
fn scheduled_toast_reads_back_as_pending() {
    let plugin = WindowsPlugin::new("app".to_string());
    let date = utc(time::Date::from_calendar_date(2031, time::Month::March, 3).expect("date"), 8, 15, 0);
    let date = Timestamp { unix_nanos: date.unix_nanos + 12_345, offset_seconds: 0 };
    let mut data = NotificationData::with_id(-77);
    data.title = Some("Later".to_string());
    data.schedule = Some(Schedule::At { date, repeating: false, allow_while_idle: false });
    let plan = plan_toast(&data, &plugin, current_time()).expect("plan");
    let at = match plan.delivery {
        ToastDelivery::Scheduled(at) => at,
        other => panic!("unexpected {:?}", other),
    };
    let pending = pending_from_toasts(vec![ScheduledToast {
        tag: plan.tag,
        title: data.title.clone(),
        body: None,
        delivery_time: Some(at),
    }]);
    assert_eq!(pending.len(), 1);
    assert_eq!(pending[0].id(), -77);
    match pending[0].schedule() {
        Schedule::At { date: back, repeating, .. } => {
            assert!(!repeating);
            assert_eq!(back.unix_nanos, date.unix_nanos - 45);
        }
        other => panic!("unexpected {:?}", other),
    }
}
