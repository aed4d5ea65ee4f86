use notifications::actions::{Action, ActionType};
use notifications::channel::{Channel, Importance, Visibility};
use notifications::commands::permission_granted;
use notifications::error::Error;
use notifications::models::{
    ActiveNotification, Attachment, NotificationData, PendingNotification, PermissionState,
    Schedule, ScheduleEvery, ScheduleInterval, Url,
};

#[test]
fn test_attachment_creation() {
    let url = Url::parse("https://example.com/image.png").expect("Failed to parse URL");
    let attachment = Attachment::new("test_id".to_string(), url.clone());
    assert_eq!(attachment.id(), "test_id");
    assert_eq!(attachment.url(), &url);
}

#[test]
fn url_parse_normalizes_and_rejects() {
    let url = Url::parse("HTTPS://Example.com").expect("Failed to parse URL");
    assert_eq!(url.as_str(), "https://example.com/");
    match Url::parse("not a url") {
        Err(Error::InvalidUrl(s)) => assert_eq!(s, "not a url"),
        other => panic!("unexpected {:?}", other),
    }
}

#[test]
fn test_schedule_every_display() {
    assert_eq!(ScheduleEvery::Year.to_string(), "year");
    assert_eq!(ScheduleEvery::Month.to_string(), "month");
    assert_eq!(ScheduleEvery::TwoWeeks.to_string(), "twoWeeks");
    assert_eq!(ScheduleEvery::Week.to_string(), "week");
    assert_eq!(ScheduleEvery::Day.to_string(), "day");
    assert_eq!(ScheduleEvery::Hour.to_string(), "hour");
    assert_eq!(ScheduleEvery::Minute.to_string(), "minute");
    assert_eq!(ScheduleEvery::Second.to_string(), "second");
}

#[test]
fn test_schedule_every_serialization() {
    let json = serde_json::to_string(&ScheduleEvery::Day.to_string()).expect("Failed to serialize Day");
    assert_eq!(json, "\"day\"");

    let json = serde_json::to_string(&ScheduleEvery::TwoWeeks.to_string())
        .expect("Failed to serialize TwoWeeks");
    assert_eq!(json, "\"twoWeeks\"");
}

fn every_from_json(json: &str) -> Result<ScheduleEvery, Error> {
    let name: String = serde_json::from_str(json).expect("not a JSON string");
    ScheduleEvery::from_name(&name)
}

#[test]
fn test_schedule_every_deserialization() {
    let every = every_from_json("\"year\"").expect("Failed to deserialize year");
    assert!(matches!(every, ScheduleEvery::Year));
    let every = every_from_json("\"month\"").expect("Failed to deserialize month");
    assert!(matches!(every, ScheduleEvery::Month));
    let every = every_from_json("\"twoweeks\"").expect("Failed to deserialize twoweeks");
    assert!(matches!(every, ScheduleEvery::TwoWeeks));
    let every = every_from_json("\"week\"").expect("Failed to deserialize week");
    assert!(matches!(every, ScheduleEvery::Week));
    let every = every_from_json("\"day\"").expect("Failed to deserialize day");
    assert!(matches!(every, ScheduleEvery::Day));
    let every = every_from_json("\"hour\"").expect("Failed to deserialize hour");
    assert!(matches!(every, ScheduleEvery::Hour));
    let every = every_from_json("\"minute\"").expect("Failed to deserialize minute");
    assert!(matches!(every, ScheduleEvery::Minute));
    let every = every_from_json("\"second\"").expect("Failed to deserialize second");
    assert!(matches!(every, ScheduleEvery::Second));
}

#[test]
fn test_schedule_every_deserialization_invalid() {
    let result = every_from_json("\"invalid\"");
    assert!(result.is_err());
}

#[test]
fn schedule_every_name_read_back_in_any_case() {
    let all = [
        ScheduleEvery::Year,
        ScheduleEvery::Month,
        ScheduleEvery::TwoWeeks,
        ScheduleEvery::Week,
        ScheduleEvery::Day,
        ScheduleEvery::Hour,
        ScheduleEvery::Minute,
        ScheduleEvery::Second,
    ];
    for e in all {
        assert_eq!(ScheduleEvery::from_name(&e.to_string()).expect("name"), e);
        assert_eq!(ScheduleEvery::from_name(&e.to_string().to_uppercase()).expect("upper"), e);
    }
    assert_eq!(ScheduleEvery::from_name("TWOWEEKS").expect("upper"), ScheduleEvery::TwoWeeks);
    match ScheduleEvery::from_name("Fortnight") {
        Err(Error::UnknownScheduleEvery(s)) => assert_eq!(s, "Fortnight"),
        other => panic!("unexpected {:?}", other),
    }
    assert_eq!(ScheduleEvery::from_lowercase_name("Year"), None);
    assert_eq!(ScheduleEvery::from_lowercase_name("year"), Some(ScheduleEvery::Year));
}

#[test]
fn test_schedule_interval_default() {
    let interval = ScheduleInterval::default();
    assert!(interval.year.is_none());
    assert!(interval.month.is_none());
    assert!(interval.day.is_none());
    assert!(interval.weekday.is_none());
    assert!(interval.hour.is_none());
    assert!(interval.minute.is_none());
    assert!(interval.second.is_none());
}

#[test]
fn test_notification_data_default() {
    let data = NotificationData::default();
    assert!(data.id != 0); // Should be a random ID
    assert!(data.channel_id.is_none());
    assert!(data.title.is_none());
    assert!(data.body.is_none());
    assert!(data.schedule.is_none());
    assert!(!data.group_summary);
    assert!(!data.ongoing);
    assert!(!data.auto_cancel);
    assert!(!data.silent);
    assert!(data.inbox_lines.is_empty());
    assert!(data.attachments.is_empty());
    assert!(data.extra.is_empty());
}

#[test]
fn notification_data_defaults_draw_fresh_ids() {
    let ids: Vec<i32> = (0..8).map(|_| NotificationData::default().id).collect();
    assert!(ids.iter().any(|id| *id != ids[0]));
    let data = NotificationData::with_id(123);
    assert_eq!(data.id, 123);
    assert!(data.title.is_none());
}

#[test]
fn drawn_ids_are_kept_but_zero() {
    assert_eq!(NotificationData::id_from_draw(0), 1);
    assert_eq!(NotificationData::id_from_draw(-5), -5);
    assert_eq!(NotificationData::id_from_draw(i32::MIN), i32::MIN);
    assert_eq!(NotificationData::id_from_draw(77), 77);
}

#[test]
fn test_pending_notification_getters() {
    let pending = PendingNotification {
        id: 456,
        title: Some("Pending Title".to_string()),
        body: Some("Pending Body".to_string()),
        schedule: Schedule::Every { interval: ScheduleEvery::Day, count: 1, allow_while_idle: false },
    };

    assert_eq!(pending.id(), 456);
    assert_eq!(pending.title(), Some("Pending Title"));
    assert_eq!(pending.body(), Some("Pending Body"));
    assert!(matches!(pending.schedule(), Schedule::Every { .. }));
}

#[test]
fn test_active_notification_getters() {
    let active = ActiveNotification {
        id: 789,
        tag: None,
        title: Some("Active Title".to_string()),
        body: Some("Active Body".to_string()),
        group: Some("test_group".to_string()),
        group_summary: true,
        data: Vec::new(),
        extra: Vec::new(),
        attachments: Vec::new(),
        action_type_id: None,
        schedule: None,
        sound: None,
        source: None,
        when: None,
    };

    assert_eq!(active.id(), 789);
    assert_eq!(active.title(), Some("Active Title"));
    assert_eq!(active.body(), Some("Active Body"));
    assert_eq!(active.group(), Some("test_group"));
    assert!(active.group_summary());
    assert!(active.data().is_empty());
    assert!(active.extra().is_empty());
    assert!(active.attachments().is_empty());
    assert!(active.action_type_id().is_none());
    assert!(active.schedule().is_none());
    assert!(active.sound().is_none());
    assert!(active.source().is_none());
    assert!(active.when().is_none());
    assert!(active.tag().is_none());
}

#[test]
fn test_importance_default() {
    let importance = Importance::default();
    assert!(matches!(importance, Importance::Default));
}

#[test]
fn test_channel_builder() {
    let channel = Channel::builder("test_id".to_string(), "Test Channel".to_string())
        .description("Test Description".to_string())
        .sound("test_sound".to_string())
        .lights(true)
        .light_color("#FF0000".to_string())
        .vibration(true)
        .importance(Importance::High)
        .visibility(Visibility::Public)
        .build();

    assert_eq!(channel.id(), "test_id");
    assert_eq!(channel.name(), "Test Channel");
    assert_eq!(channel.description(), Some("Test Description"));
    assert_eq!(channel.sound(), Some("test_sound"));
    assert!(channel.lights());
    assert_eq!(channel.light_color(), Some("#FF0000"));
    assert!(channel.vibration());
    assert!(matches!(channel.importance(), Importance::High));
    assert_eq!(channel.visibility(), Some(Visibility::Public));
}

#[test]
fn test_channel_builder_minimal() {
    let channel = Channel::builder("minimal_id".to_string(), "Minimal Channel".to_string()).build();

    assert_eq!(channel.id(), "minimal_id");
    assert_eq!(channel.name(), "Minimal Channel");
    assert_eq!(channel.description(), None);
    assert_eq!(channel.sound(), None);
    assert!(!channel.lights());
    assert_eq!(channel.light_color(), None);
    assert!(!channel.vibration());
    assert!(matches!(channel.importance(), Importance::Default));
    assert_eq!(channel.visibility(), None);
}

#[test]
fn channel_builder_later_setting_wins() {
    let channel = Channel::builder("c".to_string(), "C".to_string())
        .lights(true)
        .lights(false)
        .importance(Importance::Low)
        .importance(Importance::NoImportance)
        .build();
    assert!(!channel.lights());
    assert_eq!(channel.lights, Some(false));
    assert!(matches!(channel.importance(), Importance::NoImportance));
}

#[test]
fn action_constructors_set_defaults() {
    let action = Action::new("reply".to_string(), "Reply".to_string(), true);
    assert_eq!(action.id(), "reply");
    assert_eq!(action.title(), "Reply");
    assert!(action.foreground());
    assert!(!action.input());
    assert!(action.input_button_title().is_none());
    assert!(action.input_placeholder().is_none());
    let t = ActionType::new("t".to_string(), vec![action.clone(), action]);
    assert_eq!(t.id(), "t");
    assert_eq!(t.actions().len(), 2);
    assert!(!t.custom_dismiss_action);
}

#[test]
fn permission_answers() {
    assert_eq!(permission_granted(PermissionState::Granted), Some(true));
    assert_eq!(permission_granted(PermissionState::Denied), Some(false));
    assert_eq!(permission_granted(PermissionState::Prompt), None);
    assert_eq!(permission_granted(PermissionState::PromptWithRationale), None);
}
