use notifications::desktop::{is_installed_app_dir, macos_application, str_ends_with, Notification};
use notifications::error::{Error, PluginInvokeError};
use notifications::macos::{
    bundle_required_error, identifiers_from_ids, parse_void, parse_void_id, response_text,
    runs_from_bundle, trigger_failure, FFIResult,
};
use notifications::models::NotificationData;

#[test]
fn desktop_notification_from_data() {
    let mut data = NotificationData::with_id(1);
    data.body = Some("Body".to_string());
    let n = Notification::from_data(&data, "com.example".to_string(), Some("Product".to_string()));
    assert_eq!(n.title.as_deref(), Some("Product"));
    assert_eq!(n.body.as_deref(), Some("Body"));
    assert!(n.icon.is_none());
    assert_eq!(n.identifier, "com.example");
    data.title = Some("Title".to_string());
    data.icon = Some("i.png".to_string());
    let n = Notification::from_data(&data, "com.example".to_string(), Some("Product".to_string()));
    assert_eq!(n.title.as_deref(), Some("Title"));
    assert_eq!(n.icon.as_deref(), Some("i.png"));
    let n = Notification::new("x".to_string()).title("a".to_string()).body("b".to_string()).icon("c".to_string());
    assert_eq!((n.title.as_deref(), n.body.as_deref(), n.icon.as_deref()), (Some("a"), Some("b"), Some("c")));
}

#[test]
fn installed_app_dir_decision() {
    assert!(!is_installed_app_dir("C:\\proj\\target\\debug", '\\'));
    assert!(!is_installed_app_dir("/proj/target/release", '/'));
    assert!(is_installed_app_dir("C:\\Program Files\\App", '\\'));
    assert!(is_installed_app_dir("/proj/target/debug2", '/'));
    assert!(is_installed_app_dir("", '/'));
    assert!(str_ends_with("hello", "llo"));
    assert!(!str_ends_with("lo", "hello"));
}

#[test]
fn macos_application_name() {
    assert_eq!(macos_application(true, "com.example"), "com.apple.Terminal");
    assert_eq!(macos_application(false, "com.example"), "com.example");
}

fn components(path: &str) -> Vec<String> {
    std::path::Path::new(path)
        .components()
        .map(|c| c.as_os_str().to_string_lossy().into_owned())
        .collect()
}

#[test]
fn bundle_layout() {
    assert!(runs_from_bundle(&components("/Applications/My App.app/Contents/MacOS/myapp")));
    assert!(!runs_from_bundle(&components("/Users/me/proj/target/debug/myapp")));
    assert!(!runs_from_bundle(&components("/Applications/My.App/Contents/MacOS/myapp")));
    assert!(!runs_from_bundle(&components("Contents/MacOS/myapp")));
    match bundle_required_error() {
        Error::PluginInvoke(PluginInvokeError::InvokeRejected(r)) => {
            assert!(r.code.is_none());
            assert!(r.message.expect("message").contains(".app bundle"));
        }
        other => panic!("unexpected {:?}", other),
    }
}

#[test]
fn bridge_replies() {
    assert!(parse_void(Ok(())).is_ok());
    assert!(parse_void_id(Ok(7)).is_ok());
    match parse_void(Err(FFIResult::Failure("denied".to_string()))) {
        Err(Error::PluginInvoke(PluginInvokeError::InvokeRejected(r))) => {
            assert_eq!(r.message.as_deref(), Some("denied"));
            assert!(r.code.is_none());
        }
        other => panic!("unexpected {:?}", other),
    }
    assert!(parse_void_id(Err(FFIResult::Failure("x".to_string()))).is_err());
    assert_eq!(response_text(Ok("{}".to_string())).expect("ok"), "{}");
    assert!(response_text(Err(FFIResult::Failure("x".to_string()))).is_err());
    match trigger_failure("clicked", "no listener") {
        FFIResult::Failure(m) => assert_eq!(m, "Failed to trigger event 'clicked': no listener"),
    }
}

#[test]
fn identifiers_without_tags() {
    let ids = identifiers_from_ids(vec![4, -2]);
    assert_eq!(ids.len(), 2);
    assert_eq!(ids[0].id, 4);
    assert_eq!(ids[1].id, -2);
    assert!(ids.iter().all(|i| i.tag.is_none() && i.max_when.is_none()));
}
