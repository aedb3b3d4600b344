use mac_notification_sys::error::NotificationError;
use mac_notification_sys::notification::{MainButton, Notification, NotificationResponse, Sound};
use mac_notification_sys::util::{
    application_set_result, bundle_identifier_or_default, check_application_unset, sound_paths,
};

fn value<'a>(d: &'a [(&'static str, String)], key: &str) -> &'a str {
    d.iter().find(|(k, _)| *k == key).map(|(_, v)| v.as_str()).unwrap()
}

#[test]
fn dont_schedule_in_past() {
    let stamp = time::OffsetDateTime::now_utc().unix_timestamp() - 5;
    let mut n = Notification::new();
    n.title("Danger")
        .subtitle("Will Robinson")
        .message("Run away as fast as you can")
        .sound(Sound::Custom(String::from("Blow")))
        .delivery_date(stamp)
        .asynchronous(true);
    assert!(matches!(n.check_delivery_date(), Err(NotificationError::ScheduleInThePast)));
}

#[test]
fn future_delivery_dates_are_accepted() {
    let mut n = Notification::new();
    n.delivery_date(1_000);
    assert!(n.check_delivery_date_at(1_000).is_ok());
    assert!(n.check_delivery_date_at(1_001).is_err());
    assert!(Notification::new().check_delivery_date().is_ok());
}

#[test]
fn dictionary_of_an_empty_notification() {
    let d = Notification::new().to_dictionary();
    let keys: Vec<&str> = d.iter().map(|(k, _)| *k).collect();
    assert_eq!(
        keys,
        vec![
            "mainButtonLabel", "actions", "closeButtonLabel", "appIcon", "contentImage",
            "response", "deliveryDate", "asynchronous", "sound", "click"
        ]
    );
    assert_eq!(value(&d, "mainButtonLabel"), "");
    assert_eq!(value(&d, "asynchronous"), "no");
    assert_eq!(value(&d, "click"), "no");
    assert_eq!(value(&d, "sound"), "");
    assert_eq!(value(&d, "deliveryDate"), "");
}

#[test]
fn dictionary_of_a_full_notification() {
    let actions = ["TEST1", "TEST2"];
    let mut n = Notification::new();
    n.main_button(MainButton::DropdownActions("MAIN", &actions))
        .close_button("ALT")
        .app_icon("/icon.icns")
        .content_image("/image.png")
        .delivery_date(1_700_000_000)
        .default_sound()
        .asynchronous(true)
        .wait_for_click(true);
    let d = n.to_dictionary();
    assert_eq!(value(&d, "mainButtonLabel"), "MAIN");
    assert_eq!(value(&d, "actions"), "TEST1,TEST2");
    assert_eq!(value(&d, "closeButtonLabel"), "ALT");
    assert_eq!(value(&d, "appIcon"), "/icon.icns");
    assert_eq!(value(&d, "contentImage"), "/image.png");
    assert_eq!(value(&d, "response"), "");
    assert_eq!(value(&d, "deliveryDate"), "1700000000");
    assert_eq!(value(&d, "asynchronous"), "yes");
    assert_eq!(value(&d, "sound"), "NSUserNotificationDefaultSoundName");
    assert_eq!(value(&d, "click"), "yes");
}

#[test]
fn dictionary_of_a_reply_button() {
    let mut n = Notification::new();
    n.main_button(MainButton::Response("Type here")).maybe_sound(Some(Sound::Custom(String::from("Blow"))));
    n.delivery_date(-42);
    let d = n.to_dictionary();
    assert_eq!(value(&d, "mainButtonLabel"), "Type here");
    assert_eq!(value(&d, "response"), "yes");
    assert_eq!(value(&d, "sound"), "Blow");
    assert_eq!(value(&d, "deliveryDate"), "-42");
    let mut single = Notification::new();
    single.main_button(MainButton::SingleAction("Go")).maybe_subtitle(None);
    let d = single.to_dictionary();
    assert_eq!(value(&d, "mainButtonLabel"), "Go");
    assert_eq!(value(&d, "actions"), "");
}

fn dict(entries: &[(&str, &str)]) -> Vec<(String, String)> {
    entries.iter().map(|(k, v)| (k.to_string(), v.to_string())).collect()
}

#[test]
fn responses_by_activation_type() {
    let r = NotificationResponse::from_dictionary(&dict(&[("activationType", "actionClicked"), ("activationValue", "TEST1")]));
    assert!(matches!(r, NotificationResponse::ActionButton(ref s) if s == "TEST1"));
    let r = NotificationResponse::from_dictionary(&dict(&[("activationType", "closeClicked")]));
    assert!(matches!(r, NotificationResponse::CloseButton(ref s) if s.is_empty()));
    let r = NotificationResponse::from_dictionary(&dict(&[("activationValue", "hi"), ("activationType", "replied")]));
    assert!(matches!(r, NotificationResponse::Reply(ref s) if s == "hi"));
    let r = NotificationResponse::from_dictionary(&dict(&[("activationType", "contentsClicked")]));
    assert!(matches!(r, NotificationResponse::Click));
    let r = NotificationResponse::from_dictionary(&dict(&[("activationType", "other")]));
    assert!(matches!(r, NotificationResponse::NoInteraction));
    let r = NotificationResponse::from_dictionary(&dict(&[]));
    assert!(matches!(r, NotificationResponse::NoInteraction));
}

#[test]
fn an_error_entry_means_undelivered() {
    let r = Notification::read_response(&dict(&[("error", "x"), ("activationType", "contentsClicked")]));
    assert!(matches!(r, Err(NotificationError::UnableToDeliver)));
    let r = Notification::read_response(&dict(&[("activationType", "contentsClicked")]));
    assert!(matches!(r, Ok(NotificationResponse::Click)));
}

#[test]
fn bundle_identifier_defaults_to_terminal() {
    assert_eq!(bundle_identifier_or_default(None), "com.apple.Terminal");
    assert_eq!(bundle_identifier_or_default(Some(String::from("com.apple.Finder"))), "com.apple.Finder");
}

#[test]
fn application_is_set_once() {
    assert!(check_application_unset(false).is_ok());
    assert!(matches!(check_application_unset(true), Err(NotificationError::ApplicationAlreadySet)));
    assert!(application_set_result(true).is_ok());
    assert!(matches!(application_set_result(false), Err(NotificationError::CouldNotSetApplication)));
}

#[test]
fn sound_files_in_each_directory() {
    assert_eq!(
        sound_paths(Some("/Users/me"), "Blow"),
        vec![
            "/Users/me/Library/Sounds/Blow.aiff",
            "/Library/Sounds/Blow.aiff",
            "/Network/Library/Sounds/Blow.aiff",
            "/System/Library/Sounds/Blow.aiff"
        ]
    );
    assert_eq!(sound_paths(None, "Ping").len(), 3);
}

#[test]
fn legacy_getters_read_back() {
    let mut n = Notification::new();
    n.title("Danger").subtitle("Will Robinson").message("Run away");
    assert_eq!(n.title_text(), "Danger");
    assert_eq!(n.subtitle_text(), Some("Will Robinson"));
    assert_eq!(n.message_text(), "Run away");
}
