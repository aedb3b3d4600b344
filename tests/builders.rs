use chrono::{Datelike, Duration as ChronoDuration, Local, Timelike, Utc};
use cron::Schedule;
use mac_notification_sys::error::NotificationError;
use mac_notification_sys::un::builder::{
    ActionBuilder, AttachmentBuilder, CategoryBuilder, NotificationBuilder,
};
use mac_notification_sys::un::calendar::{datetime_to_schedule, schedule_pattern, LocalDateTime};
use mac_notification_sys::un::notification::{
    ActionIcon, AttachmentOptions, CategoryOptions, Duration, ImageFormat, InterruptionLevel,
    Sound, TriggerKind, VideoFormat, VideoTime,
};
use std::str::FromStr;

fn local_now() -> LocalDateTime {
    let now = Utc::now().with_timezone(&Local);
    LocalDateTime {
        year: now.year() as u32,
        month: now.month(),
        day: now.day(),
        hour: now.hour(),
        minute: now.minute(),
        second: now.second(),
    }
}

#[test]
fn builder_test_datetime_to_schedule() {
    let local_now = Utc::now().with_timezone(&Local);
    let before_time = local_now - ChronoDuration::hours(1);
    let date = LocalDateTime {
        year: local_now.year() as u32,
        month: local_now.month(),
        day: local_now.day(),
        hour: local_now.hour(),
        minute: local_now.minute(),
        second: local_now.second(),
    };
    let schedule = datetime_to_schedule(date).unwrap();
    let mut iter = schedule.after(&before_time);
    let first_date = iter.next();
    assert!(first_date.is_some());
    assert_eq!(local_now.with_nanosecond(0).unwrap(), first_date.unwrap());
    let finished = iter.next();
    assert!(finished.is_none());
}

#[test]
fn schedule_pattern_pads_fields() {
    let d = LocalDateTime { year: 2019, month: 12, day: 1, hour: 15, minute: 5, second: 3 };
    assert_eq!(schedule_pattern(d), "03 05 15 1 Dec * 2019");
    let d = LocalDateTime { year: 987, month: 1, day: 31, hour: 0, minute: 59, second: 0 };
    assert_eq!(schedule_pattern(d), "00 59 00 31 Jan * 0987");
}

#[test]
fn schedule_outside_cron_years_is_refused() {
    let d = LocalDateTime { year: 2200, month: 6, day: 1, hour: 0, minute: 0, second: 0 };
    assert!(datetime_to_schedule(d).is_none());
    let bad = LocalDateTime { year: 2030, month: 13, day: 1, hour: 0, minute: 0, second: 0 };
    assert!(datetime_to_schedule(bad).is_none());
}

#[test]
fn builder_sets_every_field() {
    let mut b = NotificationBuilder::new_with_body(String::from("body"));
    b.title(String::from("title"))
        .subtitle(String::from("sub"))
        .identifier(String::from("id"))
        .thread(String::from("thread"))
        .category_id(String::from("cat"))
        .launch_image(String::from("img"))
        .summary_argument(String::from("sum"))
        .summary_argument_count(4)
        .badge_count(2)
        .target_content_identifier(String::from("target"))
        .relevance_score(750)
        .filter_criteria(String::from("focus"))
        .as_time_sensitive()
        .critical_sound_with_volume(String::from("Blow"), 300)
        .delay(Duration::from_secs(90));
    let n = b.build();
    assert_eq!(n.identifier, "id");
    assert_eq!(n.body, "body");
    assert_eq!(n.title.as_deref(), Some("title"));
    assert_eq!(n.subtitle.as_deref(), Some("sub"));
    assert_eq!(n.thread_identifier.as_deref(), Some("thread"));
    assert_eq!(n.category_identifier.as_deref(), Some("cat"));
    assert_eq!(n.launch_image_name.as_deref(), Some("img"));
    assert_eq!(n.summary_argument.as_deref(), Some("sum"));
    assert_eq!(n.summary_argument_count, Some(4));
    assert_eq!(n.badge, Some(2));
    assert_eq!(n.target_content_identifier.as_deref(), Some("target"));
    assert_eq!(n.relevance_score, Some(750));
    assert_eq!(n.filter_criteria.as_deref(), Some("focus"));
    assert_eq!(n.interruption_level, Some(InterruptionLevel::TimeSensitive));
    assert!(matches!(n.sound, Some(Sound::CriticalSoundNamedWithVolume(ref s, 300)) if s == "Blow"));
    let t = n.trigger.unwrap();
    assert!(!t.repeats);
    assert!(matches!(t.kind, TriggerKind::TimeInterval(d) if d.secs == 90));
}

#[test]
fn builder_without_identifier_gets_a_random_one() {
    let b = NotificationBuilder::new_with_body(String::from("body"));
    let first = b.build();
    let second = b.build();
    assert_eq!(first.identifier.len(), 36);
    assert_ne!(first.identifier, second.identifier);
    assert!(is_uuid_v4(&first.identifier));
    assert!(is_uuid_v4(&CategoryBuilder::new().build().identifier));
    assert!(is_uuid_v4(&ActionBuilder::new_with_title(String::from("t")).build().identifier));
}

fn is_uuid_v4(s: &str) -> bool {
    let c: Vec<char> = s.chars().collect();
    c.len() == 36
        && c.iter().enumerate().all(|(i, ch)| {
            if [8, 13, 18, 23].contains(&i) {
                *ch == '-'
            } else {
                ch.is_ascii_digit() || ('a'..='f').contains(ch)
            }
        })
        && c[14] == '4'
        && "89ab".contains(c[19])
}

#[test]
fn user_data_replaces_a_key() {
    let mut b = NotificationBuilder::new_with_body(String::from("body"));
    b.user_data(String::from("a"), String::from("1"))
        .user_data(String::from("b"), String::from("2"))
        .user_data(String::from("a"), String::from("3"));
    let n = b.build();
    assert_eq!(
        n.user_info,
        vec![(String::from("a"), String::from("3")), (String::from("b"), String::from("2"))]
    );
}

#[test]
fn interval_repeats_and_cron_variants() {
    let mut b = NotificationBuilder::new_with_body(String::from("body"));
    b.interval(Duration::from_secs(61));
    let t = b.build().trigger.unwrap();
    assert!(t.repeats);
    b.cron(Schedule::from_str("0 30 9 * * * *").unwrap());
    let t = b.build().trigger.unwrap();
    assert!(t.repeats && matches!(t.kind, TriggerKind::Calendar(_)));
    b.cron_one_time(Schedule::from_str("0 30 9 * * * *").unwrap());
    assert!(!b.build().trigger.unwrap().repeats);
}

#[test]
fn schedule_sets_a_one_time_calendar_trigger() {
    let mut b = NotificationBuilder::new_with_body(String::from("body"));
    assert!(b.schedule(local_now()).is_ok());
    let t = b.build().trigger.unwrap();
    assert!(!t.repeats && matches!(t.kind, TriggerKind::Calendar(_)));
    let far = LocalDateTime { year: 2500, month: 1, day: 1, hour: 0, minute: 0, second: 0 };
    let mut b = NotificationBuilder::new_with_body(String::from("body"));
    assert!(matches!(b.schedule(far), Err(NotificationError::InvalidSchedule)));
    assert!(b.build().trigger.is_none());
}

#[test]
fn sounds_of_the_builder() {
    let mut b = NotificationBuilder::new_with_body(String::from("body"));
    b.default_sound();
    assert!(matches!(b.build().sound, Some(Sound::Default)));
    b.sound(String::from("Blow"));
    assert!(matches!(b.build().sound, Some(Sound::Named(ref s)) if s == "Blow"));
    b.default_critical_sound();
    assert!(matches!(b.build().sound, Some(Sound::DefaultCriticalSound)));
    b.default_critical_sound_with_volume(500);
    assert!(matches!(b.build().sound, Some(Sound::DefaultCriticalSoundWithVolume(500))));
    b.critical_sound(String::from("Ping"));
    assert!(matches!(b.build().sound, Some(Sound::CriticalSoundNamed(ref s)) if s == "Ping"));
    b.default_ringtone();
    assert!(matches!(b.build().sound, Some(Sound::DefaultRingtone)));
    b.ringtone(String::from("Ring"));
    assert!(matches!(b.build().sound, Some(Sound::RingtoneSoundNamed(ref s)) if s == "Ring"));
    b.as_active();
    assert_eq!(b.build().interruption_level, Some(InterruptionLevel::Active));
    b.as_critical();
    assert_eq!(b.build().interruption_level, Some(InterruptionLevel::Critical));
    b.as_passive();
    assert_eq!(b.build().interruption_level, Some(InterruptionLevel::Passive));
}

#[test]
fn attachments_of_the_builder() {
    let mut video = AttachmentBuilder::video(String::from("file:///movie"));
    video.identifier(String::from("v")).format(VideoFormat::MPEG4).thumbnail_from_end().hide_thumbnail(true);
    let a = video.build();
    assert_eq!(a.identifier, "v");
    assert_eq!(a.url, "file:///movie");
    match a.options {
        Some(AttachmentOptions::Video(o)) => {
            assert_eq!(o.format, Some(VideoFormat::MPEG4));
            assert_eq!(o.thumbnail_time, Some(VideoTime::End));
            assert_eq!(o.thumbnail_hide, Some(true));
        },
        _ => panic!("not a video"),
    }
    let mut image = AttachmentBuilder::image(String::from("file:///image"));
    image.format(ImageFormat::JPEG).crop_thumbnail((0, 0), (1000, 500));
    let a = image.build();
    assert_eq!(a.identifier.len(), 36);
    match a.options {
        Some(AttachmentOptions::Image(o)) => {
            assert_eq!(o.format, Some(ImageFormat::JPEG));
            assert_eq!(o.thumbnail_crop.unwrap().size, (1000, 500));
        },
        _ => panic!("not an image"),
    }
    let mut gif = AttachmentBuilder::animated_image(String::from("file:///a.gif"));
    gif.thumbnail_frame(7);
    assert!(matches!(gif.build().options, Some(AttachmentOptions::AnimatedImage(o)) if o.thumbnail_frame == Some(7)));
    let audio = AttachmentBuilder::audio(String::from("file:///a.mp3"));
    assert!(matches!(audio.build().options, Some(AttachmentOptions::Audio(o)) if o.format.is_none()));
    let mut movie = AttachmentBuilder::video(String::from("file:///m"));
    movie.thumbnail_from_start();
    assert!(matches!(movie.build().options, Some(AttachmentOptions::Video(o)) if o.thumbnail_time == Some(VideoTime::Start)));
    let mut movie = AttachmentBuilder::video(String::from("file:///m"));
    movie.thumbnail_time(Duration::from_secs(3));
    assert!(matches!(
        movie.build().options,
        Some(AttachmentOptions::Video(o)) if o.thumbnail_time == Some(VideoTime::Time(Duration::from_secs(3)))
    ));
}

#[test]
fn category_builder_collects_options_and_actions() {
    let mut action = ActionBuilder::new_with_title(String::from("Open"));
    action.identifier(String::from("open")).foreground().destructive().require_authentication();
    let action = action.build();
    assert_eq!(action.identifier, "open");
    assert_eq!(action.title, "Open");
    assert_eq!(action.options.bits, 0b111);
    let mut c = CategoryBuilder::new();
    c.identifier(String::from("cat"))
        .intent_identifier(String::from("i1"))
        .intent_identifier(String::from("i2"))
        .hidden_preview_body_placeholder(String::from("hidden"))
        .category_summary_format(String::from("%u more"))
        .has_custom_dismiss_action()
        .display_in_car_play()
        .show_title_when_hidden()
        .show_subtitle_when_hidden()
        .allow_announcements()
        .action(action);
    let cat = c.build();
    assert_eq!(cat.identifier, "cat");
    assert_eq!(cat.intent_identifiers, vec![String::from("i1"), String::from("i2")]);
    assert_eq!(cat.hidden_preview_body_placeholder.as_deref(), Some("hidden"));
    assert_eq!(cat.category_summary_format.as_deref(), Some("%u more"));
    assert_eq!(cat.options, CategoryOptions::all());
    assert_eq!(cat.actions.len(), 1);
    let mut b = NotificationBuilder::new_with_body(String::from("body"));
    b.category(&cat);
    assert_eq!(b.build().category_identifier.as_deref(), Some("cat"));
}

#[test]
fn action_builder_icons_and_random_identifier() {
    let mut a = ActionBuilder::new_with_title(String::from("Go"));
    a.bundle_image(String::from("go"));
    let built = a.build();
    assert_eq!(built.identifier.len(), 36);
    assert!(matches!(built.icon, Some(ActionIcon::TemplateImageName(ref s)) if s == "go"));
    let mut a = ActionBuilder::new_with_title(String::from("Go"));
    a.system_image(String::from("star"));
    assert!(matches!(a.build().icon, Some(ActionIcon::SystemImageName(ref s)) if s == "star"));
    assert_eq!(CategoryBuilder::new().build().options.bits, 0);
}
