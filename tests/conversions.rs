use cron::Schedule;
use mac_notification_sys::error::NotificationError;
use mac_notification_sys::os::{AppleOS, AppleVersion};
use mac_notification_sys::un::calendar::DateComponents;
use mac_notification_sys::un::notification::{
    Action, ActionIcon, ActionOptions, AnimatedImageAttachmentOptions, AnimatedImageFormat,
    Attachment, AttachmentOption, AttachmentOptions, AudioAttachmentOptions, AudioFormat,
    Category, CategoryOptions, Duration, ImageAttachmentOptions, ImageFormat, InterruptionLevel,
    NativeAttachment, NativeSound, NativeTrigger, Notification, Sound, ThumbnailClippingRect,
    Trigger, TriggerKind, VideoAttachmentOptions, VideoFormat, VideoTime,
};
use std::str::FromStr;

fn mac() -> AppleVersion {
    AppleVersion(AppleOS::MacOS, 14, 0)
}

fn execute_cron_conversion(pattern: &str) -> Result<NativeTrigger, NotificationError> {
    let cron_schedule = Schedule::from_str(pattern).unwrap();
    let trigger = Trigger { kind: TriggerKind::Calendar(cron_schedule), repeats: false };
    trigger.to_native()
}

fn all_none() -> DateComponents {
    DateComponents {
        year: None,
        month: None,
        day: None,
        hour: None,
        minute: None,
        second: None,
        weekday: None,
    }
}

#[test]
pub fn test_trigger_conversion_with_any() {
    let r = execute_cron_conversion("* * * * * * *").unwrap();
    assert_eq!(r, NativeTrigger::Calendar { components: all_none(), repeats: false });
}

#[test]
pub fn test_trigger_conversion_with_specific_date() {
    let r = execute_cron_conversion("* * * 1 Dec * 2019").unwrap();
    let components = DateComponents { year: Some(2019), month: Some(12), day: Some(1), ..all_none() };
    assert_eq!(r, NativeTrigger::Calendar { components, repeats: false });
}

#[test]
pub fn test_trigger_conversion_with_specific_datetime() {
    let r = execute_cron_conversion("30 45 15 1 Dec * 2019").unwrap();
    let components = DateComponents {
        year: Some(2019),
        month: Some(12),
        day: Some(1),
        hour: Some(15),
        minute: Some(45),
        second: Some(30),
        weekday: None,
    };
    assert_eq!(r, NativeTrigger::Calendar { components, repeats: false });
}

#[test]
#[should_panic]
pub fn test_trigger_conversion_with_interval() {
    execute_cron_conversion("30 45 15 1 Dec * 2019/2").unwrap();
}

#[test]
#[should_panic]
pub fn test_trigger_conversion_with_range() {
    execute_cron_conversion("30 45 15 1 Dec * 2019-2023").unwrap();
}

#[test]
#[should_panic]
pub fn test_trigger_conversion_with_all_interval() {
    execute_cron_conversion("30 45 15 1 Dec * */2").unwrap();
}

#[test]
fn cron_list_is_unsupported() {
    let r = execute_cron_conversion("0 0,30 * * * * *");
    assert!(matches!(r, Err(NotificationError::UnsupportedCronPattern)));
}

#[test]
fn cron_weekday_is_kept() {
    let r = execute_cron_conversion("0 0 9 * * Mon *").unwrap();
    let components = DateComponents {
        hour: Some(9),
        minute: Some(0),
        second: Some(0),
        weekday: Some(2),
        ..all_none()
    };
    assert_eq!(r, NativeTrigger::Calendar { components, repeats: false });
}

#[test]
pub fn test_convert_sound_default() {
    let sound = Sound::Default;
    assert!(matches!(sound.to_native(mac()), NativeSound::Default));
}

#[test]
pub fn test_convert_sound_named() {
    let sound = Sound::Named(String::from("test"));
    assert!(matches!(sound.to_native(mac()), NativeSound::Named(n) if n == "test"));
}

#[test]
pub fn test_convert_sound_default_critical() {
    let sound = Sound::DefaultCriticalSound;
    assert!(matches!(sound.to_native(mac()), NativeSound::DefaultCritical));
}

#[test]
pub fn test_convert_sound_named_critical() {
    let sound = Sound::CriticalSoundNamed(String::from("test"));
    assert!(matches!(sound.to_native(mac()), NativeSound::CriticalNamed(n) if n == "test"));
}

#[test]
pub fn test_convert_sound_named_volume_critical() {
    let sound = Sound::CriticalSoundNamedWithVolume(String::from("test"), 100);
    assert!(matches!(
        sound.to_native(mac()),
        NativeSound::CriticalNamedWithVolume(n, 100) if n == "test"
    ));
}

#[test]
pub fn test_convert_sound_default_ringtone() {
    let sound = Sound::DefaultRingtone;
    assert!(matches!(sound.to_native(mac()), NativeSound::Default));
    let ios = AppleVersion(AppleOS::IOS, 16, 0);
    assert!(matches!(Sound::DefaultRingtone.to_native(ios), NativeSound::DefaultRingtone));
}

#[test]
pub fn test_convert_sound_named_ringtone() {
    let sound = Sound::RingtoneSoundNamed(String::from("test"));
    assert!(matches!(sound.to_native(mac()), NativeSound::Default));
    let ios = AppleVersion(AppleOS::IOS, 15, 2);
    let sound = Sound::RingtoneSoundNamed(String::from("test"));
    assert!(matches!(sound.to_native(ios), NativeSound::RingtoneNamed(n) if n == "test"));
}

#[test]
pub fn test_convert_sound_default_critical_with_volume() {
    let sound = Sound::DefaultCriticalSoundWithVolume(100);
    assert!(matches!(sound.to_native(mac()), NativeSound::DefaultCriticalWithVolume(100)));
}

#[test]
fn critical_sound_falls_back_on_old_systems() {
    let old = AppleVersion(AppleOS::MacOS, 10, 13);
    assert!(matches!(Sound::DefaultCriticalSound.to_native(old), NativeSound::Default));
    let watch = AppleVersion(AppleOS::WatchOS, 9, 0);
    let named = Sound::Named(String::from("test"));
    assert!(matches!(named.to_native(watch), NativeSound::Default));
}

#[test]
pub fn test_convert_trigger_with_time_interval() {
    let trigger = Trigger { kind: TriggerKind::TimeInterval(Duration::from_secs(30)), repeats: false };
    assert_eq!(
        trigger.to_native().unwrap(),
        NativeTrigger::TimeInterval { interval: Duration::from_secs(30), repeats: false }
    );
}

#[test]
pub fn test_convert_trigger_with_time_interval_repeats() {
    let trigger = Trigger { kind: TriggerKind::TimeInterval(Duration::from_secs(60)), repeats: true };
    assert_eq!(
        trigger.to_native().unwrap(),
        NativeTrigger::TimeInterval { interval: Duration::from_secs(60), repeats: true }
    );
}

fn evening() -> DateComponents {
    DateComponents { hour: Some(18), minute: Some(45), second: Some(30), ..all_none() }
}

#[test]
pub fn test_convert_trigger_with_cron() {
    let cron_schedule = Schedule::from_str("30 45 18 * * * *").unwrap();
    let trigger = Trigger { kind: TriggerKind::Calendar(cron_schedule), repeats: false };
    assert_eq!(
        trigger.to_native().unwrap(),
        NativeTrigger::Calendar { components: evening(), repeats: false }
    );
}

#[test]
pub fn test_convert_trigger_with_cron_repeats() {
    let cron_schedule = Schedule::from_str("30 45 18 * * * *").unwrap();
    let trigger = Trigger { kind: TriggerKind::Calendar(cron_schedule), repeats: true };
    assert_eq!(
        trigger.to_native().unwrap(),
        NativeTrigger::Calendar { components: evening(), repeats: true }
    );
}

fn execute_attachment_test(file_name_str: &str, options: Option<AttachmentOptions>) -> NativeAttachment {
    let attachment = Attachment {
        url: format!("file:///resources/{}", file_name_str),
        identifier: String::from("Test"),
        options,
    };
    let native = attachment.to_native(mac());
    assert_eq!(native.identifier, "Test");
    assert_eq!(native.url, format!("file:///resources/{}", file_name_str));
    native
}

fn entries(native: NativeAttachment) -> Vec<AttachmentOption> {
    native.options.expect("options")
}

fn quarter_crop() -> ThumbnailClippingRect {
    ThumbnailClippingRect { origin: (250, 250), size: (500, 500) }
}

#[test]
pub fn test_convert_attachment_image() {
    assert!(execute_attachment_test("test.png", None).options.is_none());
}

#[test]
pub fn test_convert_attachment_image_crop() {
    let res = execute_attachment_test(
        "test.png",
        Some(AttachmentOptions::Image(ImageAttachmentOptions {
            thumbnail_crop: Some(quarter_crop()),
            ..Default::default()
        })),
    );
    let e = entries(res);
    assert_eq!(e.len(), 1);
    assert!(matches!(
        e[0],
        AttachmentOption::ThumbnailClippingRect(ThumbnailClippingRect { origin: (250, 250), size: (500, 500) })
    ));
}

#[test]
pub fn test_convert_attachment_image_hidden() {
    for hide in [true, false] {
        let res = execute_attachment_test(
            "test.png",
            Some(AttachmentOptions::Image(ImageAttachmentOptions {
                thumbnail_hide: Some(hide),
                ..Default::default()
            })),
        );
        let e = entries(res);
        assert_eq!(e.len(), 1);
        assert!(matches!(e[0], AttachmentOption::ThumbnailHidden(h) if h == hide));
    }
}

#[test]
pub fn test_convert_attachment_image_type_hint() {
    for (f, uti) in [(ImageFormat::JPEG, "public.jpeg"), (ImageFormat::PNG, "public.png")] {
        let res = execute_attachment_test(
            "test",
            Some(AttachmentOptions::Image(ImageAttachmentOptions { format: Some(f), ..Default::default() })),
        );
        let e = entries(res);
        assert_eq!(e.len(), 1);
        assert!(matches!(e[0], AttachmentOption::TypeHint(t) if t == uti));
    }
}

#[test]
pub fn test_convert_attachment_animated_image_cropped() {
    let res = execute_attachment_test(
        "test.gif",
        Some(AttachmentOptions::AnimatedImage(AnimatedImageAttachmentOptions {
            thumbnail_crop: Some(quarter_crop()),
            ..Default::default()
        })),
    );
    let e = entries(res);
    assert_eq!(e.len(), 1);
    assert!(matches!(e[0], AttachmentOption::ThumbnailClippingRect(_)));
}

#[test]
pub fn test_convert_attachment_animated_image_hidden() {
    for hide in [true, false] {
        let res = execute_attachment_test(
            "test.gif",
            Some(AttachmentOptions::AnimatedImage(AnimatedImageAttachmentOptions {
                thumbnail_hide: Some(hide),
                ..Default::default()
            })),
        );
        let e = entries(res);
        assert!(matches!(e[..], [AttachmentOption::ThumbnailHidden(h)] if h == hide));
    }
}

#[test]
pub fn test_convert_attachment_animated_image_type_hint() {
    for (f, uti) in [(AnimatedImageFormat::PNG, "public.png"), (AnimatedImageFormat::GIF, "com.compuserve.gif")] {
        let res = execute_attachment_test(
            "test.gif",
            Some(AttachmentOptions::AnimatedImage(AnimatedImageAttachmentOptions {
                format: Some(f),
                ..Default::default()
            })),
        );
        let e = entries(res);
        assert!(matches!(e[..], [AttachmentOption::TypeHint(t)] if t == uti));
    }
}

#[test]
pub fn test_convert_attachment_animated_image_frame_number() {
    let res = execute_attachment_test(
        "test.gif",
        Some(AttachmentOptions::AnimatedImage(AnimatedImageAttachmentOptions {
            thumbnail_frame: Some(1000),
            ..Default::default()
        })),
    );
    let e = entries(res);
    assert!(matches!(e[..], [AttachmentOption::ThumbnailFrame(1000)]));
}

#[test]
pub fn test_convert_attachment_animated_image_cropped_frame_number() {
    let res = execute_attachment_test(
        "test.gif",
        Some(AttachmentOptions::AnimatedImage(AnimatedImageAttachmentOptions {
            thumbnail_crop: Some(quarter_crop()),
            thumbnail_frame: Some(1000),
            ..Default::default()
        })),
    );
    let e = entries(res);
    assert!(matches!(
        e[..],
        [AttachmentOption::ThumbnailClippingRect(_), AttachmentOption::ThumbnailFrame(1000)]
    ));
}

#[test]
pub fn test_convert_attachment_movie() {
    assert!(execute_attachment_test("test.mp4", None).options.is_none());
}

#[test]
pub fn test_convert_attachment_movie_time_start() {
    let res = execute_attachment_test(
        "test.mp4",
        Some(AttachmentOptions::Video(VideoAttachmentOptions {
            thumbnail_time: Some(VideoTime::Start),
            ..Default::default()
        })),
    );
    let e = entries(res);
    assert!(matches!(e[..], [AttachmentOption::ThumbnailTime(VideoTime::Start)]));
}

#[test]
pub fn test_convert_attachment_movie_time_end() {
    let res = execute_attachment_test(
        "test.mp4",
        Some(AttachmentOptions::Video(VideoAttachmentOptions {
            thumbnail_time: Some(VideoTime::End),
            ..Default::default()
        })),
    );
    let e = entries(res);
    assert!(matches!(e[..], [AttachmentOption::ThumbnailTime(VideoTime::End)]));
}

#[test]
pub fn test_convert_attachment_movie_time_duration() {
    let res = execute_attachment_test(
        "test.mp4",
        Some(AttachmentOptions::Video(VideoAttachmentOptions {
            thumbnail_time: Some(VideoTime::Time(Duration::from_secs(60 * 10))),
            ..Default::default()
        })),
    );
    let e = entries(res);
    assert!(matches!(e[..], [AttachmentOption::ThumbnailTime(VideoTime::Time(d))] if d.secs == 600));
}

#[test]
fn movie_time_is_dropped_on_old_watch_os() {
    let attachment = Attachment {
        url: String::from("file:///resources/test.mp4"),
        identifier: String::from("Test"),
        options: Some(AttachmentOptions::Video(VideoAttachmentOptions {
            thumbnail_time: Some(VideoTime::Start),
            ..Default::default()
        })),
    };
    let native = attachment.to_native(AppleVersion(AppleOS::WatchOS, 5, 0));
    assert!(native.options.unwrap().is_empty());
}

#[test]
pub fn test_convert_attachment_movie_cropped() {
    let res = execute_attachment_test(
        "test.mp4",
        Some(AttachmentOptions::Video(VideoAttachmentOptions {
            thumbnail_crop: Some(quarter_crop()),
            ..Default::default()
        })),
    );
    let e = entries(res);
    assert!(matches!(e[..], [AttachmentOption::ThumbnailClippingRect(_)]));
}

#[test]
pub fn test_convert_attachment_movie_hide() {
    for hide in [true, false] {
        let res = execute_attachment_test(
            "test.mp4",
            Some(AttachmentOptions::Video(VideoAttachmentOptions {
                thumbnail_hide: Some(hide),
                ..Default::default()
            })),
        );
        let e = entries(res);
        assert!(matches!(e[..], [AttachmentOption::ThumbnailHidden(h)] if h == hide));
    }
}

#[test]
pub fn test_convert_attachment_movie_type_hint() {
    let formats = vec![
        (VideoFormat::MPEG, "public.mpeg"),
        (VideoFormat::MPEG4, "public.mpeg-4"),
        (VideoFormat::MPEG2Video, "public.mpeg-2-video"),
        (VideoFormat::AVIMovie, "public.avi"),
    ];
    for (f, uti) in formats {
        let res = execute_attachment_test(
            "test",
            Some(AttachmentOptions::Video(VideoAttachmentOptions { format: Some(f), ..Default::default() })),
        );
        let e = entries(res);
        assert!(matches!(e[..], [AttachmentOption::TypeHint(t)] if t == uti));
    }
}

#[test]
pub fn test_convert_attachment_audio() {
    assert!(execute_attachment_test("test.mp3", None).options.is_none());
}

#[test]
pub fn test_convert_attachment_audio_type_hint() {
    let formats = vec![
        (AudioFormat::MP3, "public.mp3"),
        (AudioFormat::MPEG4Audio, "public.mpeg-4-audio"),
        (AudioFormat::WaveformAudio, "com.microsoft.waveform-audio"),
        (AudioFormat::AudioInterchangeFileFormat, "public.aiff-audio"),
    ];
    for (f, uti) in formats {
        let res = execute_attachment_test(
            "test",
            Some(AttachmentOptions::Audio(AudioAttachmentOptions { format: Some(f) })),
        );
        let e = entries(res);
        assert!(matches!(e[..], [AttachmentOption::TypeHint(t)] if t == uti));
    }
}

#[test]
fn attachment_entries_keep_their_order() {
    let res = execute_attachment_test(
        "test.mp4",
        Some(AttachmentOptions::Video(VideoAttachmentOptions {
            format: Some(VideoFormat::MPEG4),
            thumbnail_time: Some(VideoTime::End),
            thumbnail_crop: Some(quarter_crop()),
            thumbnail_hide: Some(false),
        })),
    );
    let e = entries(res);
    assert!(matches!(
        e[..],
        [
            AttachmentOption::TypeHint("public.mpeg-4"),
            AttachmentOption::ThumbnailHidden(false),
            AttachmentOption::ThumbnailClippingRect(_),
            AttachmentOption::ThumbnailTime(VideoTime::End)
        ]
    ));
}

fn plain_action(icon: Option<ActionIcon>, options: ActionOptions) -> Action {
    Action { identifier: String::from("test"), title: String::from("Test"), icon, options }
}

#[test]
pub fn test_convert_action() {
    let native = plain_action(None, ActionOptions::empty()).to_native(mac());
    assert_eq!(native.identifier, "test");
    assert_eq!(native.title, "Test");
    assert_eq!(native.options, 0);
    assert!(native.icon.is_none());
}

#[test]
pub fn test_convert_action_with_system_icon() {
    let icon = Some(ActionIcon::SystemImageName(String::from("test")));
    let native = plain_action(icon, ActionOptions::empty()).to_native(mac());
    assert!(matches!(native.icon, Some(ActionIcon::SystemImageName(n)) if n == "test"));
}

#[test]
pub fn test_convert_action_with_template_icon() {
    let icon = Some(ActionIcon::TemplateImageName(String::from("test")));
    let native = plain_action(icon, ActionOptions::empty()).to_native(mac());
    assert!(matches!(native.icon, Some(ActionIcon::TemplateImageName(n)) if n == "test"));
}

#[test]
fn action_icon_is_dropped_before_macos_12() {
    let icon = Some(ActionIcon::TemplateImageName(String::from("test")));
    let native = plain_action(icon, ActionOptions::empty()).to_native(AppleVersion(AppleOS::MacOS, 11, 7));
    assert!(native.icon.is_none());
}

#[test]
pub fn test_convert_action_with_options() {
    let native = plain_action(None, ActionOptions::all()).to_native(mac());
    assert_eq!(native.options, 0b111);
}

#[test]
pub fn test_convert_notification() {
    let notification = Notification { body: String::from("Test"), ..Default::default() };
    let native = notification.to_native(mac());
    assert!(native.is_ok());
    assert_eq!(native.unwrap().body, "Test");
}

#[test]
pub fn test_convert_notification_all() {
    let notification = Notification {
        body: String::from("Test"),
        identifier: String::from("test"),
        trigger: Some(Trigger { kind: TriggerKind::TimeInterval(Duration::from_secs(300)), repeats: true }),
        title: Some(String::from("Test")),
        subtitle: Some(String::from("Test")),
        attachments: vec![Attachment {
            identifier: String::from("test1"),
            url: String::from("file:///test.jpg"),
            options: Some(AttachmentOptions::Video(VideoAttachmentOptions {
                format: Some(VideoFormat::MPEG4),
                thumbnail_time: Some(VideoTime::Time(Duration::from_secs(600))),
                thumbnail_crop: Some(ThumbnailClippingRect { origin: (100, 200), size: (400, 600) }),
                thumbnail_hide: Some(false),
            })),
        }],
        user_info: vec![(String::from("test"), String::from("test"))],
        thread_identifier: Some(String::from("threadid")),
        category_identifier: Some(String::from("categoryid")),
        summary_argument: Some(String::from("summary_test")),
        summary_argument_count: Some(3),
        launch_image_name: Some(String::from("test_image")),
        badge: Some(3),
        target_content_identifier: Some(String::from("contentid")),
        sound: Some(Sound::DefaultCriticalSound),
        interruption_level: Some(InterruptionLevel::Critical),
        relevance_score: Some(1300),
        filter_criteria: Some(String::from("testcriteria")),
    };
    let native = notification.to_native(mac());
    assert!(native.is_ok());
    let native = native.unwrap();
    assert_eq!(native.identifier, "test");
    assert_eq!(native.attachments.len(), 1);
    assert_eq!(native.attachments[0].options.as_ref().unwrap().len(), 4);
    assert_eq!(native.user_info, vec![(String::from("test"), String::from("test"))]);
    assert_eq!(native.thread_identifier.as_deref(), Some("threadid"));
    assert!(native.launch_image_name.is_none());
    assert_eq!(native.badge, Some(3));
    assert_eq!(native.target_content_identifier.as_deref(), Some("contentid"));
    assert_eq!(native.summary_argument.as_deref(), Some("summary_test"));
    assert_eq!(native.summary_argument_count, Some(3));
    assert!(matches!(native.sound, Some(NativeSound::DefaultCritical)));
    assert_eq!(native.interruption_level, Some(3));
    assert_eq!(native.relevance_score, Some(1300));
    assert_eq!(native.filter_criteria.as_deref(), Some("testcriteria"));
    assert_eq!(
        native.trigger,
        Some(NativeTrigger::TimeInterval { interval: Duration::from_secs(300), repeats: true })
    );
}

#[test]
fn notification_fields_are_gated_by_version() {
    let notification = Notification {
        body: String::from("Test"),
        target_content_identifier: Some(String::from("contentid")),
        interruption_level: Some(InterruptionLevel::Passive),
        relevance_score: Some(500),
        filter_criteria: Some(String::from("testcriteria")),
        launch_image_name: Some(String::from("test_image")),
        ..Default::default()
    };
    let native = notification.to_native(AppleVersion(AppleOS::MacOS, 10, 14)).unwrap();
    assert!(native.target_content_identifier.is_none());
    assert!(native.interruption_level.is_none());
    assert!(native.relevance_score.is_none());
    assert!(native.filter_criteria.is_none());
    assert!(native.launch_image_name.is_none());
    let native = notification.to_native(AppleVersion(AppleOS::IOS, 16, 0)).unwrap();
    assert_eq!(native.interruption_level, Some(0));
    assert_eq!(native.launch_image_name.as_deref(), Some("test_image"));
    assert!(native.summary_argument.is_none());
}

#[test]
fn tv_os_takes_no_attachments_or_sound() {
    let notification = Notification {
        body: String::from("Test"),
        attachments: vec![Attachment { identifier: String::from("a"), url: String::from("file:///a.png"), options: None }],
        user_info: vec![(String::from("k"), String::from("v"))],
        sound: Some(Sound::Default),
        thread_identifier: Some(String::from("t")),
        ..Default::default()
    };
    let native = notification.to_native(AppleVersion(AppleOS::TvOS, 17, 0)).unwrap();
    assert!(native.attachments.is_empty());
    assert!(native.user_info.is_empty());
    assert!(native.sound.is_none());
    assert!(native.thread_identifier.is_none());
}

#[test]
fn notification_with_unsupported_cron_fails() {
    let notification = Notification {
        trigger: Some(Trigger {
            kind: TriggerKind::Calendar(Schedule::from_str("0 0 9-17 * * * *").unwrap()),
            repeats: true,
        }),
        ..Default::default()
    };
    assert!(matches!(notification.to_native(mac()), Err(NotificationError::UnsupportedCronPattern)));
}

#[test]
pub fn test_convert_category() {
    let category = Category { identifier: String::from("test"), ..Default::default() };
    let native = category.to_native(mac());
    assert_eq!(native.identifier, "test");
    assert!(native.actions.is_empty());
    assert_eq!(native.options, 0);
}

#[test]
pub fn test_convert_category_all() {
    let category = Category {
        identifier: String::from("test"),
        actions: vec![Action {
            identifier: String::from("testaction"),
            title: String::from("test"),
            icon: Some(ActionIcon::SystemImageName(String::from("test"))),
            options: ActionOptions::all(),
        }],
        intent_identifiers: vec![String::from("test")],
        hidden_preview_body_placeholder: Some(String::from("test preview")),
        category_summary_format: Some(String::from("test format")),
        options: CategoryOptions::all(),
    };
    let native = category.to_native(mac());
    assert_eq!(native.actions.len(), 1);
    assert_eq!(native.actions[0].identifier, "testaction");
    assert_eq!(native.actions[0].options, 0b111);
    assert_eq!(native.intent_identifiers, vec![String::from("test")]);
    assert_eq!(native.hidden_preview_body_placeholder.as_deref(), Some("test preview"));
    assert_eq!(native.category_summary_format.as_deref(), Some("test format"));
    assert_eq!(native.options, 0b11111);
    let tv = category.to_native(AppleVersion(AppleOS::TvOS, 17, 0));
    assert!(tv.actions.is_empty());
    assert!(tv.intent_identifiers.is_empty());
}

#[test]
fn interruption_levels_have_native_raw_values() {
    assert_eq!(InterruptionLevel::Passive.to_native(), 0);
    assert_eq!(InterruptionLevel::Active.to_native(), 1);
    assert_eq!(InterruptionLevel::TimeSensitive.to_native(), 2);
    assert_eq!(InterruptionLevel::Critical.to_native(), 3);
}

#[test]
fn duration_carries_whole_seconds() {
    let d = Duration::new(5, 2_500_000_000);
    assert_eq!(d.secs, 7);
    assert_eq!(d.nanos, 500_000_000);
    assert_eq!(d.as_secs(), 7);
}
