//! Builders for notifications, attachments, categories and actions.
use crate::error::NotificationError;
use crate::un::calendar::{
    cron_accepts, datetime_to_schedule, parsed_schedule, pattern_of, LocalDateTime,
};
use crate::un::notification::{
    Action, ActionIcon, ActionOptions, AnimatedImageAttachmentOptions, Attachment,
    AttachmentOptions, AudioAttachmentOptions, Category, CategoryOptions, Duration,
    ImageAttachmentOptions, InterruptionLevel, Notification, Sound, ThumbnailClippingRect,
    ThumbnailedAttachmentOptions, Trigger, TriggerKind, UnifiedAttachmentOptions,
    VideoAttachmentOptions, VideoTime, copy_entries, keys_unique,
};
use cron::Schedule;
use vstd::prelude::*;

verus! {

/// A lowercase hexadecimal digit.
pub open spec fn is_lower_hex(c: char) -> bool {
    ('0' <= c <= '9') || ('a' <= c <= 'f')
}

/// `s` is a version 4 UUID in the hyphenated form: 36 characters, hyphens at
/// positions 8, 13, 18 and 23, lowercase hexadecimal digits elsewhere, the
/// version digit `4` at position 14 and the variant digit `8`, `9`, `a` or
/// `b` at position 19.
pub open spec fn is_uuid_v4_text(s: Seq<char>) -> bool {
    &&& s.len() == 36
    &&& forall|i: int|
        0 <= i < 36 ==> if i == 8 || i == 13 || i == 18 || i == 23 {
            s[i] == '-'
        } else {
            is_lower_hex(#[trigger] s[i])
        }
    &&& s[14] == '4'
    &&& (s[19] == '8' || s[19] == '9' || s[19] == 'a' || s[19] == 'b')
}

/// Relies on `uuid::Uuid::new_v4` and its `Display`: a random version 4
/// UUID, written in lowercase hyphenated form.
#[verifier::external_body]
fn random_identifier() -> (r: String)
    ensures
        is_uuid_v4_text(r@),
{
    uuid::Uuid::new_v4().to_string()
}

/// The identifier given, or a random version 4 UUID where none was.
pub open spec fn identifier_given_or_random(given: Option<String>, r: String) -> bool {
    match given {
        Some(id) => r == id,
        None => is_uuid_v4_text(r@),
    }
}

fn identifier_or_random(given: &Option<String>) -> (r: String)
    ensures
        identifier_given_or_random(*given, r),
{
    match given {
        Some(id) => id.clone(),
        None => random_identifier(),
    }
}

/// The index of the first entry of `s` with key `k`, or -1 where there is none.
pub open spec fn entry_index(s: Seq<(String, String)>, k: Seq<char>) -> int {
    if exists|i: int|
        0 <= i < s.len() && s[i].0@ == k && forall|j: int| 0 <= j < i ==> s[j].0@ != k {
        choose|i: int|
            0 <= i < s.len() && s[i].0@ == k && forall|j: int| 0 <= j < i ==> s[j].0@ != k
    } else {
        -1
    }
}

/// `s` with the value of key `k` set to `v`: the entry of `k` is replaced
/// where there is one, else the pair is appended.
pub open spec fn set_entry(s: Seq<(String, String)>, k: String, v: String) -> Seq<
    (String, String),
> {
    let i = entry_index(s, k@);
    if i >= 0 {
        s.update(i, (k, v))
    } else {
        s.push((k, v))
    }
}

/// Setting an entry keeps the keys of a map of distinct keys distinct.
pub proof fn lemma_set_entry_keeps_keys_unique(s: Seq<(String, String)>, k: String, v: String)
    requires
        keys_unique(s),
    ensures
        keys_unique(set_entry(s, k, v)),
{
    let i = entry_index(s, k@);
    if i < 0 {
        assert forall|a: int| 0 <= a < s.len() implies s[a].0@ != k@ by {
            if s[a].0@ == k@ {
                assert(forall|j: int| 0 <= j < a ==> s[j].0@ != k@);
            }
        }
    }
}

fn set_entry_in(entries: &mut Vec<(String, String)>, k: String, v: String)
    ensures
        final(entries)@ == set_entry(old(entries)@, k, v),
{
    let mut i: usize = 0;
    while i < entries.len()
        invariant
            i <= entries.len(),
            entries@ == old(entries)@,
            forall|j: int| 0 <= j < i ==> entries@[j].0@ != k@,
        decreases entries.len() - i,
    {
        if entries[i].0 == k {
            assert(entry_index(old(entries)@, k@) == i as int);
            entries.set(i, (k, v));
            return;
        }
        i = i + 1;
    }
    assert(entry_index(old(entries)@, k@) == -1);
    entries.push((k, v));
}

/// Builds a notification.
pub struct NotificationBuilder {
    identifier: Option<String>,
    trigger: Option<Trigger>,
    title: Option<String>,
    subtitle: Option<String>,
    body: String,
    attachments: Vec<Attachment>,
    user_data: UserData,
    thread_identifier: Option<String>,
    category_identifier: Option<String>,
    summary_argument: Option<String>,
    summary_argument_count: Option<usize>,
    launch_image_name: Option<String>,
    badge: Option<usize>,
    target_content_identifier: Option<String>,
    sound: Option<Sound>,
    interruption_level: Option<InterruptionLevel>,
    relevance_score: Option<u16>,
    filter_criteria: Option<String>,
}

/// The state of a notification builder.
pub struct NotificationDraft {
    /// The unique identifier of the notification.
    pub identifier: Option<String>,
    /// The condition that delivers the notification.
    pub trigger: Option<Trigger>,
    /// The primary description.
    pub title: Option<String>,
    /// The secondary description.
    pub subtitle: Option<String>,
    /// The main content.
    pub body: String,
    /// Files shown alongside the main content.
    pub attachments: Seq<Attachment>,
    /// Custom data, as pairs of key and value.
    pub user_data: Seq<(String, String)>,
    /// The identifier that groups related notifications.
    pub thread_identifier: Option<String>,
    /// The identifier of the notification's category.
    pub category_identifier: Option<String>,
    /// The text added to the notification summary.
    pub summary_argument: Option<String>,
    /// The number of items that the notification stands for.
    pub summary_argument_count: Option<usize>,
    /// The image shown when the app launches from the notification.
    pub launch_image_name: Option<String>,
    /// The number that the app's icon displays.
    pub badge: Option<usize>,
    /// The value that picks the scene that handles the notification.
    pub target_content_identifier: Option<String>,
    /// The sound played upon delivery.
    pub sound: Option<Sound>,
    /// The importance and delivery timing.
    pub interruption_level: Option<InterruptionLevel>,
    /// How much the notification is featured in a summary, in thousandths.
    pub relevance_score: Option<u16>,
    /// The criteria that decide whether the current Focus shows it.
    pub filter_criteria: Option<String>,
}

/// Custom data of a notification: pairs of key and value, no two with the
/// same key.
struct UserData {
    entries: Vec<(String, String)>,
}

impl UserData {
    /// No two entries share a key.
    #[verifier::type_invariant]
    spec fn keys_distinct(&self) -> bool {
        keys_unique(self.entries@)
    }

    fn new() -> (r: Self)
        ensures
            r.entries@ == Seq::<(String, String)>::empty(),
    {
        let r = UserData { entries: Vec::new() };
        assert(r.entries@ =~= Seq::<(String, String)>::empty());
        r
    }

    /// Sets the value of `key` to `value`.
    fn set(&mut self, key: String, value: String)
        ensures
            final(self).entries@ == set_entry(old(self).entries@, key, value),
    {
        proof {
            use_type_invariant(&*self);
            lemma_set_entry_keeps_keys_unique(self.entries@, key, value);
        }
        let mut entries = copy_entries(&self.entries);
        set_entry_in(&mut entries, key, value);
        self.entries = entries;
    }

    /// A copy of the entries, with distinct keys.
    fn to_vec(&self) -> (r: Vec<(String, String)>)
        ensures
            r@ == self.entries@,
            keys_unique(r@),
    {
        proof {
            use_type_invariant(self);
        }
        copy_entries(&self.entries)
    }
}

impl View for NotificationBuilder {
    type V = NotificationDraft;

    closed spec fn view(&self) -> NotificationDraft {
        NotificationDraft {
            identifier: self.identifier,
            trigger: self.trigger,
            title: self.title,
            subtitle: self.subtitle,
            body: self.body,
            attachments: self.attachments@,
            user_data: self.user_data.entries@,
            thread_identifier: self.thread_identifier,
            category_identifier: self.category_identifier,
            summary_argument: self.summary_argument,
            summary_argument_count: self.summary_argument_count,
            launch_image_name: self.launch_image_name,
            badge: self.badge,
            target_content_identifier: self.target_content_identifier,
            sound: self.sound,
            interruption_level: self.interruption_level,
            relevance_score: self.relevance_score,
            filter_criteria: self.filter_criteria,
        }
    }
}

impl NotificationBuilder {
    /// A builder of a notification with the main content `body`.
    pub fn new_with_body(body: String) -> (r: NotificationBuilder)
        ensures
            r@ == (NotificationDraft {
                identifier: None,
                trigger: None,
                title: None,
                subtitle: None,
                body,
                attachments: Seq::empty(),
                user_data: Seq::empty(),
                thread_identifier: None,
                category_identifier: None,
                summary_argument: None,
                summary_argument_count: None,
                launch_image_name: None,
                badge: None,
                target_content_identifier: None,
                sound: None,
                interruption_level: None,
                relevance_score: None,
                filter_criteria: None,
            }),
    {
        let r = NotificationBuilder {
            identifier: None,
            trigger: None,
            title: None,
            subtitle: None,
            body,
            attachments: Vec::new(),
            user_data: UserData::new(),
            thread_identifier: None,
            category_identifier: None,
            summary_argument: None,
            summary_argument_count: None,
            launch_image_name: None,
            badge: None,
            target_content_identifier: None,
            sound: None,
            interruption_level: None,
            relevance_score: None,
            filter_criteria: None,
        };
        assert(r@.attachments =~= Seq::<Attachment>::empty());
        assert(r@.user_data =~= Seq::<(String, String)>::empty());
        r
    }

    /// The primary description.
    pub fn title(&mut self, title: String) -> (r: &mut Self)
        ensures
            r@ == (NotificationDraft { title: Some(title), ..old(self)@ }),
            *final(self) == *final(r),
    {
        self.title = Some(title);
        self
    }

    /// The secondary description.
    pub fn subtitle(&mut self, subtitle: String) -> (r: &mut Self)
        ensures
            r@ == (NotificationDraft { subtitle: Some(subtitle), ..old(self)@ }),
            *final(self) == *final(r),
    {
        self.subtitle = Some(subtitle);
        self
    }

    /// The main content.
    pub fn body(&mut self, body: String) -> (r: &mut Self)
        ensures
            r@ == (NotificationDraft { body: body, ..old(self)@ }),
            *final(self) == *final(r),
    {
        self.body = body;
        self
    }

    /// The unique identifier of the notification.
    pub fn identifier(&mut self, identifier: String) -> (r: &mut Self)
        ensures
            r@ == (NotificationDraft { identifier: Some(identifier), ..old(self)@ }),
            *final(self) == *final(r),
    {
        self.identifier = Some(identifier);
        self
    }

    /// The category of the notification, by its identifier.
    pub fn category_id(&mut self, category_id: String) -> (r: &mut Self)
        ensures
            r@ == (NotificationDraft { category_identifier: Some(category_id), ..old(self)@ }),
            *final(self) == *final(r),
    {
        self.category_identifier = Some(category_id);
        self
    }

    /// The image or storyboard shown when the app launches from the
    /// notification.
    pub fn launch_image(&mut self, image_name: String) -> (r: &mut Self)
        ensures
            r@ == (NotificationDraft { launch_image_name: Some(image_name), ..old(self)@ }),
            *final(self) == *final(r),
    {
        self.launch_image_name = Some(image_name);
        self
    }

    /// The identifier that groups related notifications.
    pub fn thread(&mut self, thread_id: String) -> (r: &mut Self)
        ensures
            r@ == (NotificationDraft { thread_identifier: Some(thread_id), ..old(self)@ }),
            *final(self) == *final(r),
    {
        self.thread_identifier = Some(thread_id);
        self
    }

    /// The default notification sound plays upon delivery.
    pub fn default_sound(&mut self) -> (r: &mut Self)
        ensures
            r@ == (NotificationDraft { sound: Some(Sound::Default), ..old(self)@ }),
            *final(self) == *final(r),
    {
        self.sound = Some(Sound::Default);
        self
    }

    /// A custom sound file plays upon delivery.
    pub fn sound(&mut self, name: String) -> (r: &mut Self)
        ensures
            r@ == (NotificationDraft { sound: Some(Sound::Named(name)), ..old(self)@ }),
            *final(self) == *final(r),
    {
        self.sound = Some(Sound::Named(name));
        self
    }

    /// The default critical alert sound plays upon delivery.
    pub fn default_critical_sound(&mut self) -> (r: &mut Self)
        ensures
            r@ == (NotificationDraft { sound: Some(Sound::DefaultCriticalSound), ..old(self)@ }),
            *final(self) == *final(r),
    {
        self.sound = Some(Sound::DefaultCriticalSound);
        self
    }

    /// The default critical alert sound plays upon delivery, at the volume
    /// given in thousandths.
    pub fn default_critical_sound_with_volume(&mut self, volume: u16) -> (r: &mut Self)
        ensures
            r@ == (NotificationDraft {
                sound: Some(Sound::DefaultCriticalSoundWithVolume(volume)),
                ..old(self)@
            }),
            *final(self) == *final(r),
    {
        self.sound = Some(Sound::DefaultCriticalSoundWithVolume(volume));
        self
    }

    /// A custom critical alert sound plays upon delivery.
    pub fn critical_sound(&mut self, sound_name: String) -> (r: &mut Self)
        ensures
            r@ == (NotificationDraft {
                sound: Some(Sound::CriticalSoundNamed(sound_name)),
                ..old(self)@
            }),
            *final(self) == *final(r),
    {
        self.sound = Some(Sound::CriticalSoundNamed(sound_name));
        self
    }

    /// A custom critical alert sound plays upon delivery, at the volume
    /// given in thousandths.
    pub fn critical_sound_with_volume(&mut self, sound_name: String, volume: u16) -> (r: &mut Self)
        ensures
            r@ == (NotificationDraft {
                sound: Some(Sound::CriticalSoundNamedWithVolume(sound_name, volume)),
                ..old(self)@
            }),
            *final(self) == *final(r),
    {
        self.sound = Some(Sound::CriticalSoundNamedWithVolume(sound_name, volume));
        self
    }

    /// The default ringtone plays upon delivery (iOS only).
    pub fn default_ringtone(&mut self) -> (r: &mut Self)
        ensures
            r@ == (NotificationDraft { sound: Some(Sound::DefaultRingtone), ..old(self)@ }),
            *final(self) == *final(r),
    {
        self.sound = Some(Sound::DefaultRingtone);
        self
    }

    /// A custom ringtone plays upon delivery (iOS only).
    pub fn ringtone(&mut self, ringtone_name: String) -> (r: &mut Self)
        ensures
            r@ == (NotificationDraft {
                sound: Some(Sound::RingtoneSoundNamed(ringtone_name)),
                ..old(self)@
            }),
            *final(self) == *final(r),
    {
        self.sound = Some(Sound::RingtoneSoundNamed(ringtone_name));
        self
    }

    /// Delivers the notification once, after `duration`.
    pub fn delay(&mut self, duration: Duration) -> (r: &mut Self)
        ensures
            r@ == (NotificationDraft {
                trigger: Some(
                    Trigger { kind: TriggerKind::TimeInterval(duration), repeats: false },
                ),
                ..old(self)@
            }),
            *final(self) == *final(r),
    {
        self.trigger = Some(Trigger { kind: TriggerKind::TimeInterval(duration), repeats: false });
        self
    }

    /// Delivers the notification once, at the next time that a cron pattern
    /// on the local clock matches.
    ///
    /// Each unit of time of the pattern must be `*` or a single value.
    pub fn cron_one_time(&mut self, schedule: Schedule) -> (r: &mut Self)
        ensures
            r@ == (NotificationDraft {
                trigger: Some(Trigger { kind: TriggerKind::Calendar(schedule), repeats: false }),
                ..old(self)@
            }),
            *final(self) == *final(r),
    {
        self.trigger = Some(Trigger { kind: TriggerKind::Calendar(schedule), repeats: false });
        self
    }

    /// Delivers the notification each time that a cron pattern on the local
    /// clock matches.
    ///
    /// Each unit of time of the pattern must be `*` or a single value.
    pub fn cron(&mut self, schedule: Schedule) -> (r: &mut Self)
        ensures
            r@ == (NotificationDraft {
                trigger: Some(Trigger { kind: TriggerKind::Calendar(schedule), repeats: true }),
                ..old(self)@
            }),
            *final(self) == *final(r),
    {
        self.trigger = Some(Trigger { kind: TriggerKind::Calendar(schedule), repeats: true });
        self
    }

    /// Presented at once, lighting up the screen, maybe with a sound.
    pub fn as_active(&mut self) -> (r: &mut Self)
        ensures
            r@ == (NotificationDraft {
                interruption_level: Some(InterruptionLevel::Active),
                ..old(self)@
            }),
            *final(self) == *final(r),
    {
        self.interruption_level = Some(InterruptionLevel::Active);
        self
    }

    /// Presented at once, with a sound that bypasses the mute switch.
    pub fn as_critical(&mut self) -> (r: &mut Self)
        ensures
            r@ == (NotificationDraft {
                interruption_level: Some(InterruptionLevel::Critical),
                ..old(self)@
            }),
            *final(self) == *final(r),
    {
        self.interruption_level = Some(InterruptionLevel::Critical);
        self
    }

    /// Added to the list without lighting up the screen or a sound.
    pub fn as_passive(&mut self) -> (r: &mut Self)
        ensures
            r@ == (NotificationDraft {
                interruption_level: Some(InterruptionLevel::Passive),
                ..old(self)@
            }),
            *final(self) == *final(r),
    {
        self.interruption_level = Some(InterruptionLevel::Passive);
        self
    }

    /// Presented at once, breaking through notification controls.
    pub fn as_time_sensitive(&mut self) -> (r: &mut Self)
        ensures
            r@ == (NotificationDraft {
                interruption_level: Some(InterruptionLevel::TimeSensitive),
                ..old(self)@
            }),
            *final(self) == *final(r),
    {
        self.interruption_level = Some(InterruptionLevel::TimeSensitive);
        self
    }

    /// The text added to the notification summary.
    pub fn summary_argument(&mut self, summary_argument: String) -> (r: &mut Self)
        ensures
            r@ == (NotificationDraft { summary_argument: Some(summary_argument), ..old(self)@ }),
            *final(self) == *final(r),
    {
        self.summary_argument = Some(summary_argument);
        self
    }

    /// The number of items that the notification stands for in the summary.
    pub fn summary_argument_count(&mut self, summary_argument_count: usize) -> (r: &mut Self)
        ensures
            r@ == (NotificationDraft {
                summary_argument_count: Some(summary_argument_count),
                ..old(self)@
            }),
            *final(self) == *final(r),
    {
        self.summary_argument_count = Some(summary_argument_count);
        self
    }

    /// The number that the app's icon displays.
    pub fn badge_count(&mut self, badge: usize) -> (r: &mut Self)
        ensures
            r@ == (NotificationDraft { badge: Some(badge), ..old(self)@ }),
            *final(self) == *final(r),
    {
        self.badge = Some(badge);
        self
    }

    /// The value that picks the scene that handles the notification.
    pub fn target_content_identifier(&mut self, identifier: String) -> (r: &mut Self)
        ensures
            r@ == (NotificationDraft { target_content_identifier: Some(identifier), ..old(self)@ }),
            *final(self) == *final(r),
    {
        self.target_content_identifier = Some(identifier);
        self
    }

    /// How much the notification is featured in a summary, in thousandths.
    pub fn relevance_score(&mut self, score: u16) -> (r: &mut Self)
        ensures
            r@ == (NotificationDraft { relevance_score: Some(score), ..old(self)@ }),
            *final(self) == *final(r),
    {
        self.relevance_score = Some(score);
        self
    }

    /// The criteria that decide whether the current Focus shows it.
    pub fn filter_criteria(&mut self, filter: String) -> (r: &mut Self)
        ensures
            r@ == (NotificationDraft { filter_criteria: Some(filter), ..old(self)@ }),
            *final(self) == *final(r),
    {
        self.filter_criteria = Some(filter);
        self
    }

    /// Custom data: sets the value of `key` to `value`.
    pub fn user_data(&mut self, key: String, value: String) -> (r: &mut Self)
        ensures
            r@ == (NotificationDraft {
                user_data: set_entry(old(self)@.user_data, key, value),
                ..old(self)@
            }),
            *final(self) == *final(r),
    {
        self.user_data.set(key, value);
        self
    }

    /// Adds a file shown alongside the main content.
    pub fn attachment(&mut self, attachment: Attachment) -> (r: &mut Self)
        ensures
            r@ == (NotificationDraft {
                attachments: old(self)@.attachments.push(attachment),
                ..old(self)@
            }),
            *final(self) == *final(r),
    {
        self.attachments.push(attachment);
        self
    }

    /// The category of the notification.
    pub fn category(&mut self, category: &Category) -> (r: &mut Self)
        ensures
            r@ == (NotificationDraft {
                category_identifier: Some(category.identifier),
                ..old(self)@
            }),
            *final(self) == *final(r),
    {
        self.category_identifier = Some(category.identifier.clone());
        self
    }

    /// Delivers the notification after `duration`, and again each time that
    /// it elapses. The duration must be longer than a minute.
    pub fn interval(&mut self, duration: Duration) -> (r: &mut Self)
        requires
            duration.secs > 60,
        ensures
            r@ == (NotificationDraft {
                trigger: Some(Trigger { kind: TriggerKind::TimeInterval(duration), repeats: true }),
                ..old(self)@
            }),
            *final(self) == *final(r),
    {
        self.trigger = Some(Trigger { kind: TriggerKind::TimeInterval(duration), repeats: true });
        self
    }

    /// Delivers the notification once, at the date and time given on the
    /// local clock.
    ///
    /// It fails, and leaves the builder as it was, where no cron schedule can
    /// be made from the date: one with a year past the cron range, or one
    /// outside the calendar.
    pub fn schedule(&mut self, date_time: LocalDateTime) -> (r: Result<
        &mut Self,
        NotificationError,
    >)
        ensures
            r is Ok <==> date_time.wf() && cron_accepts(pattern_of(date_time)),
            r is Ok ==> (r->Ok_0)@ == (NotificationDraft {
                trigger: Some(
                    Trigger {
                        kind: TriggerKind::Calendar(parsed_schedule(pattern_of(date_time))->0),
                        repeats: false,
                    },
                ),
                ..old(self)@
            }),
            r is Ok ==> *final(self) == *final(r->Ok_0),
            r is Err ==> *final(self) == *old(self) && r->Err_0 is InvalidSchedule,
    {
        match datetime_to_schedule(date_time) {
            Some(s) => {
                self.trigger = Some(Trigger { kind: TriggerKind::Calendar(s), repeats: false });
                Ok(self)
            },
            None => Err(NotificationError::InvalidSchedule),
        }
    }

    /// The notification: each field as set, and a random version 4 UUID as
    /// the identifier where none was given.
    pub fn build(&self) -> (r: Notification)
        ensures
            identifier_given_or_random(self@.identifier, r.identifier),
            r.trigger == self@.trigger,
            r.title == self@.title,
            r.subtitle == self@.subtitle,
            r.body == self@.body,
            r.attachments@ == self@.attachments,
            r.user_info@ == self@.user_data,
            r.wf(),
            r.thread_identifier == self@.thread_identifier,
            r.category_identifier == self@.category_identifier,
            r.summary_argument == self@.summary_argument,
            r.summary_argument_count == self@.summary_argument_count,
            r.launch_image_name == self@.launch_image_name,
            r.badge == self@.badge,
            r.target_content_identifier == self@.target_content_identifier,
            r.sound == self@.sound,
            r.interruption_level == self@.interruption_level,
            r.relevance_score == self@.relevance_score,
            r.filter_criteria == self@.filter_criteria,
    {
        let attachments = self.attachments.clone();
        let user_info = self.user_data.to_vec();
        assert(attachments@ =~= self.attachments@);
        Notification {
            identifier: identifier_or_random(&self.identifier),
            trigger: self.trigger.clone(),
            title: self.title.clone(),
            subtitle: self.subtitle.clone(),
            body: self.body.clone(),
            attachments,
            user_info,
            thread_identifier: self.thread_identifier.clone(),
            category_identifier: self.category_identifier.clone(),
            summary_argument: self.summary_argument.clone(),
            summary_argument_count: self.summary_argument_count,
            launch_image_name: self.launch_image_name.clone(),
            badge: self.badge,
            target_content_identifier: self.target_content_identifier.clone(),
            sound: self.sound.clone(),
            interruption_level: self.interruption_level,
            relevance_score: self.relevance_score,
            filter_criteria: self.filter_criteria.clone(),
        }
    }
}

/// Builds an attachment; `T` holds the options of its kind of file.
pub struct AttachmentBuilder<T> {
    identifier: Option<String>,
    url: String,
    options: T,
}

/// The state of an attachment builder.
pub struct AttachmentDraft<T> {
    /// The unique identifier of the attachment.
    pub identifier: Option<String>,
    /// The URL of the file, serialized.
    pub url: String,
    /// The options of the attachment.
    pub options: T,
}

impl<T> View for AttachmentBuilder<T> {
    type V = AttachmentDraft<T>;

    closed spec fn view(&self) -> AttachmentDraft<T> {
        AttachmentDraft { identifier: self.identifier, url: self.url, options: self.options }
    }
}

impl<T> AttachmentBuilder<T> {
    /// The unique identifier of the attachment.
    pub fn identifier(&mut self, identifier: String) -> (r: &mut Self)
        ensures
            r@ == (AttachmentDraft { identifier: Some(identifier), ..old(self)@ }),
            *final(self) == *final(r),
    {
        self.identifier = Some(identifier);
        self
    }

    /// The identifier given, or a random version 4 UUID.
    fn generate_identifier(&self) -> (r: String)
        ensures
            identifier_given_or_random(self@.identifier, r),
    {
        identifier_or_random(&self.identifier)
    }
}

impl<T: UnifiedAttachmentOptions> AttachmentBuilder<T> {
    /// Names the encoded format, for a URL without a file extension.
    pub fn format(&mut self, format: T::Format) -> (r: &mut Self)
        ensures
            r@ == (AttachmentDraft {
                options: old(self)@.options.with_format(format),
                ..old(self)@
            }),
            *final(self) == *final(r),
    {
        self.options.set_format(format);
        self
    }
}

impl<T: ThumbnailedAttachmentOptions> AttachmentBuilder<T> {
    /// Shows a part of the attachment as the thumbnail: `origin` is its
    /// lower left corner and `size` its width and height, in thousandths of
    /// the attachment's width and height.
    pub fn crop_thumbnail(&mut self, origin: (u16, u16), size: (u16, u16)) -> (r: &mut Self)
        ensures
            r@ == (AttachmentDraft {
                options: old(self)@.options.with_crop(ThumbnailClippingRect { origin, size }),
                ..old(self)@
            }),
            *final(self) == *final(r),
    {
        self.options.crop_thumbnail(ThumbnailClippingRect { origin, size });
        self
    }

    /// Hides or shows the thumbnail of the attachment.
    pub fn hide_thumbnail(&mut self, hide: bool) -> (r: &mut Self)
        ensures
            r@ == (AttachmentDraft { options: old(self)@.options.with_hidden(hide), ..old(self)@ }),
            *final(self) == *final(r),
    {
        self.options.hide_thumbnail(hide);
        self
    }
}

impl AttachmentBuilder<VideoAttachmentOptions> {
    /// A builder of a video attachment of the file at `url`.
    pub fn video(url: String) -> (r: AttachmentBuilder<VideoAttachmentOptions>)
        ensures
            r@.identifier is None,
            r@.url == url,
            r@.options.format is None,
            r@.options.thumbnail_time is None,
            r@.options.thumbnail_crop is None,
            r@.options.thumbnail_hide is None,
    {
        AttachmentBuilder { url, options: VideoAttachmentOptions::default(), identifier: None }
    }

    /// The thumbnail shows the first frame of the video.
    pub fn thumbnail_from_start(&mut self) -> (r: &mut Self)
        ensures
            r@ == (AttachmentDraft {
                options: VideoAttachmentOptions {
                    thumbnail_time: Some(VideoTime::Start),
                    ..old(self)@.options
                },
                ..old(self)@
            }),
            *final(self) == *final(r),
    {
        self.options.thumbnail_time = Some(VideoTime::Start);
        self
    }

    /// The thumbnail shows the last frame of the video.
    pub fn thumbnail_from_end(&mut self) -> (r: &mut Self)
        ensures
            r@ == (AttachmentDraft {
                options: VideoAttachmentOptions {
                    thumbnail_time: Some(VideoTime::End),
                    ..old(self)@.options
                },
                ..old(self)@
            }),
            *final(self) == *final(r),
    {
        self.options.thumbnail_time = Some(VideoTime::End);
        self
    }

    /// The thumbnail shows the frame at `dur` into the video.
    pub fn thumbnail_time(&mut self, dur: Duration) -> (r: &mut Self)
        ensures
            r@ == (AttachmentDraft {
                options: VideoAttachmentOptions {
                    thumbnail_time: Some(VideoTime::Time(dur)),
                    ..old(self)@.options
                },
                ..old(self)@
            }),
            *final(self) == *final(r),
    {
        self.options.thumbnail_time = Some(VideoTime::Time(dur));
        self
    }

    /// The attachment.
    pub fn build(self) -> (r: Attachment)
        ensures
            identifier_given_or_random(self@.identifier, r.identifier),
            r.url == self@.url,
            r.options == Some(AttachmentOptions::Video(self@.options)),
    {
        Attachment {
            identifier: self.generate_identifier(),
            url: self.url,
            options: Some(AttachmentOptions::Video(self.options)),
        }
    }
}

impl AttachmentBuilder<AudioAttachmentOptions> {
    /// A builder of an audio attachment of the file at `url`.
    pub fn audio(url: String) -> (r: AttachmentBuilder<AudioAttachmentOptions>)
        ensures
            r@.identifier is None,
            r@.url == url,
            r@.options.format is None,
    {
        AttachmentBuilder { url, options: AudioAttachmentOptions::default(), identifier: None }
    }

    /// The attachment.
    pub fn build(self) -> (r: Attachment)
        ensures
            identifier_given_or_random(self@.identifier, r.identifier),
            r.url == self@.url,
            r.options == Some(AttachmentOptions::Audio(self@.options)),
    {
        Attachment {
            identifier: self.generate_identifier(),
            url: self.url,
            options: Some(AttachmentOptions::Audio(self.options)),
        }
    }
}

impl AttachmentBuilder<ImageAttachmentOptions> {
    /// A builder of a still image attachment of the file at `url`.
    pub fn image(url: String) -> (r: AttachmentBuilder<ImageAttachmentOptions>)
        ensures
            r@.identifier is None,
            r@.url == url,
            r@.options.format is None,
            r@.options.thumbnail_crop is None,
            r@.options.thumbnail_hide is None,
    {
        AttachmentBuilder { url, options: ImageAttachmentOptions::default(), identifier: None }
    }

    /// The attachment.
    pub fn build(self) -> (r: Attachment)
        ensures
            identifier_given_or_random(self@.identifier, r.identifier),
            r.url == self@.url,
            r.options == Some(AttachmentOptions::Image(self@.options)),
    {
        Attachment {
            identifier: self.generate_identifier(),
            url: self.url,
            options: Some(AttachmentOptions::Image(self.options)),
        }
    }
}

impl AttachmentBuilder<AnimatedImageAttachmentOptions> {
    /// A builder of an animated image attachment of the file at `url`.
    pub fn animated_image(url: String) -> (r: AttachmentBuilder<AnimatedImageAttachmentOptions>)
        ensures
            r@.identifier is None,
            r@.url == url,
            r@.options.format is None,
            r@.options.thumbnail_frame is None,
            r@.options.thumbnail_crop is None,
            r@.options.thumbnail_hide is None,
    {
        AttachmentBuilder {
            url,
            options: AnimatedImageAttachmentOptions::default(),
            identifier: None,
        }
    }

    /// The thumbnail shows the frame of number `frame_number`.
    pub fn thumbnail_frame(&mut self, frame_number: u64) -> (r: &mut Self)
        ensures
            r@ == (AttachmentDraft {
                options: AnimatedImageAttachmentOptions {
                    thumbnail_frame: Some(frame_number),
                    ..old(self)@.options
                },
                ..old(self)@
            }),
            *final(self) == *final(r),
    {
        self.options.thumbnail_frame = Some(frame_number);
        self
    }

    /// The attachment.
    pub fn build(self) -> (r: Attachment)
        ensures
            identifier_given_or_random(self@.identifier, r.identifier),
            r.url == self@.url,
            r.options == Some(AttachmentOptions::AnimatedImage(self@.options)),
    {
        Attachment {
            identifier: self.generate_identifier(),
            url: self.url,
            options: Some(AttachmentOptions::AnimatedImage(self.options)),
        }
    }
}

/// Builds a notification category.
pub struct CategoryBuilder {
    identifier: Option<String>,
    actions: Vec<Action>,
    intent_identifiers: Vec<String>,
    options: CategoryOptions,
    hidden_preview_body_placeholder: Option<String>,
    category_summary_format: Option<String>,
}

/// The state of a category builder.
pub struct CategoryDraft {
    /// The unique identifier of the category.
    pub identifier: Option<String>,
    /// The actions displayed with notifications of this type.
    pub actions: Seq<Action>,
    /// The intents related to notifications of this category.
    pub intent_identifiers: Seq<String>,
    /// How notifications of this type are handled.
    pub options: CategoryOptions,
    /// The text shown where previews are disabled.
    pub hidden_preview_body_placeholder: Option<String>,
    /// The format of the summary of grouped notifications.
    pub category_summary_format: Option<String>,
}

impl View for CategoryBuilder {
    type V = CategoryDraft;

    closed spec fn view(&self) -> CategoryDraft {
        CategoryDraft {
            identifier: self.identifier,
            actions: self.actions@,
            intent_identifiers: self.intent_identifiers@,
            options: self.options,
            hidden_preview_body_placeholder: self.hidden_preview_body_placeholder,
            category_summary_format: self.category_summary_format,
        }
    }
}

impl CategoryBuilder {
    /// A builder of a category with no options, actions or intents.
    pub fn new() -> (r: CategoryBuilder)
        ensures
            r@ == (CategoryDraft {
                identifier: None,
                actions: Seq::empty(),
                intent_identifiers: Seq::empty(),
                options: CategoryOptions { bits: 0 },
                hidden_preview_body_placeholder: None,
                category_summary_format: None,
            }),
    {
        let r = CategoryBuilder {
            options: CategoryOptions::empty(),
            identifier: None,
            actions: Vec::new(),
            intent_identifiers: Vec::new(),
            hidden_preview_body_placeholder: None,
            category_summary_format: None,
        };
        assert(r@.actions =~= Seq::<Action>::empty());
        assert(r@.intent_identifiers =~= Seq::<String>::empty());
        r
    }

    /// The unique identifier of the category.
    pub fn identifier(&mut self, identifier: String) -> (r: &mut Self)
        ensures
            r@ == (CategoryDraft { identifier: Some(identifier), ..old(self)@ }),
            *final(self) == *final(r),
    {
        self.identifier = Some(identifier);
        self
    }

    /// Adds the identifier of an intent related to notifications of this
    /// category.
    pub fn intent_identifier(&mut self, identifier: String) -> (r: &mut Self)
        ensures
            r@ == (CategoryDraft {
                intent_identifiers: old(self)@.intent_identifiers.push(identifier),
                ..old(self)@
            }),
            *final(self) == *final(r),
    {
        self.intent_identifiers.push(identifier);
        self
    }

    /// The text shown where previews are disabled.
    pub fn hidden_preview_body_placeholder(&mut self, placeholder: String) -> (r: &mut Self)
        ensures
            r@ == (CategoryDraft {
                hidden_preview_body_placeholder: Some(placeholder),
                ..old(self)@
            }),
            *final(self) == *final(r),
    {
        self.hidden_preview_body_placeholder = Some(placeholder);
        self
    }

    /// The format of the summary of grouped notifications.
    pub fn category_summary_format(&mut self, format: String) -> (r: &mut Self)
        ensures
            r@ == (CategoryDraft { category_summary_format: Some(format), ..old(self)@ }),
            *final(self) == *final(r),
    {
        self.category_summary_format = Some(format);
        self
    }

    /// Dismiss actions go to the delegate of the notification center.
    pub fn has_custom_dismiss_action(&mut self) -> (r: &mut Self)
        ensures
            r@ == (CategoryDraft {
                options: CategoryOptions {
                    bits: old(self)@.options.bits | CategoryOptions::CUSTOM_DISMISS_ACTION,
                },
                ..old(self)@
            }),
            *final(self) == *final(r),
    {
        let added = CategoryOptions { bits: CategoryOptions::CUSTOM_DISMISS_ACTION };
        self.options = self.options.union(added);
        self
    }

    /// CarPlay may display notifications of this type.
    pub fn display_in_car_play(&mut self) -> (r: &mut Self)
        ensures
            r@ == (CategoryDraft {
                options: CategoryOptions {
                    bits: old(self)@.options.bits | CategoryOptions::ALLOW_IN_CAR_PLAY,
                },
                ..old(self)@
            }),
            *final(self) == *final(r),
    {
        let added = CategoryOptions { bits: CategoryOptions::ALLOW_IN_CAR_PLAY };
        self.options = self.options.union(added);
        self
    }

    /// The title shows even where previews are disabled.
    pub fn show_title_when_hidden(&mut self) -> (r: &mut Self)
        ensures
            r@ == (CategoryDraft {
                options: CategoryOptions {
                    bits: old(self)@.options.bits | CategoryOptions::HIDDEN_PREVIEW_SHOW_TITLE,
                },
                ..old(self)@
            }),
            *final(self) == *final(r),
    {
        let added = CategoryOptions { bits: CategoryOptions::HIDDEN_PREVIEW_SHOW_TITLE };
        self.options = self.options.union(added);
        self
    }

    /// The subtitle shows even where previews are disabled.
    pub fn show_subtitle_when_hidden(&mut self) -> (r: &mut Self)
        ensures
            r@ == (CategoryDraft {
                options: CategoryOptions {
                    bits: old(self)@.options.bits | CategoryOptions::HIDDEN_PREVIEW_SHOW_SUBTITLE,
                },
                ..old(self)@
            }),
            *final(self) == *final(r),
    {
        let added = CategoryOptions { bits: CategoryOptions::HIDDEN_PREVIEW_SHOW_SUBTITLE };
        self.options = self.options.union(added);
        self
    }

    /// Siri may read incoming messages out loud.
    pub fn allow_announcements(&mut self) -> (r: &mut Self)
        ensures
            r@ == (CategoryDraft {
                options: CategoryOptions {
                    bits: old(self)@.options.bits | CategoryOptions::ALLOW_ANNOUNCEMENT,
                },
                ..old(self)@
            }),
            *final(self) == *final(r),
    {
        let added = CategoryOptions { bits: CategoryOptions::ALLOW_ANNOUNCEMENT };
        self.options = self.options.union(added);
        self
    }

    /// Adds an action displayed with notifications of this type.
    pub fn action(&mut self, action: Action) -> (r: &mut Self)
        ensures
            r@ == (CategoryDraft { actions: old(self)@.actions.push(action), ..old(self)@ }),
            *final(self) == *final(r),
    {
        self.actions.push(action);
        self
    }

    /// The category: each field as set, and a random version 4 UUID as
    /// the identifier where none was given.
    pub fn build(&self) -> (r: Category)
        ensures
            identifier_given_or_random(self@.identifier, r.identifier),
            r.actions@ == self@.actions,
            r.intent_identifiers@ == self@.intent_identifiers,
            r.options == self@.options,
            r.hidden_preview_body_placeholder == self@.hidden_preview_body_placeholder,
            r.category_summary_format == self@.category_summary_format,
    {
        let actions = self.actions.clone();
        let intent_identifiers = self.intent_identifiers.clone();
        assert(actions@ =~= self.actions@);
        assert(intent_identifiers@ =~= self.intent_identifiers@);
        Category {
            identifier: identifier_or_random(&self.identifier),
            actions,
            intent_identifiers,
            options: self.options,
            hidden_preview_body_placeholder: self.hidden_preview_body_placeholder.clone(),
            category_summary_format: self.category_summary_format.clone(),
        }
    }
}

/// Builds an action.
pub struct ActionBuilder {
    identifier: Option<String>,
    title: String,
    icon: Option<ActionIcon>,
    options: ActionOptions,
}

/// The state of an action builder.
pub struct ActionDraft {
    /// The unique identifier of the action.
    pub identifier: Option<String>,
    /// The localized title of the action.
    pub title: String,
    /// The icon of the action.
    pub icon: Option<ActionIcon>,
    /// The behaviors of the action.
    pub options: ActionOptions,
}

impl View for ActionBuilder {
    type V = ActionDraft;

    closed spec fn view(&self) -> ActionDraft {
        ActionDraft {
            identifier: self.identifier,
            title: self.title,
            icon: self.icon,
            options: self.options,
        }
    }
}

impl ActionBuilder {
    /// A builder of an action with the title given and no options.
    pub fn new_with_title(title: String) -> (r: Self)
        ensures
            r@ == (ActionDraft {
                identifier: None,
                title,
                icon: None,
                options: ActionOptions { bits: 0 },
            }),
    {
        Self { identifier: None, title, icon: None, options: ActionOptions::empty() }
    }

    /// The unique identifier of the action.
    pub fn identifier(&mut self, identifier: String) -> (r: &mut Self)
        ensures
            r@ == (ActionDraft { identifier: Some(identifier), ..old(self)@ }),
            *final(self) == *final(r),
    {
        self.identifier = Some(identifier);
        self
    }

    /// The icon is an image of the app's bundle.
    pub fn bundle_image(&mut self, image_name: String) -> (r: &mut Self)
        ensures
            r@ == (ActionDraft {
                icon: Some(ActionIcon::TemplateImageName(image_name)),
                ..old(self)@
            }),
            *final(self) == *final(r),
    {
        self.icon = Some(ActionIcon::TemplateImageName(image_name));
        self
    }

    /// The icon is a system symbol image.
    pub fn system_image(&mut self, image_name: String) -> (r: &mut Self)
        ensures
            r@ == (ActionDraft {
                icon: Some(ActionIcon::SystemImageName(image_name)),
                ..old(self)@
            }),
            *final(self) == *final(r),
    {
        self.icon = Some(ActionIcon::SystemImageName(image_name));
        self
    }

    /// The action can be performed only on an unlocked device.
    pub fn require_authentication(&mut self) -> (r: &mut Self)
        ensures
            r@ == (ActionDraft {
                options: ActionOptions {
                    bits: old(self)@.options.bits | ActionOptions::AUTHENTICATION_REQUIRED,
                },
                ..old(self)@
            }),
            *final(self) == *final(r),
    {
        let added = ActionOptions { bits: ActionOptions::AUTHENTICATION_REQUIRED };
        self.options = self.options.union(added);
        self
    }

    /// The action performs a destructive task.
    pub fn destructive(&mut self) -> (r: &mut Self)
        ensures
            r@ == (ActionDraft {
                options: ActionOptions {
                    bits: old(self)@.options.bits | ActionOptions::DESTRUCTIVE,
                },
                ..old(self)@
            }),
            *final(self) == *final(r),
    {
        let added = ActionOptions { bits: ActionOptions::DESTRUCTIVE };
        self.options = self.options.union(added);
        self
    }

    /// The action launches the app in the foreground.
    pub fn foreground(&mut self) -> (r: &mut Self)
        ensures
            r@ == (ActionDraft {
                options: ActionOptions {
                    bits: old(self)@.options.bits | ActionOptions::FOREGROUND,
                },
                ..old(self)@
            }),
            *final(self) == *final(r),
    {
        let added = ActionOptions { bits: ActionOptions::FOREGROUND };
        self.options = self.options.union(added);
        self
    }

    /// The action: each field as set, and a random version 4 UUID as
    /// the identifier where none was given.
    pub fn build(self) -> (r: Action)
        ensures
            identifier_given_or_random(self@.identifier, r.identifier),
            r.title == self@.title,
            r.icon == self@.icon,
            r.options == self@.options,
    {
        let identifier = identifier_or_random(&self.identifier);
        Action { identifier, title: self.title, icon: self.icon, options: self.options }
    }
}

} // verus!
