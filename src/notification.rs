//! Notifications of the legacy `NSUserNotificationCenter`: their options
//! dictionary, and the response read back from the one it returns.
use crate::error::NotificationError;
use crate::text::{append_signed_decimal, join, joined, signed_decimal};
use vstd::prelude::*;
use vstd::string::StringExecFns;

verus! {

/// The actions offered through the main button of a notification.
#[derive(Clone, Debug)]
pub enum MainButton<'a> {
    /// A single action with the name given.
    SingleAction(&'a str),
    /// A dropdown with the title given, listing actions by name.
    DropdownActions(&'a str, &'a [&'a str]),
    /// A text field with the placeholder given.
    Response(&'a str),
}

/// The sound of a notification: the default one, or a custom one by name.
#[derive(Clone, Debug)]
pub enum Sound {
    /// The sound named `NSUserNotificationDefaultSoundName`.
    Default,
    /// A custom sound.
    Custom(String),
}

/// A notification with its options.
pub struct Notification<'a> {
    title: &'a str,
    subtitle: Option<&'a str>,
    message: &'a str,
    main_button: Option<MainButton<'a>>,
    close_button: Option<&'a str>,
    app_icon: Option<&'a str>,
    content_image: Option<&'a str>,
    delivery_date: Option<i64>,
    sound: Option<Sound>,
    asynchronous: Option<bool>,
    wait_for_click: bool,
}

/// The options of a notification.
pub struct NotificationFields<'a> {
    pub title: &'a str,
    pub subtitle: Option<&'a str>,
    pub message: &'a str,
    pub main_button: Option<MainButton<'a>>,
    pub close_button: Option<&'a str>,
    pub app_icon: Option<&'a str>,
    pub content_image: Option<&'a str>,
    /// When the notification is delivered, in seconds since the Unix epoch.
    pub delivery_date: Option<i64>,
    pub sound: Option<Sound>,
    pub asynchronous: Option<bool>,
    pub wait_for_click: bool,
}

impl<'a> View for Notification<'a> {
    type V = NotificationFields<'a>;

    closed spec fn view(&self) -> NotificationFields<'a> {
        NotificationFields {
            title: self.title,
            subtitle: self.subtitle,
            message: self.message,
            main_button: self.main_button,
            close_button: self.close_button,
            app_icon: self.app_icon,
            content_image: self.content_image,
            delivery_date: self.delivery_date,
            sound: self.sound,
            asynchronous: self.asynchronous,
            wait_for_click: self.wait_for_click,
        }
    }
}

impl<'a> Notification<'a> {
    /// A notification with an empty title and message and no options.
    pub fn new() -> (r: Self)
        ensures
            r@ == (NotificationFields {
                title: "",
                subtitle: None,
                message: "",
                main_button: None,
                close_button: None,
                app_icon: None,
                content_image: None,
                delivery_date: None,
                sound: None,
                asynchronous: None,
                wait_for_click: false,
            }),
    {
        Notification {
            title: "",
            subtitle: None,
            message: "",
            main_button: None,
            close_button: None,
            app_icon: None,
            content_image: None,
            delivery_date: None,
            sound: None,
            asynchronous: None,
            wait_for_click: false,
        }
    }

    /// The title.
    pub fn title(&mut self, title: &'a str) -> (r: &mut Self)
        ensures
            r@ == (NotificationFields { title: title, ..old(self)@ }),
            *final(self) == *final(r),
    {
        self.title = title;
        self
    }

    /// The subtitle.
    pub fn subtitle(&mut self, subtitle: &'a str) -> (r: &mut Self)
        ensures
            r@ == (NotificationFields { subtitle: Some(subtitle), ..old(self)@ }),
            *final(self) == *final(r),
    {
        self.subtitle = Some(subtitle);
        self
    }

    /// The subtitle, or none.
    pub fn maybe_subtitle(&mut self, subtitle: Option<&'a str>) -> (r: &mut Self)
        ensures
            r@ == (NotificationFields { subtitle: subtitle, ..old(self)@ }),
            *final(self) == *final(r),
    {
        self.subtitle = subtitle;
        self
    }

    /// The message.
    pub fn message(&mut self, message: &'a str) -> (r: &mut Self)
        ensures
            r@ == (NotificationFields { message: message, ..old(self)@ }),
            *final(self) == *final(r),
    {
        self.message = message;
        self
    }

    /// The actions offered through a main button.
    pub fn main_button(&mut self, main_button: MainButton<'a>) -> (r: &mut Self)
        ensures
            r@ == (NotificationFields { main_button: Some(main_button), ..old(self)@ }),
            *final(self) == *final(r),
    {
        self.main_button = Some(main_button);
        self
    }

    /// A close button with the name given.
    pub fn close_button(&mut self, close_button: &'a str) -> (r: &mut Self)
        ensures
            r@ == (NotificationFields { close_button: Some(close_button), ..old(self)@ }),
            *final(self) == *final(r),
    {
        self.close_button = Some(close_button);
        self
    }

    /// An icon shown on the left side, by its path.
    pub fn app_icon(&mut self, app_icon: &'a str) -> (r: &mut Self)
        ensures
            r@ == (NotificationFields { app_icon: Some(app_icon), ..old(self)@ }),
            *final(self) == *final(r),
    {
        self.app_icon = Some(app_icon);
        self
    }

    /// An image shown on the right side, by its path.
    pub fn content_image(&mut self, content_image: &'a str) -> (r: &mut Self)
        ensures
            r@ == (NotificationFields { content_image: Some(content_image), ..old(self)@ }),
            *final(self) == *final(r),
    {
        self.content_image = Some(content_image);
        self
    }

    /// Delivers the notification at a later time, in seconds since the Unix
    /// epoch.
    pub fn delivery_date(&mut self, delivery_date: i64) -> (r: &mut Self)
        ensures
            r@ == (NotificationFields { delivery_date: Some(delivery_date), ..old(self)@ }),
            *final(self) == *final(r),
    {
        self.delivery_date = Some(delivery_date);
        self
    }

    /// Plays the default sound upon delivery.
    pub fn default_sound(&mut self) -> (r: &mut Self)
        ensures
            r@ == (NotificationFields { sound: Some(Sound::Default), ..old(self)@ }),
            *final(self) == *final(r),
    {
        self.sound = Some(Sound::Default);
        self
    }

    /// Plays a sound upon delivery.
    pub fn sound(&mut self, sound: Sound) -> (r: &mut Self)
        ensures
            r@ == (NotificationFields { sound: Some(sound), ..old(self)@ }),
            *final(self) == *final(r),
    {
        self.sound = Some(sound);
        self
    }

    /// Plays a sound upon delivery, or none.
    pub fn maybe_sound(&mut self, sound: Option<Sound>) -> (r: &mut Self)
        ensures
            r@ == (NotificationFields { sound: sound, ..old(self)@ }),
            *final(self) == *final(r),
    {
        self.sound = sound;
        self
    }

    /// Delivers without waiting for an interaction.
    pub fn asynchronous(&mut self, asynchronous: bool) -> (r: &mut Self)
        ensures
            r@ == (NotificationFields { asynchronous: Some(asynchronous), ..old(self)@ }),
            *final(self) == *final(r),
    {
        self.asynchronous = Some(asynchronous);
        self
    }

    /// Waits for a click on the notification.
    pub fn wait_for_click(&mut self, click: bool) -> (r: &mut Self)
        ensures
            r@ == (NotificationFields { wait_for_click: click, ..old(self)@ }),
            *final(self) == *final(r),
    {
        self.wait_for_click = click;
        self
    }
}

/// The label of the main button `b`, or the empty text.
pub open spec fn main_button_label(b: Option<MainButton>) -> Seq<char> {
    match b {
        Some(MainButton::SingleAction(l)) => l@,
        Some(MainButton::DropdownActions(l, _)) => l@,
        Some(MainButton::Response(r)) => r@,
        None => Seq::empty(),
    }
}

/// The dropdown actions of the main button `b`, joined with commas.
pub open spec fn main_button_actions(b: Option<MainButton>) -> Seq<char> {
    match b {
        Some(MainButton::DropdownActions(_, a)) => joined(a@.map_values(|p: &str| p@), ","@),
        _ => Seq::empty(),
    }
}

/// `"yes"` where `b` holds, else `otherwise`.
pub open spec fn yes_or(b: bool, otherwise: Seq<char>) -> Seq<char> {
    if b {
        "yes"@
    } else {
        otherwise
    }
}

/// The text of `o`, or the empty text.
pub open spec fn text_or_empty(o: Option<&str>) -> Seq<char> {
    match o {
        Some(t) => t@,
        None => Seq::empty(),
    }
}

/// The sound name of `s`, or the empty text.
pub open spec fn sound_name(s: Option<Sound>) -> Seq<char> {
    match s {
        Some(Sound::Custom(n)) => n@,
        Some(Sound::Default) => "NSUserNotificationDefaultSoundName"@,
        None => Seq::empty(),
    }
}

/// The options dictionary of the notification `n`: a text value for each of
/// ten keys, the empty text or `"no"` where an option is not set.
pub open spec fn dictionary_of(n: NotificationFields) -> Seq<(Seq<char>, Seq<char>)> {
    seq![
        ("mainButtonLabel"@, main_button_label(n.main_button)),
        ("actions"@, main_button_actions(n.main_button)),
        ("closeButtonLabel"@, text_or_empty(n.close_button)),
        ("appIcon"@, text_or_empty(n.app_icon)),
        ("contentImage"@, text_or_empty(n.content_image)),
        ("response"@, yes_or(n.main_button matches Some(MainButton::Response(_)), Seq::empty())),
        ("deliveryDate"@, match n.delivery_date {
            Some(d) => signed_decimal(d as int),
            None => Seq::empty(),
        }),
        ("asynchronous"@, yes_or(n.asynchronous == Some(true), "no"@)),
        ("sound"@, sound_name(n.sound)),
        ("click"@, yes_or(n.wait_for_click, "no"@)),
    ]
}

/// The views of the keys and values of `d`.
pub open spec fn entries_view(d: Seq<(&str, String)>) -> Seq<(Seq<char>, Seq<char>)> {
    d.map_values(|e: (&str, String)| (e.0@, e.1@))
}

fn text_of(o: Option<&str>) -> (r: String)
    ensures
        r@ == text_or_empty(o),
{
    match o {
        Some(t) => t.to_string(),
        None => String::new(),
    }
}

fn yes_or_text(b: bool, otherwise: &str) -> (r: String)
    ensures
        r@ == yes_or(b, otherwise@),
{
    proof {
        reveal_strlit("yes");
    }
    if b {
        "yes".to_string()
    } else {
        otherwise.to_string()
    }
}

impl<'a> Notification<'a> {
    /// The title.
    pub fn title_text(&self) -> (r: &'a str)
        ensures
            r == self@.title,
    {
        self.title
    }

    /// The subtitle, if one was set.
    pub fn subtitle_text(&self) -> (r: Option<&'a str>)
        ensures
            r == self@.subtitle,
    {
        self.subtitle
    }

    /// The message.
    pub fn message_text(&self) -> (r: &'a str)
        ensures
            r == self@.message,
    {
        self.message
    }

    /// The options dictionary handed to the native notification center.
    pub fn to_dictionary(&self) -> (r: Vec<(&'static str, String)>)
        ensures
            entries_view(r@) == dictionary_of(self@),
    {
        let (label, actions, is_response): (&str, String, bool) = match &self.main_button {
            Some(MainButton::SingleAction(l)) => (l, String::new(), false),
            Some(MainButton::DropdownActions(l, a)) => (l, join(a, ","), false),
            Some(MainButton::Response(r)) => (r, String::new(), true),
            None => ("", String::new(), false),
        };
        proof {
            reveal_strlit("");
            reveal_strlit("no");
            reveal_strlit(",");
            reveal_strlit("NSUserNotificationDefaultSoundName");
        }
        let sound = match &self.sound {
            Some(Sound::Custom(name)) => name.clone(),
            Some(Sound::Default) => "NSUserNotificationDefaultSoundName".to_string(),
            None => String::new(),
        };
        let mut date = String::new();
        if let Some(d) = self.delivery_date {
            append_signed_decimal(&mut date, d);
        }
        let asynchronous = match self.asynchronous {
            Some(true) => true,
            _ => false,
        };
        let r = vec![
            ("mainButtonLabel", label.to_string()),
            ("actions", actions),
            ("closeButtonLabel", text_of(self.close_button)),
            ("appIcon", text_of(self.app_icon)),
            ("contentImage", text_of(self.content_image)),
            ("response", yes_or_text(is_response, "")),
            ("deliveryDate", date),
            ("asynchronous", yes_or_text(asynchronous, "no")),
            ("sound", sound),
            ("click", yes_or_text(self.wait_for_click, "no")),
        ];
        let ghost e = entries_view(r@);
        let ghost d = dictionary_of(self@);
        assert(e[0] == d[0]);
        assert(e[1] == d[1]);
        assert(e[2] == d[2]);
        assert(e[5] == d[5]);
        assert(e[6] == d[6]);
        assert(e[7] == d[7]);
        assert(e[8] == d[8]);
        assert(e[9] == d[9]);
        assert(entries_view(r@) =~= dictionary_of(self@));
        r
    }
}

/// How the user answered a notification.
#[derive(Debug)]
pub enum NotificationResponse {
    /// No interaction happened.
    NoInteraction,
    /// The user clicked the action button of the name given.
    ActionButton(String),
    /// The user clicked the close button of the name given.
    CloseButton(String),
    /// The user clicked the notification itself.
    Click,
    /// The user submitted the text given in the text field.
    Reply(String),
}

/// The value of the first entry of `d` with key `k`, if there is one.
pub open spec fn lookup(d: Seq<(String, String)>, k: Seq<char>) -> Option<Seq<char>>
    decreases d.len(),
{
    if d.len() == 0 {
        None
    } else if d[0].0@ == k {
        Some(d[0].1@)
    } else {
        lookup(d.drop_first(), k)
    }
}

/// The response that the dictionary `d` reports: the activation type picks
/// the kind of response, and the activation value, or the empty text, is
/// its name or text.
pub open spec fn response_of(d: Seq<(String, String)>, r: NotificationResponse) -> bool {
    let kind = lookup(d, "activationType"@);
    let value = match lookup(d, "activationValue"@) {
        Some(v) => v,
        None => Seq::empty(),
    };
    if kind == Some("actionClicked"@) {
        r matches NotificationResponse::ActionButton(s) && s@ == value
    } else if kind == Some("closeClicked"@) {
        r matches NotificationResponse::CloseButton(s) && s@ == value
    } else if kind == Some("replied"@) {
        r matches NotificationResponse::Reply(s) && s@ == value
    } else if kind == Some("contentsClicked"@) {
        r is Click
    } else {
        r is NoInteraction
    }
}

fn find(d: &Vec<(String, String)>, k: &str) -> (r: Option<String>)
    ensures
        r is Some <==> lookup(d@, k@) is Some,
        r is Some ==> r->0@ == lookup(d@, k@)->0,
{
    let key = k.to_string();
    let mut i: usize = 0;
    assert(d@.subrange(0, d@.len() as int) =~= d@);
    while i < d.len()
        invariant
            i <= d@.len(),
            key@ == k@,
            lookup(d@, k@) == lookup(d@.subrange(i as int, d@.len() as int), k@),
        decreases d@.len() - i,
    {
        let ghost rest = d@.subrange(i as int, d@.len() as int);
        assert(rest.drop_first() =~= d@.subrange(i + 1, d@.len() as int));
        if d[i].0 == key {
            return Some(d[i].1.clone());
        }
        i = i + 1;
    }
    None
}

impl NotificationResponse {
    /// The response that a dictionary returned by the notification center
    /// reports.
    pub fn from_dictionary(dictionary: &Vec<(String, String)>) -> (r: Self)
        ensures
            response_of(dictionary@, r),
    {
        let kind = find(dictionary, "activationType");
        let value = match find(dictionary, "activationValue") {
            Some(v) => v,
            None => String::new(),
        };
        match kind {
            Some(k) => {
                if k == "actionClicked".to_string() {
                    NotificationResponse::ActionButton(value)
                } else if k == "closeClicked".to_string() {
                    NotificationResponse::CloseButton(value)
                } else if k == "replied".to_string() {
                    NotificationResponse::Reply(value)
                } else if k == "contentsClicked".to_string() {
                    NotificationResponse::Click
                } else {
                    NotificationResponse::NoInteraction
                }
            },
            None => NotificationResponse::NoInteraction,
        }
    }
}

/// Relies on `time::OffsetDateTime::now_utc` and `unix_timestamp`: the
/// current time in seconds since the Unix epoch, which may be any value.
#[verifier::external_body]
fn now_unix() -> (r: i64) {
    time::OffsetDateTime::now_utc().unix_timestamp()
}

impl<'a> Notification<'a> {
    /// Whether the notification may be sent at the time `now`, in seconds
    /// since the Unix epoch: a delivery date must not have passed.
    pub fn check_delivery_date_at(&self, now: i64) -> (r: Result<(), NotificationError>)
        ensures
            r is Ok <==> (self@.delivery_date matches Some(d) ==> d >= now),
            r is Err ==> r->Err_0 is ScheduleInThePast,
    {
        match self.delivery_date {
            Some(d) => {
                if d >= now {
                    Ok(())
                } else {
                    Err(NotificationError::ScheduleInThePast)
                }
            },
            None => Ok(()),
        }
    }

    /// Whether the notification may be sent now: a notification without a
    /// delivery date always may.
    pub fn check_delivery_date(&self) -> (r: Result<(), NotificationError>)
        ensures
            self@.delivery_date is None ==> r is Ok,
            r is Err ==> r->Err_0 is ScheduleInThePast,
    {
        if self.delivery_date.is_none() {
            return Ok(());
        }
        self.check_delivery_date_at(now_unix())
    }

    /// The response of the notification center, read from the dictionary
    /// that it returned: an entry with the key `"error"` means the
    /// notification could not be delivered.
    pub fn read_response(dictionary: &Vec<(String, String)>) -> (r: Result<
        NotificationResponse,
        NotificationError,
    >)
        ensures
            r is Err <==> lookup(dictionary@, "error"@) is Some,
            r is Err ==> r->Err_0 is UnableToDeliver,
            r is Ok ==> response_of(dictionary@, r->Ok_0),
    {
        if find(dictionary, "error").is_some() {
            return Err(NotificationError::UnableToDeliver);
        }
        Ok(NotificationResponse::from_dictionary(dictionary))
    }
}

} // verus!
