//! Notification types, and their conversion into plain descriptions of the
//! native objects that the User Notifications framework is given.
use crate::error::NotificationError;
use crate::os::{feature_available, ApiFeature, AppleOS, AppleVersion};
use crate::un::calendar::{clone_schedule, components_of, schedule_components, DateComponents};
use cron::Schedule;
use vstd::prelude::*;

verus! {

/// A span of time: whole seconds and the nanoseconds past them.
#[derive(Copy, Clone, Debug, PartialEq, Eq, Structural)]
pub struct Duration {
    pub secs: u64,
    pub nanos: u32,
}

impl Duration {
    /// A span of whole seconds.
    pub fn from_secs(secs: u64) -> (r: Duration)
        ensures
            r.secs == secs,
            r.nanos == 0,
    {
        Duration { secs, nanos: 0 }
    }

    /// A span of `secs` seconds and `nanos` nanoseconds, with whole seconds
    /// carried out of `nanos`.
    pub fn new(secs: u64, nanos: u32) -> (r: Duration)
        requires
            secs + nanos / 1_000_000_000 <= u64::MAX,
        ensures
            r.secs == secs + nanos / 1_000_000_000,
            r.nanos == nanos % 1_000_000_000,
    {
        Duration { secs: secs + (nanos / 1_000_000_000) as u64, nanos: nanos % 1_000_000_000 }
    }

    /// The whole seconds of the span.
    pub fn as_secs(&self) -> (r: u64)
        ensures
            r == self.secs,
    {
        self.secs
    }
}

/// The sound played upon delivery of a notification.
///
/// A volume is given in thousandths: 0 is silent, 1000 is full volume.
#[derive(Debug)]
pub enum Sound {
    /// The default sound for notifications.
    Default,
    /// A sound object that represents a custom sound file.
    Named(String),
    /// The default sound used for critical alerts.
    DefaultCriticalSound,
    /// The default critical alert sound at the volume given.
    DefaultCriticalSoundWithVolume(u16),
    /// A custom sound for critical alerts.
    CriticalSoundNamed(String),
    /// A custom sound for critical alerts at the volume given.
    CriticalSoundNamedWithVolume(String, u16),
    /// The default ringtone of an iPhone or iPad.
    DefaultRingtone,
    /// A custom ringtone sound.
    RingtoneSoundNamed(String),
}

impl Clone for Sound {
    fn clone(&self) -> (r: Sound)
        ensures
            r == *self,
    {
        match self {
            Sound::Default => Sound::Default,
            Sound::Named(n) => Sound::Named(n.clone()),
            Sound::DefaultCriticalSound => Sound::DefaultCriticalSound,
            Sound::DefaultCriticalSoundWithVolume(v) => Sound::DefaultCriticalSoundWithVolume(*v),
            Sound::CriticalSoundNamed(n) => Sound::CriticalSoundNamed(n.clone()),
            Sound::CriticalSoundNamedWithVolume(n, v) => Sound::CriticalSoundNamedWithVolume(
                n.clone(),
                *v,
            ),
            Sound::DefaultRingtone => Sound::DefaultRingtone,
            Sound::RingtoneSoundNamed(n) => Sound::RingtoneSoundNamed(n.clone()),
        }
    }
}

/// The native sound constructors of `UNNotificationSound`.
#[derive(Debug)]
pub enum NativeSound {
    Default,
    Named(String),
    DefaultCritical,
    DefaultCriticalWithVolume(u16),
    CriticalNamed(String),
    CriticalNamedWithVolume(String, u16),
    DefaultRingtone,
    RingtoneNamed(String),
}

/// The native sound that plays `s` on `av`: where the OS lacks the API that
/// `s` needs, the default sound.
pub open spec fn native_sound(s: Sound, av: AppleVersion) -> NativeSound {
    match s {
        Sound::Default => NativeSound::Default,
        Sound::Named(n) => if av.0 != AppleOS::WatchOS {
            NativeSound::Named(n)
        } else {
            NativeSound::Default
        },
        Sound::DefaultCriticalSound => if feature_available(av, ApiFeature::DefaultCriticalSound) {
            NativeSound::DefaultCritical
        } else {
            NativeSound::Default
        },
        Sound::DefaultCriticalSoundWithVolume(v) => if feature_available(
            av,
            ApiFeature::DefaultCriticalSound,
        ) {
            NativeSound::DefaultCriticalWithVolume(v)
        } else {
            NativeSound::Default
        },
        Sound::CriticalSoundNamed(n) => if feature_available(av, ApiFeature::NamedCriticalSound) {
            NativeSound::CriticalNamed(n)
        } else {
            NativeSound::Default
        },
        Sound::CriticalSoundNamedWithVolume(n, v) => if feature_available(
            av,
            ApiFeature::NamedCriticalSound,
        ) {
            NativeSound::CriticalNamedWithVolume(n, v)
        } else {
            NativeSound::Default
        },
        Sound::DefaultRingtone => if feature_available(av, ApiFeature::Ringtone) {
            NativeSound::DefaultRingtone
        } else {
            NativeSound::Default
        },
        Sound::RingtoneSoundNamed(n) => if feature_available(av, ApiFeature::Ringtone) {
            NativeSound::RingtoneNamed(n)
        } else {
            NativeSound::Default
        },
    }
}

impl Sound {
    /// The native sound that plays this sound on `av`.
    pub fn to_native(&self, av: AppleVersion) -> (r: NativeSound)
        ensures
            r == native_sound(*self, av),
    {
        match self {
            Sound::Default => NativeSound::Default,
            Sound::Named(n) => {
                if av.0 != AppleOS::WatchOS {
                    NativeSound::Named(n.clone())
                } else {
                    NativeSound::Default
                }
            },
            Sound::DefaultCriticalSound => {
                if av.supports(ApiFeature::DefaultCriticalSound) {
                    NativeSound::DefaultCritical
                } else {
                    NativeSound::Default
                }
            },
            Sound::DefaultCriticalSoundWithVolume(v) => {
                if av.supports(ApiFeature::DefaultCriticalSound) {
                    NativeSound::DefaultCriticalWithVolume(*v)
                } else {
                    NativeSound::Default
                }
            },
            Sound::CriticalSoundNamed(n) => {
                if av.supports(ApiFeature::NamedCriticalSound) {
                    NativeSound::CriticalNamed(n.clone())
                } else {
                    NativeSound::Default
                }
            },
            Sound::CriticalSoundNamedWithVolume(n, v) => {
                if av.supports(ApiFeature::NamedCriticalSound) {
                    NativeSound::CriticalNamedWithVolume(n.clone(), *v)
                } else {
                    NativeSound::Default
                }
            },
            Sound::DefaultRingtone => {
                if av.supports(ApiFeature::Ringtone) {
                    NativeSound::DefaultRingtone
                } else {
                    NativeSound::Default
                }
            },
            Sound::RingtoneSoundNamed(n) => {
                if av.supports(ApiFeature::Ringtone) {
                    NativeSound::RingtoneNamed(n.clone())
                } else {
                    NativeSound::Default
                }
            },
        }
    }
}

/// Supported audio types as attachments.
#[derive(Copy, Clone, Debug, PartialEq, Eq, Hash, Structural)]
pub enum AudioFormat {
    /// Waveform Audio File Format
    WaveformAudio,
    /// MP3
    MP3,
    /// MPEG-4 audio
    MPEG4Audio,
    /// Audio Interchange File Format
    AudioInterchangeFileFormat,
}

/// The Uniform Type Identifier of an audio format.
pub open spec fn audio_uti(f: AudioFormat) -> &'static str {
    match f {
        AudioFormat::WaveformAudio => "com.microsoft.waveform-audio",
        AudioFormat::MP3 => "public.mp3",
        AudioFormat::MPEG4Audio => "public.mpeg-4-audio",
        AudioFormat::AudioInterchangeFileFormat => "public.aiff-audio",
    }
}

impl AudioFormat {
    /// The Uniform Type Identifier of this format.
    pub fn to_uttype(&self) -> (r: &'static str)
        ensures
            r == audio_uti(*self),
    {
        match self {
            AudioFormat::WaveformAudio => "com.microsoft.waveform-audio",
            AudioFormat::MP3 => "public.mp3",
            AudioFormat::MPEG4Audio => "public.mpeg-4-audio",
            AudioFormat::AudioInterchangeFileFormat => "public.aiff-audio",
        }
    }
}

/// Supported video types as attachments.
#[derive(Copy, Clone, Debug, PartialEq, Eq, Hash, Structural)]
pub enum VideoFormat {
    /// MPEG-1 or MPEG-2 movie
    MPEG,
    /// MPEG-2 video
    MPEG2Video,
    /// MPEG-4 video
    MPEG4,
    /// AVI movie format
    AVIMovie,
}

/// The Uniform Type Identifier of a video format.
pub open spec fn video_uti(f: VideoFormat) -> &'static str {
    match f {
        VideoFormat::MPEG => "public.mpeg",
        VideoFormat::MPEG2Video => "public.mpeg-2-video",
        VideoFormat::MPEG4 => "public.mpeg-4",
        VideoFormat::AVIMovie => "public.avi",
    }
}

impl VideoFormat {
    /// The Uniform Type Identifier of this format.
    pub fn to_uttype(&self) -> (r: &'static str)
        ensures
            r == video_uti(*self),
    {
        match self {
            VideoFormat::MPEG => "public.mpeg",
            VideoFormat::MPEG2Video => "public.mpeg-2-video",
            VideoFormat::MPEG4 => "public.mpeg-4",
            VideoFormat::AVIMovie => "public.avi",
        }
    }
}

/// Supported still image types as attachments.
#[derive(Copy, Clone, Debug, PartialEq, Eq, Hash, Structural)]
pub enum ImageFormat {
    /// PNG images
    PNG,
    /// JPEG images
    JPEG,
}

/// The Uniform Type Identifier of a still image format.
pub open spec fn image_uti(f: ImageFormat) -> &'static str {
    match f {
        ImageFormat::PNG => "public.png",
        ImageFormat::JPEG => "public.jpeg",
    }
}

impl ImageFormat {
    /// The Uniform Type Identifier of this format.
    pub fn to_uttype(&self) -> (r: &'static str)
        ensures
            r == image_uti(*self),
    {
        match self {
            ImageFormat::PNG => "public.png",
            ImageFormat::JPEG => "public.jpeg",
        }
    }
}

/// Supported animated image types as attachments.
#[derive(Copy, Clone, Debug, PartialEq, Eq, Hash, Structural)]
pub enum AnimatedImageFormat {
    /// Animated portable network graphics
    PNG,
    /// Animated GIF images
    GIF,
}

/// The Uniform Type Identifier of an animated image format.
pub open spec fn animated_image_uti(f: AnimatedImageFormat) -> &'static str {
    match f {
        AnimatedImageFormat::PNG => "public.png",
        AnimatedImageFormat::GIF => "com.compuserve.gif",
    }
}

impl AnimatedImageFormat {
    /// The Uniform Type Identifier of this format.
    pub fn to_uttype(&self) -> (r: &'static str)
        ensures
            r == animated_image_uti(*self),
    {
        match self {
            AnimatedImageFormat::PNG => "public.png",
            AnimatedImageFormat::GIF => "com.compuserve.gif",
        }
    }
}

/// The moment of an attached video whose frame is the thumbnail.
#[derive(Copy, Clone, Debug, PartialEq, Eq, Structural)]
pub enum VideoTime {
    /// The first frame of the video.
    Start,
    /// The last frame of the video.
    End,
    /// The frame at the given time.
    Time(Duration),
}

/// The area of an attachment shown in its thumbnail.
///
/// Coordinates are in thousandths of the attachment's width and height, with
/// the origin at the lower left corner.
#[derive(Copy, Clone, Debug)]
pub struct ThumbnailClippingRect {
    /// The lower left corner.
    pub origin: (u16, u16),
    /// The width and height.
    pub size: (u16, u16),
}

/// What all the attachment option types share.
pub trait UnifiedAttachmentOptions: Sized {
    /// The encoded formats that the attachment may have.
    type Format;

    /// These options with `format` as the encoded format.
    spec fn with_format(&self, format: Self::Format) -> Self;

    /// Names the encoded format, for a URL without a file extension.
    fn set_format(&mut self, format: Self::Format)
        ensures
            *final(self) == old(self).with_format(format),
    ;
}

/// What the attachment option types with a thumbnail share.
pub trait ThumbnailedAttachmentOptions: Sized {
    /// These options with the thumbnail hidden or shown.
    spec fn with_hidden(&self, hide: bool) -> Self;

    /// These options with the thumbnail cropped to `rect`.
    spec fn with_crop(&self, rect: ThumbnailClippingRect) -> Self;

    /// Hides or shows the thumbnail of the attachment.
    fn hide_thumbnail(&mut self, hide: bool)
        ensures
            *final(self) == old(self).with_hidden(hide),
    ;

    /// Crops the thumbnail to a part of the attachment.
    fn crop_thumbnail(&mut self, rect: ThumbnailClippingRect)
        ensures
            *final(self) == old(self).with_crop(rect),
    ;
}

/// Audio attachment options.
#[derive(Copy, Clone, Debug)]
pub struct AudioAttachmentOptions {
    /// The encoded format, for a URL without a file extension.
    pub format: Option<AudioFormat>,
}

impl Default for AudioAttachmentOptions {
    fn default() -> (r: Self)
        ensures
            r.format is None,
    {
        AudioAttachmentOptions { format: None }
    }
}

impl UnifiedAttachmentOptions for AudioAttachmentOptions {
    type Format = AudioFormat;

    open spec fn with_format(&self, format: AudioFormat) -> Self {
        AudioAttachmentOptions { format: Some(format) }
    }

    fn set_format(&mut self, format: AudioFormat) {
        self.format = Some(format);
    }
}

/// Video attachment options.
#[derive(Copy, Clone, Debug)]
pub struct VideoAttachmentOptions {
    /// The encoded format, for a URL without a file extension.
    pub format: Option<VideoFormat>,
    /// The moment whose frame is the thumbnail.
    pub thumbnail_time: Option<VideoTime>,
    /// The part of the frame shown in the thumbnail.
    pub thumbnail_crop: Option<ThumbnailClippingRect>,
    /// Whether the thumbnail is hidden.
    pub thumbnail_hide: Option<bool>,
}

impl Default for VideoAttachmentOptions {
    fn default() -> (r: Self)
        ensures
            r.format is None,
            r.thumbnail_time is None,
            r.thumbnail_crop is None,
            r.thumbnail_hide is None,
    {
        VideoAttachmentOptions {
            format: None,
            thumbnail_time: None,
            thumbnail_crop: None,
            thumbnail_hide: None,
        }
    }
}

impl UnifiedAttachmentOptions for VideoAttachmentOptions {
    type Format = VideoFormat;

    open spec fn with_format(&self, format: VideoFormat) -> Self {
        VideoAttachmentOptions { format: Some(format), ..*self }
    }

    fn set_format(&mut self, format: VideoFormat) {
        self.format = Some(format);
    }
}

impl ThumbnailedAttachmentOptions for VideoAttachmentOptions {
    open spec fn with_hidden(&self, hide: bool) -> Self {
        VideoAttachmentOptions { thumbnail_hide: Some(hide), ..*self }
    }

    open spec fn with_crop(&self, rect: ThumbnailClippingRect) -> Self {
        VideoAttachmentOptions { thumbnail_crop: Some(rect), ..*self }
    }

    fn hide_thumbnail(&mut self, hide: bool) {
        self.thumbnail_hide = Some(hide);
    }

    fn crop_thumbnail(&mut self, rect: ThumbnailClippingRect) {
        self.thumbnail_crop = Some(rect);
    }
}

/// Still image attachment options.
#[derive(Copy, Clone, Debug)]
pub struct ImageAttachmentOptions {
    /// The encoded format, for a URL without a file extension.
    pub format: Option<ImageFormat>,
    /// The part of the image shown in the thumbnail.
    pub thumbnail_crop: Option<ThumbnailClippingRect>,
    /// Whether the thumbnail is hidden.
    pub thumbnail_hide: Option<bool>,
}

impl Default for ImageAttachmentOptions {
    fn default() -> (r: Self)
        ensures
            r.format is None,
            r.thumbnail_crop is None,
            r.thumbnail_hide is None,
    {
        ImageAttachmentOptions { format: None, thumbnail_crop: None, thumbnail_hide: None }
    }
}

impl UnifiedAttachmentOptions for ImageAttachmentOptions {
    type Format = ImageFormat;

    open spec fn with_format(&self, format: ImageFormat) -> Self {
        ImageAttachmentOptions { format: Some(format), ..*self }
    }

    fn set_format(&mut self, format: ImageFormat) {
        self.format = Some(format);
    }
}

impl ThumbnailedAttachmentOptions for ImageAttachmentOptions {
    open spec fn with_hidden(&self, hide: bool) -> Self {
        ImageAttachmentOptions { thumbnail_hide: Some(hide), ..*self }
    }

    open spec fn with_crop(&self, rect: ThumbnailClippingRect) -> Self {
        ImageAttachmentOptions { thumbnail_crop: Some(rect), ..*self }
    }

    fn hide_thumbnail(&mut self, hide: bool) {
        self.thumbnail_hide = Some(hide);
    }

    fn crop_thumbnail(&mut self, rect: ThumbnailClippingRect) {
        self.thumbnail_crop = Some(rect);
    }
}

/// Animated image attachment options.
#[derive(Copy, Clone, Debug)]
pub struct AnimatedImageAttachmentOptions {
    /// The encoded format, for a URL without a file extension.
    pub format: Option<AnimatedImageFormat>,
    /// The number of the frame shown as the thumbnail.
    pub thumbnail_frame: Option<u64>,
    /// The part of the frame shown in the thumbnail.
    pub thumbnail_crop: Option<ThumbnailClippingRect>,
    /// Whether the thumbnail is hidden.
    pub thumbnail_hide: Option<bool>,
}

impl Default for AnimatedImageAttachmentOptions {
    fn default() -> (r: Self)
        ensures
            r.format is None,
            r.thumbnail_frame is None,
            r.thumbnail_crop is None,
            r.thumbnail_hide is None,
    {
        AnimatedImageAttachmentOptions {
            format: None,
            thumbnail_frame: None,
            thumbnail_crop: None,
            thumbnail_hide: None,
        }
    }
}

impl UnifiedAttachmentOptions for AnimatedImageAttachmentOptions {
    type Format = AnimatedImageFormat;

    open spec fn with_format(&self, format: AnimatedImageFormat) -> Self {
        AnimatedImageAttachmentOptions { format: Some(format), ..*self }
    }

    fn set_format(&mut self, format: AnimatedImageFormat) {
        self.format = Some(format);
    }
}

impl ThumbnailedAttachmentOptions for AnimatedImageAttachmentOptions {
    open spec fn with_hidden(&self, hide: bool) -> Self {
        AnimatedImageAttachmentOptions { thumbnail_hide: Some(hide), ..*self }
    }

    open spec fn with_crop(&self, rect: ThumbnailClippingRect) -> Self {
        AnimatedImageAttachmentOptions { thumbnail_crop: Some(rect), ..*self }
    }

    fn hide_thumbnail(&mut self, hide: bool) {
        self.thumbnail_hide = Some(hide);
    }

    fn crop_thumbnail(&mut self, rect: ThumbnailClippingRect) {
        self.thumbnail_crop = Some(rect);
    }
}

/// Options that change how an attachment is shown.
#[derive(Copy, Clone, Debug)]
pub enum AttachmentOptions {
    /// Audio attachment options
    Audio(AudioAttachmentOptions),
    /// Video attachment options
    Video(VideoAttachmentOptions),
    /// Still image attachment options
    Image(ImageAttachmentOptions),
    /// Animated image attachment options
    AnimatedImage(AnimatedImageAttachmentOptions),
}

/// A file shown alongside a notification.
#[derive(Debug)]
pub struct Attachment {
    /// The unique identifier of the attachment.
    pub identifier: String,
    /// The URL of the file, serialized.
    pub url: String,
    /// How the attachment is shown.
    pub options: Option<AttachmentOptions>,
}

impl Clone for Attachment {
    fn clone(&self) -> (r: Attachment)
        ensures
            r == *self,
    {
        Attachment {
            identifier: self.identifier.clone(),
            url: self.url.clone(),
            options: self.options,
        }
    }
}

/// One entry of the options dictionary of a native attachment.
#[derive(Copy, Clone, Debug)]
pub enum AttachmentOption {
    /// The Uniform Type Identifier of the file.
    TypeHint(&'static str),
    /// Whether the thumbnail is hidden.
    ThumbnailHidden(bool),
    /// The part of the attachment shown in the thumbnail.
    ThumbnailClippingRect(ThumbnailClippingRect),
    /// The number of the animation frame shown as the thumbnail.
    ThumbnailFrame(u64),
    /// The moment of the video shown as the thumbnail.
    ThumbnailTime(VideoTime),
}

/// What the native `UNNotificationAttachment` is made from.
#[derive(Debug)]
pub struct NativeAttachment {
    pub identifier: String,
    pub url: String,
    /// The options dictionary, one entry for each key that is set.
    pub options: Option<Vec<AttachmentOption>>,
}

/// No entry, or the one entry `o`.
pub open spec fn entry_if(present: bool, o: AttachmentOption) -> Seq<AttachmentOption> {
    if present {
        seq![o]
    } else {
        Seq::empty()
    }
}

/// The type hint entry of `o`: present where a format was named.
pub open spec fn type_hint_entry(o: AttachmentOptions) -> Seq<AttachmentOption> {
    match o {
        AttachmentOptions::Audio(a) => entry_if(
            a.format is Some,
            AttachmentOption::TypeHint(audio_uti(a.format->0)),
        ),
        AttachmentOptions::Video(v) => entry_if(
            v.format is Some,
            AttachmentOption::TypeHint(video_uti(v.format->0)),
        ),
        AttachmentOptions::Image(i) => entry_if(
            i.format is Some,
            AttachmentOption::TypeHint(image_uti(i.format->0)),
        ),
        AttachmentOptions::AnimatedImage(a) => entry_if(
            a.format is Some,
            AttachmentOption::TypeHint(animated_image_uti(a.format->0)),
        ),
    }
}

/// Whether the thumbnail of `o` was hidden or shown, if it was said.
pub open spec fn thumbnail_hide_of(o: AttachmentOptions) -> Option<bool> {
    match o {
        AttachmentOptions::Audio(_) => None,
        AttachmentOptions::Video(v) => v.thumbnail_hide,
        AttachmentOptions::Image(i) => i.thumbnail_hide,
        AttachmentOptions::AnimatedImage(a) => a.thumbnail_hide,
    }
}

/// The crop of the thumbnail of `o`, if one was given.
pub open spec fn thumbnail_crop_of(o: AttachmentOptions) -> Option<ThumbnailClippingRect> {
    match o {
        AttachmentOptions::Audio(_) => None,
        AttachmentOptions::Video(v) => v.thumbnail_crop,
        AttachmentOptions::Image(i) => i.thumbnail_crop,
        AttachmentOptions::AnimatedImage(a) => a.thumbnail_crop,
    }
}

/// The thumbnail moment entry of `o`: a frame number of an animation, or a
/// time of a video where `av` takes one.
pub open spec fn thumbnail_time_entry(o: AttachmentOptions, av: AppleVersion) -> Seq<
    AttachmentOption,
> {
    match o {
        AttachmentOptions::AnimatedImage(a) => entry_if(
            a.thumbnail_frame is Some,
            AttachmentOption::ThumbnailFrame(a.thumbnail_frame->0),
        ),
        AttachmentOptions::Video(v) => entry_if(
            v.thumbnail_time is Some && feature_available(av, ApiFeature::ThumbnailTime),
            AttachmentOption::ThumbnailTime(v.thumbnail_time->0),
        ),
        _ => Seq::empty(),
    }
}

/// The options dictionary of a native attachment with options `o` on `av`:
/// type hint, hidden flag, crop, then thumbnail moment, each where it is set.
pub open spec fn native_attachment_options(o: AttachmentOptions, av: AppleVersion) -> Seq<
    AttachmentOption,
> {
    type_hint_entry(o) + entry_if(
        thumbnail_hide_of(o) is Some,
        AttachmentOption::ThumbnailHidden(thumbnail_hide_of(o)->0),
    ) + entry_if(
        thumbnail_crop_of(o) is Some,
        AttachmentOption::ThumbnailClippingRect(thumbnail_crop_of(o)->0),
    ) + thumbnail_time_entry(o, av)
}

impl AttachmentOptions {
    /// The options dictionary of the native attachment on `av`.
    pub fn to_native(&self, av: AppleVersion) -> (r: Vec<AttachmentOption>)
        ensures
            r@ == native_attachment_options(*self, av),
    {
        let mut entries: Vec<AttachmentOption> = Vec::new();
        match self {
            AttachmentOptions::Audio(a) => {
                if let Some(f) = a.format {
                    entries.push(AttachmentOption::TypeHint(f.to_uttype()));
                }
            },
            AttachmentOptions::Video(v) => {
                if let Some(f) = v.format {
                    entries.push(AttachmentOption::TypeHint(f.to_uttype()));
                }
            },
            AttachmentOptions::Image(i) => {
                if let Some(f) = i.format {
                    entries.push(AttachmentOption::TypeHint(f.to_uttype()));
                }
            },
            AttachmentOptions::AnimatedImage(a) => {
                if let Some(f) = a.format {
                    entries.push(AttachmentOption::TypeHint(f.to_uttype()));
                }
            },
        }
        assert(entries@ =~= type_hint_entry(*self));
        let (hide, crop) = match self {
            AttachmentOptions::Audio(_) => (None, None),
            AttachmentOptions::Video(v) => (v.thumbnail_hide, v.thumbnail_crop),
            AttachmentOptions::Image(i) => (i.thumbnail_hide, i.thumbnail_crop),
            AttachmentOptions::AnimatedImage(a) => (a.thumbnail_hide, a.thumbnail_crop),
        };
        assert(hide == thumbnail_hide_of(*self) && crop == thumbnail_crop_of(*self));
        let ghost hinted = entries@;
        if let Some(h) = hide {
            entries.push(AttachmentOption::ThumbnailHidden(h));
        }
        if let Some(c) = crop {
            entries.push(AttachmentOption::ThumbnailClippingRect(c));
        }
        assert(entries@ =~= hinted + entry_if(
            hide is Some,
            AttachmentOption::ThumbnailHidden(hide->0),
        ) + entry_if(crop is Some, AttachmentOption::ThumbnailClippingRect(crop->0)));
        let ghost before = entries@;
        match self {
            AttachmentOptions::AnimatedImage(a) => {
                if let Some(frame) = a.thumbnail_frame {
                    entries.push(AttachmentOption::ThumbnailFrame(frame));
                }
            },
            AttachmentOptions::Video(v) => {
                if let Some(t) = v.thumbnail_time {
                    if av.supports(ApiFeature::ThumbnailTime) {
                        entries.push(AttachmentOption::ThumbnailTime(t));
                    }
                }
            },
            _ => {},
        }
        assert(entries@ =~= before + thumbnail_time_entry(*self, av));
        entries
    }
}

/// `r` is what the native attachment of `a` on `av` is made from.
pub open spec fn is_native_attachment(
    r: NativeAttachment,
    a: Attachment,
    av: AppleVersion,
) -> bool {
    &&& r.identifier == a.identifier
    &&& r.url == a.url
    &&& r.options is Some <==> a.options is Some
    &&& a.options is Some ==> r.options->0@ == native_attachment_options(a.options->0, av)
}

impl Attachment {
    /// What the native attachment is made from on `av`.
    pub fn to_native(&self, av: AppleVersion) -> (r: NativeAttachment)
        ensures
            is_native_attachment(r, *self, av),
    {
        let options = match &self.options {
            Some(o) => Some(o.to_native(av)),
            None => None,
        };
        NativeAttachment { identifier: self.identifier.clone(), url: self.url.clone(), options }
    }
}

/// When a notification is delivered.
#[derive(Debug)]
pub enum TriggerKind {
    /// After the time given has elapsed.
    ///
    /// A repeating interval must be longer than a minute.
    TimeInterval(Duration),
    /// At the dates and times that a cron schedule matches.
    Calendar(Schedule),
}

/// The condition that delivers a notification.
#[derive(Debug)]
pub struct Trigger {
    /// When the notification is delivered.
    pub kind: TriggerKind,
    /// Whether it is delivered again each time the condition holds.
    pub repeats: bool,
}

impl Clone for TriggerKind {
    fn clone(&self) -> (r: TriggerKind)
        ensures
            r == *self,
    {
        match self {
            TriggerKind::TimeInterval(d) => TriggerKind::TimeInterval(*d),
            TriggerKind::Calendar(s) => TriggerKind::Calendar(clone_schedule(s)),
        }
    }
}

impl Clone for Trigger {
    fn clone(&self) -> (r: Trigger)
        ensures
            r == *self,
    {
        Trigger { kind: self.kind.clone(), repeats: self.repeats }
    }
}

/// What a native `UNNotificationTrigger` is made from.
#[derive(Copy, Clone, Debug, PartialEq, Eq, Structural)]
pub enum NativeTrigger {
    /// A time interval trigger.
    TimeInterval { interval: Duration, repeats: bool },
    /// A calendar trigger on the date components given.
    Calendar { components: DateComponents, repeats: bool },
}

/// The native trigger of `t`, where it has one.
pub open spec fn native_trigger(t: Trigger) -> Option<NativeTrigger> {
    match t.kind {
        TriggerKind::TimeInterval(d) => Some(
            NativeTrigger::TimeInterval { interval: d, repeats: t.repeats },
        ),
        TriggerKind::Calendar(s) => match schedule_components(s) {
            Some(c) => Some(NativeTrigger::Calendar { components: c, repeats: t.repeats }),
            None => None,
        },
    }
}

impl Trigger {
    /// What the native trigger is made from.
    ///
    /// A calendar trigger needs each unit of time of the schedule to include
    /// one value or all of them; a schedule with a range, a list or a step
    /// in some unit fails with `UnsupportedCronPattern`.
    pub fn to_native(&self) -> (r: Result<NativeTrigger, NotificationError>)
        ensures
            r is Ok <==> native_trigger(*self) is Some,
            r is Ok ==> r->Ok_0 == native_trigger(*self)->0,
            r is Err ==> r->Err_0 is UnsupportedCronPattern,
    {
        match &self.kind {
            TriggerKind::TimeInterval(d) => Ok(
                NativeTrigger::TimeInterval { interval: *d, repeats: self.repeats },
            ),
            TriggerKind::Calendar(s) => {
                let components = components_of(s)?;
                Ok(NativeTrigger::Calendar { components, repeats: self.repeats })
            },
        }
    }
}

/// The behaviors of an action, as a set of bits.
#[derive(Copy, Clone, Debug, PartialEq, Eq, Hash, Structural)]
pub struct ActionOptions {
    pub bits: u8,
}

impl ActionOptions {
    /// No option.
    pub fn empty() -> (r: ActionOptions)
        ensures
            r.bits == 0,
    {
        ActionOptions { bits: 0 }
    }
    /// The action can be performed only on an unlocked device.
    pub const AUTHENTICATION_REQUIRED: u8 = 0b001;
    /// The action performs a destructive task.
    pub const DESTRUCTIVE: u8 = 0b010;
    /// The action launches the app in the foreground.
    pub const FOREGROUND: u8 = 0b100;

    /// Every option.
    pub fn all() -> (r: ActionOptions)
        ensures
            r.bits == 0b111,
    {
        ActionOptions { bits: 0b111 }
    }

    /// The options of `self` and of `other` together.
    pub fn union(self, other: ActionOptions) -> (r: ActionOptions)
        ensures
            r.bits == self.bits | other.bits,
    {
        ActionOptions { bits: self.bits | other.bits }
    }
}

/// How notifications of a category are handled, as a set of bits.
#[derive(Copy, Clone, Debug, PartialEq, Eq, Hash, Structural)]
pub struct CategoryOptions {
    pub bits: u8,
}

impl CategoryOptions {
    /// No option.
    pub fn empty() -> (r: CategoryOptions)
        ensures
            r.bits == 0,
    {
        CategoryOptions { bits: 0 }
    }
    /// Dismiss actions go to the delegate of the notification center.
    pub const CUSTOM_DISMISS_ACTION: u8 = 0b00001;
    /// CarPlay may display notifications of this type.
    pub const ALLOW_IN_CAR_PLAY: u8 = 0b00010;
    /// The title shows even where previews are disabled.
    pub const HIDDEN_PREVIEW_SHOW_TITLE: u8 = 0b00100;
    /// The subtitle shows even where previews are disabled.
    pub const HIDDEN_PREVIEW_SHOW_SUBTITLE: u8 = 0b01000;
    /// Siri may read incoming messages out loud.
    pub const ALLOW_ANNOUNCEMENT: u8 = 0b10000;

    /// Every option.
    pub fn all() -> (r: CategoryOptions)
        ensures
            r.bits == 0b11111,
    {
        CategoryOptions { bits: 0b11111 }
    }

    /// The options of `self` and of `other` together.
    pub fn union(self, other: CategoryOptions) -> (r: CategoryOptions)
        ensures
            r.bits == self.bits | other.bits,
    {
        CategoryOptions { bits: self.bits | other.bits }
    }
}

impl Default for CategoryOptions {
    fn default() -> (r: Self)
        ensures
            r.bits == 0,
    {
        CategoryOptions { bits: 0 }
    }
}

/// The features that a user may authorize, as a set of bits.
#[derive(Copy, Clone, Debug, PartialEq, Eq, Hash, Structural)]
pub struct AuthorizationOptions {
    pub bits: u8,
}

impl AuthorizationOptions {
    /// Updating the app's badge.
    pub const BADGE: u8 = 0b0000001;
    /// Playing sounds.
    pub const SOUND: u8 = 0b0000010;
    /// Displaying alerts.
    pub const ALERT: u8 = 0b0000100;
    /// Displaying notifications in CarPlay.
    pub const CAR_PLAY: u8 = 0b0001000;
    /// Playing sounds for critical alerts.
    pub const CRITICAL_ALERT: u8 = 0b0010000;
    /// A button for in-app notification settings.
    pub const PROVIDES_APP_NOTIFICATION_SETTINGS: u8 = 0b0100000;
    /// Posting quiet notifications provisionally.
    pub const PROVISIONAL: u8 = 0b1000000;

    /// The options of `self` and of `other` together.
    pub fn union(self, other: AuthorizationOptions) -> (r: AuthorizationOptions)
        ensures
            r.bits == self.bits | other.bits,
    {
        AuthorizationOptions { bits: self.bits | other.bits }
    }
}

/// An icon of an action.
#[derive(Debug)]
pub enum ActionIcon {
    /// An image of the app's bundle, by name.
    TemplateImageName(String),
    /// A system symbol image, by name.
    SystemImageName(String),
}

impl Clone for ActionIcon {
    fn clone(&self) -> (r: ActionIcon)
        ensures
            r == *self,
    {
        match self {
            ActionIcon::TemplateImageName(n) => ActionIcon::TemplateImageName(n.clone()),
            ActionIcon::SystemImageName(n) => ActionIcon::SystemImageName(n.clone()),
        }
    }
}

/// A task that the app performs in response to a delivered notification.
#[derive(Debug)]
pub struct Action {
    /// The unique identifier of the action.
    pub identifier: String,
    /// The localized title of the action.
    pub title: String,
    /// The icon of the action.
    pub icon: Option<ActionIcon>,
    /// The behaviors of the action.
    pub options: ActionOptions,
}

impl Clone for Action {
    fn clone(&self) -> (r: Action)
        ensures
            r == *self,
    {
        let icon = match &self.icon {
            Some(i) => Some(i.clone()),
            None => None,
        };
        Action {
            identifier: self.identifier.clone(),
            title: self.title.clone(),
            icon,
            options: self.options,
        }
    }
}

/// What a native `UNNotificationAction` is made from.
#[derive(Debug)]
pub struct NativeAction {
    pub identifier: String,
    pub title: String,
    /// The option bits.
    pub options: usize,
    /// The icon, where the OS takes one.
    pub icon: Option<ActionIcon>,
}

/// What the native action of `a` on `av` is made from: the icon is left
/// out where the OS takes none.
pub open spec fn native_action(a: Action, av: AppleVersion) -> NativeAction {
    NativeAction {
        identifier: a.identifier,
        title: a.title,
        options: a.options.bits as usize,
        icon: if feature_available(av, ApiFeature::ActionIcon) {
            a.icon
        } else {
            None
        },
    }
}

impl Action {
    /// What the native action is made from on `av`.
    pub fn to_native(&self, av: AppleVersion) -> (r: NativeAction)
        ensures
            r == native_action(*self, av),
    {
        let icon = if av.supports(ApiFeature::ActionIcon) {
            match &self.icon {
                Some(i) => Some(i.clone()),
                None => None,
            }
        } else {
            None
        };
        NativeAction {
            identifier: self.identifier.clone(),
            title: self.title.clone(),
            options: self.options.bits as usize,
            icon,
        }
    }
}

/// A type of notification that the app supports, with the actions that the
/// system displays for it.
#[derive(Debug)]
pub struct Category {
    /// The unique identifier of the category.
    pub identifier: String,
    /// The actions displayed with notifications of this type.
    pub actions: Vec<Action>,
    /// The intents related to notifications of this category.
    pub intent_identifiers: Vec<String>,
    /// How notifications of this type are handled.
    pub options: CategoryOptions,
    /// The text shown where previews are disabled.
    pub hidden_preview_body_placeholder: Option<String>,
    /// The format of the summary of grouped notifications.
    pub category_summary_format: Option<String>,
}

impl Default for Category {
    fn default() -> (r: Self)
        ensures
            r.identifier@ == Seq::<char>::empty(),
            r.actions@ == Seq::<Action>::empty(),
            r.intent_identifiers@ == Seq::<String>::empty(),
            r.options.bits == 0,
            r.hidden_preview_body_placeholder is None,
            r.category_summary_format is None,
    {
        Category {
            identifier: String::new(),
            actions: Vec::new(),
            intent_identifiers: Vec::new(),
            options: CategoryOptions::empty(),
            hidden_preview_body_placeholder: None,
            category_summary_format: None,
        }
    }
}

/// What a native `UNNotificationCategory` is made from.
#[derive(Debug)]
pub struct NativeCategory {
    pub identifier: String,
    pub actions: Vec<NativeAction>,
    pub intent_identifiers: Vec<String>,
    pub hidden_preview_body_placeholder: Option<String>,
    pub category_summary_format: Option<String>,
    /// The option bits.
    pub options: usize,
}

impl Category {
    /// What the native category is made from on `av`; tvOS takes neither
    /// actions nor intents.
    pub fn to_native(&self, av: AppleVersion) -> (r: NativeCategory)
        ensures
            r.identifier == self.identifier,
            av.0 != AppleOS::TvOS ==> r.actions@ == self.actions@.map_values(
                |a: Action| native_action(a, av),
            ),
            av.0 != AppleOS::TvOS ==> r.intent_identifiers@ == self.intent_identifiers@,
            av.0 == AppleOS::TvOS ==> r.actions@.len() == 0 && r.intent_identifiers@.len() == 0,
            r.hidden_preview_body_placeholder == self.hidden_preview_body_placeholder,
            r.category_summary_format == self.category_summary_format,
            r.options == self.options.bits as usize,
    {
        let mut actions: Vec<NativeAction> = Vec::new();
        let mut intent_identifiers: Vec<String> = Vec::new();
        if av.0 != AppleOS::TvOS {
            let mut i: usize = 0;
            while i < self.intent_identifiers.len()
                invariant
                    i <= self.intent_identifiers.len(),
                    intent_identifiers@ == self.intent_identifiers@.subrange(0, i as int),
                decreases self.intent_identifiers.len() - i,
            {
                intent_identifiers.push(self.intent_identifiers[i].clone());
                i = i + 1;
                assert(intent_identifiers@ =~= self.intent_identifiers@.subrange(0, i as int));
            }
            assert(intent_identifiers@ =~= self.intent_identifiers@);
            let mut j: usize = 0;
            while j < self.actions.len()
                invariant
                    j <= self.actions.len(),
                    actions@ == self.actions@.subrange(0, j as int).map_values(
                        |a: Action| native_action(a, av),
                    ),
                decreases self.actions.len() - j,
            {
                actions.push(self.actions[j].to_native(av));
                j = j + 1;
                assert(actions@ =~= self.actions@.subrange(0, j as int).map_values(
                    |a: Action| native_action(a, av),
                ));
            }
            assert(self.actions@.subrange(0, j as int) =~= self.actions@);
        }
        NativeCategory {
            identifier: self.identifier.clone(),
            actions,
            intent_identifiers,
            hidden_preview_body_placeholder: self.hidden_preview_body_placeholder.clone(),
            category_summary_format: self.category_summary_format.clone(),
            options: self.options.bits as usize,
        }
    }
}

/// The importance and delivery timing of a notification.
#[derive(Copy, Clone, Debug, PartialEq, Eq, Hash, Structural)]
pub enum InterruptionLevel {
    /// Presented at once, lighting up the screen, maybe with a sound.
    Active,
    /// Presented at once, with a sound that bypasses the mute switch.
    Critical,
    /// Added to the list without lighting up the screen or a sound.
    Passive,
    /// Presented at once, breaking through notification controls.
    TimeSensitive,
}

/// The raw value of the native `UNNotificationInterruptionLevel` for `l`.
pub open spec fn interruption_raw(l: InterruptionLevel) -> usize {
    match l {
        InterruptionLevel::Passive => 0,
        InterruptionLevel::Active => 1,
        InterruptionLevel::TimeSensitive => 2,
        InterruptionLevel::Critical => 3,
    }
}

impl InterruptionLevel {
    /// The raw value of the native interruption level.
    pub fn to_native(&self) -> (r: usize)
        ensures
            r == interruption_raw(*self),
    {
        match self {
            InterruptionLevel::Passive => 0,
            InterruptionLevel::Active => 1,
            InterruptionLevel::TimeSensitive => 2,
            InterruptionLevel::Critical => 3,
        }
    }
}

/// A notification that the system delivers to the app.
#[derive(Debug)]
pub struct Notification {
    /// The unique identifier of the notification.
    pub identifier: String,
    /// The condition that delivers the notification.
    pub trigger: Option<Trigger>,
    /// The primary description.
    pub title: Option<String>,
    /// The secondary description.
    pub subtitle: Option<String>,
    /// The main content.
    pub body: String,
    /// Files shown alongside the main content.
    pub attachments: Vec<Attachment>,
    /// Custom data, as pairs of key and value with distinct keys.
    pub user_info: Vec<(String, String)>,
    /// The identifier that groups related notifications.
    pub thread_identifier: Option<String>,
    /// The identifier of the notification's category.
    pub category_identifier: Option<String>,
    /// The text added to the notification summary.
    pub summary_argument: Option<String>,
    /// The number of items that the notification stands for in the summary.
    pub summary_argument_count: Option<usize>,
    /// The image or storyboard shown when the app launches from the
    /// notification.
    pub launch_image_name: Option<String>,
    /// The number that the app's icon displays.
    pub badge: Option<usize>,
    /// The value that picks the scene that handles the notification.
    pub target_content_identifier: Option<String>,
    /// The sound played upon delivery.
    pub sound: Option<Sound>,
    /// The importance and delivery timing.
    pub interruption_level: Option<InterruptionLevel>,
    /// How much the notification is featured in a summary, in thousandths.
    pub relevance_score: Option<u16>,
    /// The criteria that decide whether the current Focus shows it.
    pub filter_criteria: Option<String>,
}

impl Default for Notification {
    fn default() -> (r: Self)
        ensures
            r.identifier@ == Seq::<char>::empty(),
            r.trigger is None,
            r.title is None,
            r.subtitle is None,
            r.body@ == Seq::<char>::empty(),
            r.attachments@ == Seq::<Attachment>::empty(),
            r.user_info@ == Seq::<(String, String)>::empty(),
            r.thread_identifier is None,
            r.category_identifier is None,
            r.summary_argument is None,
            r.summary_argument_count is None,
            r.launch_image_name is None,
            r.badge is None,
            r.target_content_identifier is None,
            r.sound is None,
            r.interruption_level is None,
            r.relevance_score is None,
            r.filter_criteria is None,
    {
        Notification {
            identifier: String::new(),
            trigger: None,
            title: None,
            subtitle: None,
            body: String::new(),
            attachments: Vec::new(),
            user_info: Vec::new(),
            thread_identifier: None,
            category_identifier: None,
            summary_argument: None,
            summary_argument_count: None,
            launch_image_name: None,
            badge: None,
            target_content_identifier: None,
            sound: None,
            interruption_level: None,
            relevance_score: None,
            filter_criteria: None,
        }
    }
}

/// What a native `UNMutableNotificationContent` and the request around it
/// are made from. A field that is `None`, or empty, is left unset.
#[derive(Debug)]
pub struct NativeRequest {
    pub identifier: String,
    pub title: Option<String>,
    pub subtitle: Option<String>,
    pub body: String,
    pub attachments: Vec<NativeAttachment>,
    pub user_info: Vec<(String, String)>,
    pub thread_identifier: Option<String>,
    pub category_identifier: Option<String>,
    pub sound: Option<NativeSound>,
    pub launch_image_name: Option<String>,
    pub badge: Option<usize>,
    pub target_content_identifier: Option<String>,
    pub summary_argument_count: Option<usize>,
    pub summary_argument: Option<String>,
    /// The raw value of the native interruption level.
    pub interruption_level: Option<usize>,
    pub relevance_score: Option<u16>,
    pub filter_criteria: Option<String>,
    pub trigger: Option<NativeTrigger>,
}

/// `o` where `available`, else `None`.
pub open spec fn when<T>(available: bool, o: Option<T>) -> Option<T> {
    if available {
        o
    } else {
        None
    }
}

/// `r` is what the native request of `n` on `av` is made from: each field
/// that the OS lacks the API for is left unset, and tvOS takes neither
/// attachments, custom data, thread, category nor sound.
pub open spec fn is_native_request(r: NativeRequest, n: Notification, av: AppleVersion) -> bool {
    let tv = av.0 == AppleOS::TvOS;
    &&& r.identifier == n.identifier
    &&& r.title == n.title
    &&& r.subtitle == n.subtitle
    &&& r.body == n.body
    &&& !tv ==> r.attachments@.len() == n.attachments@.len() && forall|i: int|
        0 <= i < n.attachments@.len() ==> is_native_attachment(
            #[trigger] r.attachments@[i],
            n.attachments@[i],
            av,
        )
    &&& tv ==> r.attachments@.len() == 0
    &&& r.user_info@ == (if tv { Seq::empty() } else { n.user_info@ })
    &&& r.thread_identifier == when(!tv, n.thread_identifier)
    &&& r.category_identifier == when(!tv, n.category_identifier)
    &&& r.sound == when(!tv && n.sound is Some, Some(native_sound(n.sound->0, av)))
    &&& r.launch_image_name == when(!tv && av.0 != AppleOS::MacOS, n.launch_image_name)
    &&& r.badge == n.badge
    &&& r.target_content_identifier == when(
        feature_available(av, ApiFeature::TargetContentIdentifier),
        n.target_content_identifier,
    )
    &&& r.summary_argument_count == when(
        feature_available(av, ApiFeature::SummaryArgument),
        n.summary_argument_count,
    )
    &&& r.summary_argument == when(
        feature_available(av, ApiFeature::SummaryArgument),
        n.summary_argument,
    )
    &&& r.interruption_level == when(
        feature_available(av, ApiFeature::InterruptionLevel) && n.interruption_level is Some,
        Some(interruption_raw(n.interruption_level->0)),
    )
    &&& r.relevance_score == when(
        feature_available(av, ApiFeature::InterruptionLevel),
        n.relevance_score,
    )
    &&& r.filter_criteria == when(
        feature_available(av, ApiFeature::FilterCriteria),
        n.filter_criteria,
    )
    &&& r.trigger == (if n.trigger is Some { native_trigger(n.trigger->0) } else { None })
}

fn clone_when(available: bool, o: &Option<String>) -> (r: Option<String>)
    ensures
        r == when(available, *o),
{
    if available {
        o.clone()
    } else {
        None
    }
}

/// No two entries of `s` share a key.
pub open spec fn keys_unique(s: Seq<(String, String)>) -> bool {
    forall|i: int, j: int| 0 <= i < j < s.len() ==> s[i].0@ != s[j].0@
}

/// A copy of the pairs of `entries`.
pub(crate) fn copy_entries(entries: &Vec<(String, String)>) -> (r: Vec<(String, String)>)
    ensures
        r@ == entries@,
{
    let mut r: Vec<(String, String)> = Vec::new();
    let mut j: usize = 0;
    while j < entries.len()
        invariant
            j <= entries.len(),
            r@ == entries@.subrange(0, j as int),
        decreases entries.len() - j,
    {
        let (k, v) = &entries[j];
        r.push((k.clone(), v.clone()));
        j = j + 1;
        assert(r@ =~= entries@.subrange(0, j as int));
    }
    assert(r@ =~= entries@);
    r
}

impl Notification {
    /// The rule of a notification: no two entries of its custom data share a
    /// key.
    pub open spec fn wf(&self) -> bool {
        keys_unique(self.user_info@)
    }

    /// What the native request is made from on `av`.
    ///
    /// It fails where the trigger is a calendar trigger whose schedule has a
    /// unit of time that includes neither one value nor all of them.
    pub fn to_native(&self, av: AppleVersion) -> (r: Result<NativeRequest, NotificationError>)
        ensures
            r is Ok <==> (self.trigger is None || native_trigger(self.trigger->0) is Some),
            r is Ok ==> is_native_request(r->Ok_0, *self, av),
            r is Err ==> r->Err_0 is UnsupportedCronPattern,
    {
        let tv = av.0 == AppleOS::TvOS;
        let trigger = match &self.trigger {
            Some(t) => Some(t.to_native()?),
            None => None,
        };
        let mut attachments: Vec<NativeAttachment> = Vec::new();
        let mut user_info: Vec<(String, String)> = Vec::new();
        if !tv {
            let mut i: usize = 0;
            while i < self.attachments.len()
                invariant
                    i <= self.attachments.len(),
                    attachments@.len() == i,
                    forall|k: int|
                        0 <= k < i ==> is_native_attachment(
                            #[trigger] attachments@[k],
                            self.attachments@[k],
                            av,
                        ),
                decreases self.attachments.len() - i,
            {
                attachments.push(self.attachments[i].to_native(av));
                i = i + 1;
            }
            user_info = copy_entries(&self.user_info);
        } else {
            assert(user_info@ =~= Seq::<(String, String)>::empty());
        }
        let sound = match &self.sound {
            Some(s) => {
                if !tv {
                    Some(s.to_native(av))
                } else {
                    None
                }
            },
            None => None,
        };
        let level = av.supports(ApiFeature::InterruptionLevel);
        let summary = av.supports(ApiFeature::SummaryArgument);
        let interruption_level = match self.interruption_level {
            Some(l) => {
                if level {
                    Some(l.to_native())
                } else {
                    None
                }
            },
            None => None,
        };
        Ok(
            NativeRequest {
                identifier: self.identifier.clone(),
                title: self.title.clone(),
                subtitle: self.subtitle.clone(),
                body: self.body.clone(),
                attachments,
                user_info,
                thread_identifier: clone_when(!tv, &self.thread_identifier),
                category_identifier: clone_when(!tv, &self.category_identifier),
                sound,
                launch_image_name: clone_when(
                    !tv && av.0 != AppleOS::MacOS,
                    &self.launch_image_name,
                ),
                badge: self.badge,
                target_content_identifier: clone_when(
                    av.supports(ApiFeature::TargetContentIdentifier),
                    &self.target_content_identifier,
                ),
                summary_argument_count: if summary {
                    self.summary_argument_count
                } else {
                    None
                },
                summary_argument: clone_when(summary, &self.summary_argument),
                interruption_level,
                relevance_score: if level {
                    self.relevance_score
                } else {
                    None
                },
                filter_criteria: clone_when(
                    av.supports(ApiFeature::FilterCriteria),
                    &self.filter_criteria,
                ),
                trigger,
            },
        )
    }
}

} // verus!
