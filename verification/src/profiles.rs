//! Recording profiles and stream destinations.

use vstd::prelude::*;
use crate::ids::{is_generated_id, new_id, now_utc};
use crate::text::{quoted, str_eq};

verus! {

#[derive(Clone, Copy, Debug, PartialEq, Eq, Structural)]
pub enum PlatformKind {
    Twitch,
    YouTube,
    Kick,
    CustomRtmp,
}

impl PlatformKind {
    /// The platform's wire name.
    pub open spec fn label(self) -> Seq<char> {
        match self {
            PlatformKind::Twitch => "twitch"@,
            PlatformKind::YouTube => "youtube"@,
            PlatformKind::Kick => "kick"@,
            PlatformKind::CustomRtmp => "custom_rtmp"@,
        }
    }

    pub fn as_str(&self) -> (r: &'static str)
        ensures
            r@ == self.label(),
    {
        match self {
            PlatformKind::Twitch => "twitch",
            PlatformKind::YouTube => "youtube",
            PlatformKind::Kick => "kick",
            PlatformKind::CustomRtmp => "custom_rtmp",
        }
    }

    /// The platform whose wire name is `value`, or the message naming the unknown value.
    pub fn parse(value: &str) -> (r: Result<PlatformKind, String>)
        ensures
            match r {
                Ok(kind) => kind.label() == value@,
                Err(message) => {
                    &&& forall|kind: PlatformKind| kind.label() != value@
                    &&& message@ == "unknown platform kind '"@ + value@ + "'"@
                },
            },
    {
        if str_eq(value, "twitch") {
            Ok(PlatformKind::Twitch)
        } else if str_eq(value, "youtube") {
            Ok(PlatformKind::YouTube)
        } else if str_eq(value, "kick") {
            Ok(PlatformKind::Kick)
        } else if str_eq(value, "custom_rtmp") {
            Ok(PlatformKind::CustomRtmp)
        } else {
            proof {
                assert forall|kind: PlatformKind| kind.label() != value@ by {
                    match kind {
                        PlatformKind::Twitch => {},
                        PlatformKind::YouTube => {},
                        PlatformKind::Kick => {},
                        PlatformKind::CustomRtmp => {},
                    }
                }
            }
            Err(quoted("unknown platform kind '", value, "'"))
        }
    }
}

#[derive(Clone, Copy, Debug, PartialEq, Eq, Structural)]
pub enum RecordingContainer {
    Mkv,
    Mp4,
}

impl RecordingContainer {
    /// The container's file extension and wire name.
    pub open spec fn label(self) -> Seq<char> {
        match self {
            RecordingContainer::Mkv => "mkv"@,
            RecordingContainer::Mp4 => "mp4"@,
        }
    }

    pub fn as_str(&self) -> (r: &'static str)
        ensures
            r@ == self.label(),
    {
        match self {
            RecordingContainer::Mkv => "mkv",
            RecordingContainer::Mp4 => "mp4",
        }
    }

    /// The container whose wire name is `value`, or the message naming the unknown value.
    pub fn parse(value: &str) -> (r: Result<RecordingContainer, String>)
        ensures
            match r {
                Ok(container) => container.label() == value@,
                Err(message) => {
                    &&& forall|c: RecordingContainer| c.label() != value@
                    &&& message@ == "unknown recording container '"@ + value@ + "'"@
                },
            },
    {
        if str_eq(value, "mkv") {
            Ok(RecordingContainer::Mkv)
        } else if str_eq(value, "mp4") {
            Ok(RecordingContainer::Mp4)
        } else {
            proof {
                assert forall|c: RecordingContainer| c.label() != value@ by {
                    match c {
                        RecordingContainer::Mkv => {},
                        RecordingContainer::Mp4 => {},
                    }
                }
            }
            Err(quoted("unknown recording container '", value, "'"))
        }
    }
}

#[derive(Clone, Debug)]
pub enum EncoderPreference {
    Auto,
    Hardware,
    Software,
    Named(String),
}

#[derive(Clone, Copy, Debug, PartialEq, Eq, Structural)]
pub struct Resolution {
    pub width: u32,
    pub height: u32,
}

impl Default for Resolution {
    fn default() -> (r: Resolution)
        ensures
            r.width == 1920 && r.height == 1080,
    {
        Resolution { width: 1920, height: 1080 }
    }
}

/// A reference to a secret held by a secret store.
#[derive(Clone, Debug)]
pub struct SecretRef {
    pub provider: String,
    pub id: String,
}

/// A recording profile. Timestamps are milliseconds since the Unix epoch (UTC).
#[derive(Clone, Debug)]
pub struct MediaProfile {
    pub id: String,
    pub name: String,
    pub output_folder: String,
    pub filename_pattern: String,
    pub container: RecordingContainer,
    pub resolution: Resolution,
    pub framerate: u32,
    pub bitrate_kbps: u32,
    pub encoder_preference: EncoderPreference,
    pub created_at: i64,
    pub updated_at: i64,
}

#[derive(Clone, Debug)]
pub struct MediaProfileInput {
    pub name: String,
    pub output_folder: String,
    pub filename_pattern: String,
    pub container: RecordingContainer,
    pub resolution: Resolution,
    pub framerate: u32,
    pub bitrate_kbps: u32,
    pub encoder_preference: EncoderPreference,
}

impl Default for MediaProfileInput {
    fn default() -> (r: MediaProfileInput)
        ensures
            r.name@ == "Default Local Recording"@,
            r.output_folder@ == "~/Movies/vaexcore studio"@,
            r.filename_pattern@ == "{date}-{time}-{profile}"@,
            r.container == RecordingContainer::Mkv,
            r.resolution.width == 1920 && r.resolution.height == 1080,
            r.framerate == 60,
            r.bitrate_kbps == 12_000,
            r.encoder_preference is Auto,
    {
        MediaProfileInput {
            name: String::from_str("Default Local Recording"),
            output_folder: String::from_str("~/Movies/vaexcore studio"),
            filename_pattern: String::from_str("{date}-{time}-{profile}"),
            container: RecordingContainer::Mkv,
            resolution: Resolution::default(),
            framerate: 60,
            bitrate_kbps: 12_000,
            encoder_preference: EncoderPreference::Auto,
        }
    }
}

/// The profile carries the input's settings.
pub open spec fn profile_from_input(profile: MediaProfile, input: MediaProfileInput) -> bool {
    &&& profile.name@ == input.name@
    &&& profile.output_folder@ == input.output_folder@
    &&& profile.filename_pattern@ == input.filename_pattern@
    &&& profile.container == input.container
    &&& profile.resolution == input.resolution
    &&& profile.framerate == input.framerate
    &&& profile.bitrate_kbps == input.bitrate_kbps
    &&& profile.encoder_preference == input.encoder_preference
}

impl MediaProfile {
    /// A new profile from the input, with a fresh `rec_profile` id and equal creation
    /// and update times.
    pub fn from_input(input: MediaProfileInput) -> (r: MediaProfile)
        ensures
            profile_from_input(r, input),
            is_generated_id("rec_profile"@, r.id@),
            r.created_at == r.updated_at,
    {
        let now = now_utc();
        MediaProfile {
            id: new_id("rec_profile"),
            name: input.name,
            output_folder: input.output_folder,
            filename_pattern: input.filename_pattern,
            container: input.container,
            resolution: input.resolution,
            framerate: input.framerate,
            bitrate_kbps: input.bitrate_kbps,
            encoder_preference: input.encoder_preference,
            created_at: now,
            updated_at: now,
        }
    }

    /// The default local recording profile.
    pub fn default_local() -> (r: MediaProfile)
        ensures
            r.name@ == "Default Local Recording"@,
            r.output_folder@ == "~/Movies/vaexcore studio"@,
            r.filename_pattern@ == "{date}-{time}-{profile}"@,
            r.container == RecordingContainer::Mkv,
            r.resolution.width == 1920 && r.resolution.height == 1080,
            r.framerate == 60,
            r.bitrate_kbps == 12_000,
            r.encoder_preference is Auto,
            is_generated_id("rec_profile"@, r.id@),
            r.created_at == r.updated_at,
    {
        MediaProfile::from_input(MediaProfileInput::default())
    }
}

/// A stream destination. Timestamps are milliseconds since the Unix epoch (UTC).
#[derive(Clone, Debug)]
pub struct StreamDestination {
    pub id: String,
    pub name: String,
    pub platform: PlatformKind,
    pub ingest_url: String,
    pub stream_key_ref: Option<SecretRef>,
    pub enabled: bool,
    pub created_at: i64,
    pub updated_at: i64,
}

/// The fields of a new or updated stream destination; `stream_key` is the secret itself.
#[derive(Clone, Debug)]
pub struct StreamDestinationInput {
    pub name: String,
    pub platform: PlatformKind,
    pub ingest_url: Option<String>,
    pub stream_key: Option<String>,
    pub enabled: Option<bool>,
}

impl StreamDestination {
    /// A new destination from the input: no ingest URL stands for an empty one, and a
    /// destination is enabled unless the input says otherwise.
    pub fn from_input(input: StreamDestinationInput, stream_key_ref: Option<SecretRef>) -> (r: StreamDestination)
        ensures
            r.name@ == input.name@,
            r.platform == input.platform,
            r.ingest_url@ == (match input.ingest_url {
                Some(url) => url@,
                None => Seq::<char>::empty(),
            }),
            r.stream_key_ref == stream_key_ref,
            r.enabled == (match input.enabled {
                Some(e) => e,
                None => true,
            }),
            is_generated_id("stream_dest"@, r.id@),
            r.created_at == r.updated_at,
    {
        let now = now_utc();
        let ingest_url = match input.ingest_url {
            Some(url) => url,
            None => String::new(),
        };
        let enabled = match input.enabled {
            Some(e) => e,
            None => true,
        };
        StreamDestination {
            id: new_id("stream_dest"),
            name: input.name,
            platform: input.platform,
            ingest_url,
            stream_key_ref,
            enabled,
            created_at: now,
            updated_at: now,
        }
    }

    pub fn has_stream_key(&self) -> (r: bool)
        ensures
            r == self.stream_key_ref.is_some(),
    {
        self.stream_key_ref.is_some()
    }
}

} // verus!

verus! {

// ---------------------------------------------------------------------------------
// Updates

impl MediaProfile {
    /// An existing profile updated with the input at `now`: it keeps its identifier and
    /// creation time and takes every setting of the input.
    pub fn updated_from(existing: MediaProfile, input: MediaProfileInput, now: i64) -> (r: MediaProfile)
        ensures
            profile_from_input(r, input),
            r.id == existing.id,
            r.created_at == existing.created_at,
            r.updated_at == now,
    {
        MediaProfile {
            id: existing.id,
            name: input.name,
            output_folder: input.output_folder,
            filename_pattern: input.filename_pattern,
            container: input.container,
            resolution: input.resolution,
            framerate: input.framerate,
            bitrate_kbps: input.bitrate_kbps,
            encoder_preference: input.encoder_preference,
            created_at: existing.created_at,
            updated_at: now,
        }
    }
}

/// The stream key of an input that is to be stored: a key that is not empty.
pub fn stream_key_to_store(input: &StreamDestinationInput) -> (r: Option<String>)
    ensures
        match r {
            Some(k) => input.stream_key matches Some(s) && s@ == k@ && k@.len() > 0,
            None => input.stream_key matches Some(s) ==> s@.len() == 0,
        },
{
    match &input.stream_key {
        Some(s) => if s.unicode_len() > 0 {
            Some(s.clone())
        } else {
            None
        },
        None => None,
    }
}

impl StreamDestination {
    /// An existing destination updated with the input at `now`: it keeps its identifier
    /// and creation time; a newly stored key replaces the old reference, and the
    /// destination stays as enabled as it was unless the input says otherwise.
    pub fn updated_from(
        existing: StreamDestination,
        input: StreamDestinationInput,
        stored_key: Option<SecretRef>,
        now: i64,
    ) -> (r: StreamDestination)
        ensures
            r.id == existing.id,
            r.name@ == input.name@,
            r.platform == input.platform,
            r.ingest_url@ == (match input.ingest_url {
                Some(url) => url@,
                None => Seq::<char>::empty(),
            }),
            r.stream_key_ref == (match stored_key {
                Some(k) => Some(k),
                None => existing.stream_key_ref,
            }),
            r.enabled == (match input.enabled {
                Some(e) => e,
                None => existing.enabled,
            }),
            r.created_at == existing.created_at,
            r.updated_at == now,
    {
        let stream_key_ref = match stored_key {
            Some(k) => Some(k),
            None => existing.stream_key_ref,
        };
        let enabled = match input.enabled {
            Some(e) => e,
            None => existing.enabled,
        };
        let ingest_url = match input.ingest_url {
            Some(url) => url,
            None => String::new(),
        };
        StreamDestination {
            id: existing.id,
            name: input.name,
            platform: input.platform,
            ingest_url,
            stream_key_ref,
            enabled,
            created_at: existing.created_at,
            updated_at: now,
        }
    }
}

pub open spec fn secret_ref_view(r: Option<SecretRef>) -> Option<(Seq<char>, Seq<char>)> {
    match r {
        Some(s) => Some((s.provider@, s.id@)),
        None => None,
    }
}

/// Whether two secret references name the same secret.
pub fn same_secret_ref(a: &Option<SecretRef>, b: &Option<SecretRef>) -> (r: bool)
    ensures
        r == (secret_ref_view(*a) == secret_ref_view(*b)),
{
    match (a, b) {
        (Some(x), Some(y)) => str_eq(x.provider.as_str(), y.provider.as_str()) && str_eq(x.id.as_str(), y.id.as_str()),
        (None, None) => true,
        _ => false,
    }
}


// ---------------------------------------------------------------------------------
// Requests and bundles

/// A new recording profile or stream destination.
#[derive(Clone, Debug)]
pub enum CreateProfileRequest {
    RecordingProfile(MediaProfileInput),
    StreamDestination(StreamDestinationInput),
}

/// What creating a profile made.
#[derive(Clone, Debug)]
pub enum CreatedProfile {
    RecordingProfile(MediaProfile),
    StreamDestination(StreamDestination),
}

/// A stream destination as it is exported: without its secret, only whether it has one.
#[derive(Clone, Debug)]
pub struct StreamDestinationBundleItem {
    pub name: String,
    pub platform: PlatformKind,
    pub ingest_url: String,
    pub enabled: bool,
    pub has_stream_key: bool,
}

/// How many profiles and destinations an import brought in.
#[derive(Clone, Copy, Debug, PartialEq, Eq, Structural)]
pub struct ProfileBundleImportResult {
    pub recording_profiles: usize,
    pub stream_destinations: usize,
}

impl StreamDestination {
    /// The destination as it is exported.
    pub fn bundle_item(&self) -> (r: StreamDestinationBundleItem)
        ensures
            r.name@ == self.name@,
            r.platform == self.platform,
            r.ingest_url@ == self.ingest_url@,
            r.enabled == self.enabled,
            r.has_stream_key == self.stream_key_ref is Some,
    {
        StreamDestinationBundleItem {
            name: self.name.clone(),
            platform: self.platform,
            ingest_url: self.ingest_url.clone(),
            enabled: self.enabled,
            has_stream_key: self.stream_key_ref.is_some(),
        }
    }
}

} // verus!
