//! The parts of a scene that the plans read: its sources, their kinds, and the
//! JSON configuration of each source, held as plain values.

use vstd::prelude::*;
use crate::text::str_eq;

verus! {

#[derive(Clone, Copy, Debug, PartialEq, Eq, Structural)]
pub enum SceneSourceKind {
    Display,
    Window,
    Camera,
    AudioMeter,
    ImageMedia,
    BrowserOverlay,
    Text,
    Group,
}

#[derive(Clone, Copy, Debug, PartialEq, Eq, Structural)]
pub enum SceneSourceBoundsMode {
    Stretch,
    Fit,
    Fill,
    Center,
    OriginalSize,
}

/// A JSON value that is not an array or an object. Numbers that are not
/// non-negative integers, and `null`, are `Other`.
#[derive(Clone, Debug)]
pub enum ConfigScalar {
    Str(String),
    UInt(u64),
    Bool(bool),
    Other,
}

/// A member of a JSON object nested in a source's configuration.
#[derive(Clone, Debug)]
pub struct ConfigField {
    pub key: String,
    pub value: ConfigScalar,
}

/// A top-level configuration value: a scalar, an array of scalars (arrays and objects
/// inside it are `Other`), or an object of scalars.
#[derive(Clone, Debug)]
pub enum ConfigValue {
    Scalar(ConfigScalar),
    Array(Vec<ConfigScalar>),
    Object(Vec<ConfigField>),
}

/// A member of a source's configuration object.
#[derive(Clone, Debug)]
pub struct ConfigEntry {
    pub key: String,
    pub value: ConfigValue,
}

/// The value stored under `key`: the first entry with that key.
pub open spec fn entry_lookup(es: Seq<ConfigEntry>, key: Seq<char>) -> Option<ConfigValue>
    decreases es.len(),
{
    if es.len() == 0 {
        None
    } else if es[0].key@ == key {
        Some(es[0].value)
    } else {
        entry_lookup(es.drop_first(), key)
    }
}

/// The scalar stored under `key` in a nested object: the first field with that key.
pub open spec fn field_lookup(fs: Seq<ConfigField>, key: Seq<char>) -> Option<ConfigScalar>
    decreases fs.len(),
{
    if fs.len() == 0 {
        None
    } else if fs[0].key@ == key {
        Some(fs[0].value)
    } else {
        field_lookup(fs.drop_first(), key)
    }
}

pub fn config_get<'a>(config: &'a Vec<ConfigEntry>, key: &str) -> (r: Option<&'a ConfigValue>)
    ensures
        match r {
            Some(v) => entry_lookup(config@, key@) == Some(*v),
            None => entry_lookup(config@, key@) is None,
        },
{
    let mut i: usize = 0;
    assert(config@.skip(0) =~= config@);
    while i < config.len()
        invariant
            i <= config@.len(),
            entry_lookup(config@, key@) == entry_lookup(config@.skip(i as int), key@),
        decreases config@.len() - i,
    {
        assert(config@.skip(i as int).drop_first() =~= config@.skip(i + 1));
        if str_eq(config[i].key.as_str(), key) {
            return Some(&config[i].value);
        }
        i = i + 1;
    }
    None
}

pub fn field_get<'a>(fields: &'a Vec<ConfigField>, key: &str) -> (r: Option<&'a ConfigScalar>)
    ensures
        match r {
            Some(v) => field_lookup(fields@, key@) == Some(*v),
            None => field_lookup(fields@, key@) is None,
        },
{
    let mut i: usize = 0;
    assert(fields@.skip(0) =~= fields@);
    while i < fields.len()
        invariant
            i <= fields@.len(),
            field_lookup(fields@, key@) == field_lookup(fields@.skip(i as int), key@),
        decreases fields@.len() - i,
    {
        assert(fields@.skip(i as int).drop_first() =~= fields@.skip(i + 1));
        if str_eq(fields[i].key.as_str(), key) {
            return Some(&fields[i].value);
        }
        i = i + 1;
    }
    None
}

/// `config.get(key).and_then(Value::as_str)`.
pub open spec fn config_str_spec(config: Seq<ConfigEntry>, key: Seq<char>) -> Option<Seq<char>> {
    match entry_lookup(config, key) {
        Some(ConfigValue::Scalar(ConfigScalar::Str(s))) => Some(s@),
        _ => None,
    }
}

/// `config.get(key).and_then(Value::as_u64)`.
pub open spec fn config_u64_spec(config: Seq<ConfigEntry>, key: Seq<char>) -> Option<u64> {
    match entry_lookup(config, key) {
        Some(ConfigValue::Scalar(ConfigScalar::UInt(n))) => Some(n),
        _ => None,
    }
}

/// `config.get(outer).and_then(|v| v.get(inner)).and_then(Value::as_str)`.
pub open spec fn nested_str_spec(config: Seq<ConfigEntry>, outer: Seq<char>, inner: Seq<char>) -> Option<Seq<char>> {
    match entry_lookup(config, outer) {
        Some(ConfigValue::Object(fs)) => match field_lookup(fs@, inner) {
            Some(ConfigScalar::Str(s)) => Some(s@),
            _ => None,
        },
        _ => None,
    }
}

/// `config.get(outer).and_then(|v| v.get(inner)).and_then(Value::as_u64)`.
pub open spec fn nested_u64_spec(config: Seq<ConfigEntry>, outer: Seq<char>, inner: Seq<char>) -> Option<u64> {
    match entry_lookup(config, outer) {
        Some(ConfigValue::Object(fs)) => match field_lookup(fs@, inner) {
            Some(ConfigScalar::UInt(n)) => Some(n),
            _ => None,
        },
        _ => None,
    }
}

pub fn config_str(config: &Vec<ConfigEntry>, key: &str) -> (r: Option<String>)
    ensures
        match r {
            Some(s) => config_str_spec(config@, key@) == Some(s@),
            None => config_str_spec(config@, key@) is None,
        },
{
    match config_get(config, key) {
        Some(ConfigValue::Scalar(ConfigScalar::Str(s))) => Some(s.clone()),
        _ => None,
    }
}

pub fn config_u64(config: &Vec<ConfigEntry>, key: &str) -> (r: Option<u64>)
    ensures
        r == config_u64_spec(config@, key@),
{
    match config_get(config, key) {
        Some(ConfigValue::Scalar(ConfigScalar::UInt(n))) => Some(*n),
        _ => None,
    }
}

pub fn nested_str(config: &Vec<ConfigEntry>, outer: &str, inner: &str) -> (r: Option<String>)
    ensures
        match r {
            Some(s) => nested_str_spec(config@, outer@, inner@) == Some(s@),
            None => nested_str_spec(config@, outer@, inner@) is None,
        },
{
    match config_get(config, outer) {
        Some(ConfigValue::Object(fs)) => match field_get(fs, inner) {
            Some(ConfigScalar::Str(s)) => Some(s.clone()),
            _ => None,
        },
        _ => None,
    }
}

pub fn nested_u64(config: &Vec<ConfigEntry>, outer: &str, inner: &str) -> (r: Option<u64>)
    ensures
        r == nested_u64_spec(config@, outer@, inner@),
{
    match config_get(config, outer) {
        Some(ConfigValue::Object(fs)) => match field_get(fs, inner) {
            Some(ConfigScalar::UInt(n)) => Some(*n),
            _ => None,
        },
        _ => None,
    }
}

#[derive(Clone, Debug)]
pub struct SceneCanvas {
    pub width: u32,
    pub height: u32,
    pub background_color: String,
}

/// A scene source. `rounded_width` and `rounded_height` are the source's size rounded
/// to whole pixels and at least one; `capture_source_id` is its capture identity;
/// `geometry` holds the outcome of the checks on its position, size, crop, rotation and
/// opacity. For an audio source, `audio_gain_in_range` records that the `gain_db` of
/// its configuration (zero when absent) is a finite number from -60 to 24, and
/// `audio_sync_offset_ms` is its `sync_offset_ms` rounded (zero when absent).
#[derive(Clone, Debug)]
pub struct SceneSource {
    pub id: String,
    pub name: String,
    pub kind: SceneSourceKind,
    pub visible: bool,
    pub locked: bool,
    pub z_index: i32,
    pub bounds_mode: SceneSourceBoundsMode,
    pub rounded_width: u32,
    pub rounded_height: u32,
    pub capture_source_id: Option<String>,
    pub geometry: crate::compositor::CompositorGeometryChecks,
    pub audio_gain_in_range: bool,
    pub audio_sync_offset_ms: i32,
    pub config: Vec<ConfigEntry>,
}

#[derive(Clone, Debug)]
pub struct Scene {
    pub id: String,
    pub name: String,
    pub canvas: SceneCanvas,
    pub sources: Vec<SceneSource>,
}

} // verus!
