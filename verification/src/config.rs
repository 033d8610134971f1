//! Runtime configuration from environment values, with documented defaults.
use vstd::prelude::*;
use vstd::string::StringSliceAdditionalSpecFns;
pub use crate::limits::ImageLimits;
use crate::limits::{Backend, LimitError};
use crate::request::string_bytes;
use crate::text::{count_digits, decimal_unsigned, digit_count, parse_unsigned};

verus! {

#[verifier::external_type_specification]
#[verifier::external_body]
pub struct ExDurationError(humantime::DurationError);

/// An environment variable as read: unset, not valid Unicode, or its value.
#[derive(Clone, Debug)]
pub enum EnvValue {
    Missing,
    NotUnicode,
    Present(String),
}

/// The environment variables that configure the service (`GRPC_ADDR` is
/// parsed as a socket address by the caller).
#[derive(Clone, Debug)]
pub struct EnvVars {
    pub worker_timeout: EnvValue,
    pub panel_rows: EnvValue,
    pub panel_cols: EnvValue,
    pub panel_brightness: EnvValue,
    pub scroll_interval_ms: EnvValue,
    pub panel_refresh_rate: EnvValue,
    pub panel_slowdown: EnvValue,
    pub panel_pwm_bits: EnvValue,
    pub panel_pwm_lsb_nanoseconds: EnvValue,
    pub jingle_path: EnvValue,
    pub eyecatch_path: EnvValue,
    pub eyecatch_duration_ms: EnvValue,
    pub max_image_dimension: EnvValue,
    pub max_animation_frames: EnvValue,
    pub max_decoded_bytes: EnvValue,
    pub max_render_bytes: EnvValue,
}

/// The image limits that must be positive.
#[derive(Clone, Copy, Debug, PartialEq, Eq, Structural)]
pub enum LimitKey {
    MaxImageDimension,
    MaxAnimationFrames,
    MaxDecodedBytes,
    MaxRenderBytes,
}

/// The environment variable of a limit.
pub open spec fn limit_key_name(key: LimitKey) -> &'static str {
    match key {
        LimitKey::MaxImageDimension => "MAX_IMAGE_DIMENSION",
        LimitKey::MaxAnimationFrames => "MAX_ANIMATION_FRAMES",
        LimitKey::MaxDecodedBytes => "MAX_DECODED_BYTES",
        LimitKey::MaxRenderBytes => "MAX_RENDER_BYTES",
    }
}

impl LimitKey {
    /// The environment variable of the limit.
    pub fn name(self) -> (r: &'static str)
        ensures
            r == limit_key_name(self),
    {
        match self {
            LimitKey::MaxImageDimension => "MAX_IMAGE_DIMENSION",
            LimitKey::MaxAnimationFrames => "MAX_ANIMATION_FRAMES",
            LimitKey::MaxDecodedBytes => "MAX_DECODED_BYTES",
            LimitKey::MaxRenderBytes => "MAX_RENDER_BYTES",
        }
    }
}

/// Why the configuration was refused.
#[derive(Debug)]
pub enum ConfigError {
    /// `WORKER_TIMEOUT` is not a duration.
    InvalidWorkerTimeout(humantime::DurationError),
    /// `WORKER_TIMEOUT` holds more digits than `MAX_TIMEOUT_DIGITS`.
    WorkerTimeoutTooLarge,
    /// A limit is not a number of its type.
    InvalidLimit(LimitKey),
    /// A limit is zero.
    NonPositiveLimit(LimitKey),
    /// The panel does not fit the image limits.
    Panel(LimitError),
}

/// Invalid values produce a warning and keep the default.
#[derive(Clone, Copy, Debug)]
pub enum ConfigWarning {
    /// The variable's value is not a number of its type (the variable is named).
    InvalidValue(&'static str),
    /// `PANEL_BRIGHTNESS` exceeds 100 and is clamped to 100 (the value is carried).
    BrightnessClamped(u8),
}

/// The address to listen on: `GRPC_ADDR`, or `0.0.0.0:50051` where unset or
/// not Unicode.
pub fn grpc_addr_text(v: &EnvValue) -> (r: String)
    ensures
        v matches EnvValue::Present(s) ==> r@ == s@,
        !(v is Present) ==> r@ == "0.0.0.0:50051"@,
{
    match v {
        EnvValue::Present(s) => s.clone(),
        _ => String::from_str("0.0.0.0:50051"),
    }
}

/// A numeric setting: its value when it is a number within `max`, else the default.
pub open spec fn setting_or(v: EnvValue, default: u64, max: u64) -> u64 {
    match v {
        EnvValue::Present(s) => match decimal_unsigned(string_bytes(s), max) {
            Some(n) => n,
            None => default,
        },
        _ => default,
    }
}

/// Whether a set value was refused (and so warned about).
pub open spec fn setting_invalid(v: EnvValue, max: u64) -> bool {
    v matches EnvValue::Present(s) && decimal_unsigned(string_bytes(s), max) is None
}

/// Read a numeric setting of an unsigned type whose maximum is `max`.
pub fn env_parse(v: &EnvValue, default: u64, max: u64) -> (r: (u64, bool))
    requires
        default <= max,
    ensures
        r.0 <= max,
        r.0 == setting_or(*v, default, max),
        r.1 == setting_invalid(*v, max),
{
    match v {
        EnvValue::Present(s) => match parse_unsigned(s.as_str(), max) {
            Some(n) => (n, false),
            None => (default, true),
        },
        _ => (default, false),
    }
}

/// An optional numeric setting: `None` where unset, not Unicode or invalid.
pub open spec fn optional_setting(v: EnvValue, max: u64) -> Option<u64> {
    match v {
        EnvValue::Present(s) => decimal_unsigned(string_bytes(s), max),
        _ => None,
    }
}

pub fn env_parse_opt(v: &EnvValue, max: u64) -> (r: Option<u64>)
    ensures
        r matches Some(n) ==> n <= max,
        r == optional_setting(*v, max),
{
    match v {
        EnvValue::Present(s) => parse_unsigned(s.as_str(), max),
        _ => None,
    }
}

/// A limit: the default where unset; refused where not Unicode, not a number
/// of its type, or zero.
pub open spec fn positive_setting(v: EnvValue, default: u64, max: u64, key: LimitKey) -> Result<u64, ConfigError> {
    let value = match v {
        EnvValue::Missing => Ok(default),
        EnvValue::NotUnicode => Err(ConfigError::InvalidLimit(key)),
        EnvValue::Present(s) => match decimal_unsigned(string_bytes(s), max) {
            Some(n) => Ok(n),
            None => Err(ConfigError::InvalidLimit(key)),
        },
    };
    match value {
        Err(e) => Err(e),
        Ok(n) => if n == 0 { Err(ConfigError::NonPositiveLimit(key)) } else { Ok(n) },
    }
}

pub fn positive_env(v: &EnvValue, default: u64, max: u64, key: LimitKey) -> (r: Result<u64, ConfigError>)
    requires
        default <= max,
    ensures
        r matches Ok(n) ==> 0 < n <= max,
        r == positive_setting(*v, default, max, key),
{
    let value = match v {
        EnvValue::Missing => default,
        EnvValue::NotUnicode => return Err(ConfigError::InvalidLimit(key)),
        EnvValue::Present(s) => match parse_unsigned(s.as_str(), max) {
            Some(n) => n,
            None => return Err(ConfigError::InvalidLimit(key)),
        },
    };
    if value == 0 {
        Err(ConfigError::NonPositiveLimit(key))
    } else {
        Ok(value)
    }
}

/// A path setting: the value where set and Unicode.
pub open spec fn path_setting(v: EnvValue) -> Option<String> {
    match v {
        EnvValue::Present(s) => Some(s),
        _ => None,
    }
}

pub fn env_path(v: &EnvValue) -> (r: Option<String>)
    ensures
        r matches Some(p) ==> path_setting(*v) matches Some(q) && p@ == q@,
        r is None <==> path_setting(*v) is None,
{
    match v {
        EnvValue::Present(s) => Some(s.clone()),
        _ => None,
    }
}

/// The limits from the environment: each one positive, defaults as in
/// `ImageLimits::default`.
pub open spec fn limits_setting(
    dimension: EnvValue,
    frames: EnvValue,
    decoded: EnvValue,
    render: EnvValue,
) -> Result<ImageLimits, ConfigError> {
    match positive_setting(dimension, 4096, u32::MAX as u64, LimitKey::MaxImageDimension) {
        Err(e) => Err(e),
        Ok(d) => match positive_setting(frames, 256, usize::MAX as u64, LimitKey::MaxAnimationFrames) {
            Err(e) => Err(e),
            Ok(f) => match positive_setting(decoded, 67_108_864u64, u64::MAX, LimitKey::MaxDecodedBytes) {
                Err(e) => Err(e),
                Ok(b) => match positive_setting(render, 16_777_216u64, u64::MAX, LimitKey::MaxRenderBytes) {
                    Err(e) => Err(e),
                    Ok(r) => Ok(ImageLimits {
                        max_dimension: d as u32,
                        max_frames: f as usize,
                        max_decoded_bytes: b,
                        max_render_bytes: r,
                    }),
                },
            },
        },
    }
}

impl ImageLimits {
    /// `MAX_IMAGE_DIMENSION`, `MAX_ANIMATION_FRAMES`, `MAX_DECODED_BYTES` and
    /// `MAX_RENDER_BYTES`, in this order.
    pub fn from_env(
        dimension: &EnvValue,
        frames: &EnvValue,
        decoded: &EnvValue,
        render: &EnvValue,
    ) -> (r: Result<ImageLimits, ConfigError>)
        ensures
            r == limits_setting(*dimension, *frames, *decoded, *render),
            r matches Ok(l) ==> l.all_positive(),
    {
        let defaults = ImageLimits::default();
        let d = positive_env(dimension, defaults.max_dimension as u64, 0xffff_ffff, LimitKey::MaxImageDimension)?;
        let f = positive_env(frames, defaults.max_frames as u64, usize::MAX as u64, LimitKey::MaxAnimationFrames)?;
        let b = positive_env(decoded, defaults.max_decoded_bytes, u64::MAX, LimitKey::MaxDecodedBytes)?;
        let r = positive_env(render, defaults.max_render_bytes, u64::MAX, LimitKey::MaxRenderBytes)?;
        Ok(ImageLimits { max_dimension: d as u32, max_frames: f as usize, max_decoded_bytes: b, max_render_bytes: r })
    }
}

/// `humantime::parse_duration` of a text, as whole seconds and nanoseconds;
/// `None` where humantime refuses it.
pub uninterp spec fn humantime_duration(text: Seq<char>) -> Option<(u64, u32)>;

/// The most decimal digits a `WORKER_TIMEOUT` text may hold. With at most
/// this many digits, every unit of the text stays below about 3.2e18 seconds,
/// short of the `u64` seconds at which `humantime::parse_duration` panics
/// (its `add_current` passes a carry of exactly one second to
/// `Duration::new`, which panics when the seconds are at their maximum). Up to
/// 99,999,999,999 seconds (about 3,000 years) are within it.
pub const MAX_TIMEOUT_DIGITS: usize = 11;

/// `humantime::parse_duration`, with the duration taken apart by `as_secs`
/// and `subsec_nanos`. Claimed: success and the value are a function of the
/// text. Texts with more digits than `MAX_TIMEOUT_DIGITS` are left out, since
/// some of them make the parser panic.
#[verifier::external_body]
fn parse_humantime(text: &str) -> (r: Result<(u64, u32), humantime::DurationError>)
    requires
        digit_count(text@) <= MAX_TIMEOUT_DIGITS,
    ensures
        r is Ok <==> humantime_duration(text@) is Some,
        r matches Ok(d) ==> humantime_duration(text@) == Some(d),
{
    let d = humantime::parse_duration(text)?;
    Ok((d.as_secs(), d.subsec_nanos()))
}

/// Whole milliseconds of a duration, at most `u64::MAX`.
pub open spec fn millis_of(secs: u64, nanos: u32) -> u64 {
    let m = secs * 1000 + nanos / 1_000_000;
    if m > u64::MAX { u64::MAX } else { m as u64 }
}

pub fn duration_millis(secs: u64, nanos: u32) -> (r: u64)
    ensures
        r == millis_of(secs, nanos),
{
    let whole = (nanos / 1_000_000) as u64;
    match secs.checked_mul(1000) {
        None => u64::MAX,
        Some(m) => match m.checked_add(whole) {
            None => u64::MAX,
            Some(t) => t,
        },
    }
}

/// A set `WORKER_TIMEOUT` with more digits than `MAX_TIMEOUT_DIGITS`.
pub open spec fn worker_timeout_too_long(v: EnvValue) -> bool {
    v matches EnvValue::Present(s) && digit_count(s@) > MAX_TIMEOUT_DIGITS
}

/// `WORKER_TIMEOUT` in milliseconds: 30 s where unset or not Unicode; a set
/// value must be a humantime duration of at most `MAX_TIMEOUT_DIGITS` digits.
pub open spec fn worker_timeout_setting(v: EnvValue) -> Result<u64, ()> {
    match v {
        EnvValue::Present(s) => if digit_count(s@) > MAX_TIMEOUT_DIGITS {
            Err(())
        } else {
            match humantime_duration(s@) {
                Some(d) => Ok(millis_of(d.0, d.1)),
                None => Err(()),
            }
        },
        _ => Ok(30_000),
    }
}

/// Runtime configuration.
#[derive(Clone, Debug)]
pub struct Config {
    /// Maximum time allowed per display request.
    pub worker_timeout_millis: u64,
    pub panel_rows: u32,
    pub panel_cols: u32,
    /// LED panel brightness, 0–100.
    pub panel_brightness: u8,
    /// Time between advancing one pixel.
    pub scroll_interval_millis: u64,
    /// WAV file played each time an image is displayed.
    pub jingle_path: Option<String>,
    /// Panel refresh-rate limit in Hz; 0 means none.
    pub panel_refresh_rate: usize,
    /// GPIO slowdown factor.
    pub panel_slowdown: Option<u32>,
    pub panel_pwm_bits: u32,
    pub panel_pwm_lsb_nanoseconds: u32,
    /// GIF shown before the main image.
    pub eyecatch_path: Option<String>,
    /// How long the eye-catch is shown.
    pub eyecatch_duration_millis: u64,
    pub image_limits: ImageLimits,
}

/// The brightness after clamping to 100.
pub open spec fn brightness_of(raw: u64) -> u8 {
    if raw > 100 { 100 } else { raw as u8 }
}

/// The configuration that the environment describes: defaults
/// `PANEL_ROWS` 32, `PANEL_COLS` 64, `PANEL_BRIGHTNESS` 50 (clamped to 100),
/// `SCROLL_INTERVAL_MS` 30, `PANEL_REFRESH_RATE` 120, `PANEL_PWM_BITS` 11,
/// `PANEL_PWM_LSB_NANOSECONDS` 130, `EYECATCH_DURATION_MS` 3000.
pub open spec fn config_fields_ok(c: Config, vars: EnvVars) -> bool {
    &&& c.panel_rows == setting_or(vars.panel_rows, 32, u32::MAX as u64)
    &&& c.panel_cols == setting_or(vars.panel_cols, 64, u32::MAX as u64)
    &&& c.panel_brightness == brightness_of(setting_or(vars.panel_brightness, 50, u8::MAX as u64))
    &&& c.scroll_interval_millis == setting_or(vars.scroll_interval_ms, 30, u64::MAX)
    &&& c.panel_refresh_rate == setting_or(vars.panel_refresh_rate, 120, usize::MAX as u64)
    &&& c.panel_slowdown == (match optional_setting(vars.panel_slowdown, u32::MAX as u64) {
        Some(n) => Some(n as u32),
        None => None,
    })
    &&& c.panel_pwm_bits == setting_or(vars.panel_pwm_bits, 11, u32::MAX as u64)
    &&& c.panel_pwm_lsb_nanoseconds == setting_or(vars.panel_pwm_lsb_nanoseconds, 130, u32::MAX as u64)
    &&& c.eyecatch_duration_millis == setting_or(vars.eyecatch_duration_ms, 3000, u64::MAX)
    &&& (c.jingle_path is Some <==> path_setting(vars.jingle_path) is Some)
    &&& (c.jingle_path matches Some(p) ==> p@ == path_setting(vars.jingle_path)->0@)
    &&& (c.eyecatch_path is Some <==> path_setting(vars.eyecatch_path) is Some)
    &&& (c.eyecatch_path matches Some(p) ==> p@ == path_setting(vars.eyecatch_path)->0@)
}

/// One warning when `bad` holds.
pub open spec fn warn_if(bad: bool, w: ConfigWarning) -> Seq<ConfigWarning> {
    if bad {
        seq![w]
    } else {
        Seq::empty()
    }
}

/// The warnings about the optional settings, in the order they are read:
/// each value that is set but not a number of its type, and a brightness
/// above 100.
pub open spec fn config_warnings(vars: EnvVars) -> Seq<ConfigWarning> {
    let brightness = setting_or(vars.panel_brightness, 50, u8::MAX as u64);
    Seq::empty()
        + warn_if(setting_invalid(vars.panel_rows, u32::MAX as u64), ConfigWarning::InvalidValue("PANEL_ROWS"))
        + warn_if(setting_invalid(vars.panel_cols, u32::MAX as u64), ConfigWarning::InvalidValue("PANEL_COLS"))
        + warn_if(setting_invalid(vars.panel_brightness, u8::MAX as u64), ConfigWarning::InvalidValue("PANEL_BRIGHTNESS"))
        + warn_if(brightness > 100, ConfigWarning::BrightnessClamped(brightness as u8))
        + warn_if(setting_invalid(vars.scroll_interval_ms, u64::MAX), ConfigWarning::InvalidValue("SCROLL_INTERVAL_MS"))
        + warn_if(setting_invalid(vars.panel_refresh_rate, usize::MAX as u64), ConfigWarning::InvalidValue("PANEL_REFRESH_RATE"))
        + warn_if(setting_invalid(vars.panel_slowdown, u32::MAX as u64), ConfigWarning::InvalidValue("PANEL_SLOWDOWN"))
        + warn_if(setting_invalid(vars.panel_pwm_bits, u32::MAX as u64), ConfigWarning::InvalidValue("PANEL_PWM_BITS"))
        + warn_if(
            setting_invalid(vars.panel_pwm_lsb_nanoseconds, u32::MAX as u64),
            ConfigWarning::InvalidValue("PANEL_PWM_LSB_NANOSECONDS"),
        )
        + warn_if(setting_invalid(vars.eyecatch_duration_ms, u64::MAX), ConfigWarning::InvalidValue("EYECATCH_DURATION_MS"))
}

/// The settings that keep their defaults when invalid.
struct PanelSettings {
    rows: u32,
    cols: u32,
    brightness: u8,
    scroll_interval_millis: u64,
    refresh_rate: usize,
    slowdown: Option<u32>,
    pwm_bits: u32,
    pwm_lsb_nanoseconds: u32,
    jingle_path: Option<String>,
    eyecatch_path: Option<String>,
    eyecatch_duration_millis: u64,
}

/// The settings as a configuration holds them.
spec fn panel_settings_ok(p: PanelSettings, vars: EnvVars) -> bool {
    config_fields_ok(
        Config {
            worker_timeout_millis: 0,
            panel_rows: p.rows,
            panel_cols: p.cols,
            panel_brightness: p.brightness,
            scroll_interval_millis: p.scroll_interval_millis,
            jingle_path: p.jingle_path,
            panel_refresh_rate: p.refresh_rate,
            panel_slowdown: p.slowdown,
            panel_pwm_bits: p.pwm_bits,
            panel_pwm_lsb_nanoseconds: p.pwm_lsb_nanoseconds,
            eyecatch_path: p.eyecatch_path,
            eyecatch_duration_millis: p.eyecatch_duration_millis,
            image_limits: ImageLimits { max_dimension: 0, max_frames: 0, max_decoded_bytes: 0, max_render_bytes: 0 },
        },
        vars,
    )
}

fn add_warning(warnings: &mut Vec<ConfigWarning>, bad: bool, w: ConfigWarning)
    ensures
        final(warnings)@ == old(warnings)@ + warn_if(bad, w),
{
    if bad {
        warnings.push(w);
    }
}

/// Read the optional settings, with a warning for each invalid one.
fn panel_settings(vars: &EnvVars) -> (r: (PanelSettings, Vec<ConfigWarning>))
    ensures
        panel_settings_ok(r.0, *vars),
        r.1@ == config_warnings(*vars),
{
    let mut warnings: Vec<ConfigWarning> = Vec::new();
    let (rows, bad) = env_parse(&vars.panel_rows, 32, 0xffff_ffff);
    add_warning(&mut warnings, bad, ConfigWarning::InvalidValue("PANEL_ROWS"));
    let (cols, bad) = env_parse(&vars.panel_cols, 64, 0xffff_ffff);
    add_warning(&mut warnings, bad, ConfigWarning::InvalidValue("PANEL_COLS"));
    let (raw_brightness, bad) = env_parse(&vars.panel_brightness, 50, 255);
    add_warning(&mut warnings, bad, ConfigWarning::InvalidValue("PANEL_BRIGHTNESS"));
    add_warning(&mut warnings, raw_brightness > 100, ConfigWarning::BrightnessClamped(raw_brightness as u8));
    let brightness: u8 = if raw_brightness > 100 { 100 } else { raw_brightness as u8 };
    let (scroll_interval_millis, bad) = env_parse(&vars.scroll_interval_ms, 30, u64::MAX);
    add_warning(&mut warnings, bad, ConfigWarning::InvalidValue("SCROLL_INTERVAL_MS"));
    let (refresh, bad) = env_parse(&vars.panel_refresh_rate, 120, usize::MAX as u64);
    add_warning(&mut warnings, bad, ConfigWarning::InvalidValue("PANEL_REFRESH_RATE"));
    let slowdown: Option<u32> = match env_parse_opt(&vars.panel_slowdown, 0xffff_ffff) {
        Some(n) => Some(n as u32),
        None => None,
    };
    add_warning(
        &mut warnings,
        slowdown.is_none() && vars.panel_slowdown.is_present(),
        ConfigWarning::InvalidValue("PANEL_SLOWDOWN"),
    );
    let (pwm_bits, bad) = env_parse(&vars.panel_pwm_bits, 11, 0xffff_ffff);
    add_warning(&mut warnings, bad, ConfigWarning::InvalidValue("PANEL_PWM_BITS"));
    let (pwm_lsb, bad) = env_parse(&vars.panel_pwm_lsb_nanoseconds, 130, 0xffff_ffff);
    add_warning(&mut warnings, bad, ConfigWarning::InvalidValue("PANEL_PWM_LSB_NANOSECONDS"));
    let jingle_path = env_path(&vars.jingle_path);
    let eyecatch_path = env_path(&vars.eyecatch_path);
    let (eyecatch_duration_millis, bad) = env_parse(&vars.eyecatch_duration_ms, 3000, u64::MAX);
    add_warning(&mut warnings, bad, ConfigWarning::InvalidValue("EYECATCH_DURATION_MS"));
    let p = PanelSettings {
        rows: rows as u32,
        cols: cols as u32,
        brightness,
        scroll_interval_millis,
        refresh_rate: refresh as usize,
        slowdown,
        pwm_bits: pwm_bits as u32,
        pwm_lsb_nanoseconds: pwm_lsb as u32,
        jingle_path,
        eyecatch_path,
        eyecatch_duration_millis,
    };
    (p, warnings)
}

impl Config {
    /// Load the configuration. Errors come in this order: `WORKER_TIMEOUT`,
    /// the image limits, then the panel against the limits. Invalid optional
    /// settings keep their defaults and are reported as warnings.
    pub fn from_env(vars: &EnvVars, backend: Backend) -> (r: Result<(Config, Vec<ConfigWarning>), ConfigError>)
        ensures
            r is Ok <==> {
                &&& worker_timeout_setting(vars.worker_timeout) is Ok
                &&& limits_setting(
                    vars.max_image_dimension,
                    vars.max_animation_frames,
                    vars.max_decoded_bytes,
                    vars.max_render_bytes,
                ) matches Ok(l)
                &&& l.panel_result(
                    backend,
                    setting_or(vars.panel_cols, 64, u32::MAX as u64) as u32,
                    setting_or(vars.panel_rows, 32, u32::MAX as u64) as u32,
                ) is Ok
            },
            r matches Ok((c, w)) ==> {
                &&& config_fields_ok(c, *vars)
                &&& w@ == config_warnings(*vars)
                &&& worker_timeout_setting(vars.worker_timeout) == Ok::<u64, ()>(c.worker_timeout_millis)
                &&& limits_setting(
                    vars.max_image_dimension,
                    vars.max_animation_frames,
                    vars.max_decoded_bytes,
                    vars.max_render_bytes,
                ) == Ok::<ImageLimits, ConfigError>(c.image_limits)
            },
            worker_timeout_too_long(vars.worker_timeout) ==> r matches Err(ConfigError::WorkerTimeoutTooLarge),
            worker_timeout_setting(vars.worker_timeout) is Err && !worker_timeout_too_long(vars.worker_timeout)
                ==> r matches Err(ConfigError::InvalidWorkerTimeout(_)),
            worker_timeout_setting(vars.worker_timeout) is Ok ==> (limits_setting(
                vars.max_image_dimension,
                vars.max_animation_frames,
                vars.max_decoded_bytes,
                vars.max_render_bytes,
            ) matches Err(e) ==> r matches Err(f) && f == e),
            worker_timeout_setting(vars.worker_timeout) is Ok ==> (limits_setting(
                vars.max_image_dimension,
                vars.max_animation_frames,
                vars.max_decoded_bytes,
                vars.max_render_bytes,
            ) matches Ok(l) ==> (l.panel_result(
                backend,
                setting_or(vars.panel_cols, 64, u32::MAX as u64) as u32,
                setting_or(vars.panel_rows, 32, u32::MAX as u64) as u32,
            ) matches Err(pe) ==> r matches Err(ConfigError::Panel(f)) && f == pe)),
    {
        let worker_timeout_millis = match &vars.worker_timeout {
            EnvValue::Present(s) => if count_digits(s.as_str()) > MAX_TIMEOUT_DIGITS {
                return Err(ConfigError::WorkerTimeoutTooLarge);
            } else {
                match parse_humantime(s.as_str()) {
                    Err(e) => return Err(ConfigError::InvalidWorkerTimeout(e)),
                    Ok((secs, nanos)) => duration_millis(secs, nanos),
                }
            },
            _ => 30_000,
        };
        let (p, warnings) = panel_settings(vars);
        let image_limits = ImageLimits::from_env(
            &vars.max_image_dimension,
            &vars.max_animation_frames,
            &vars.max_decoded_bytes,
            &vars.max_render_bytes,
        )?;
        match image_limits.check_panel(p.cols, p.rows, backend) {
            Err(e) => return Err(ConfigError::Panel(e)),
            Ok(()) => {},
        }
        let config = Config {
            worker_timeout_millis,
            panel_rows: p.rows,
            panel_cols: p.cols,
            panel_brightness: p.brightness,
            scroll_interval_millis: p.scroll_interval_millis,
            jingle_path: p.jingle_path,
            panel_refresh_rate: p.refresh_rate,
            panel_slowdown: p.slowdown,
            panel_pwm_bits: p.pwm_bits,
            panel_pwm_lsb_nanoseconds: p.pwm_lsb_nanoseconds,
            eyecatch_path: p.eyecatch_path,
            eyecatch_duration_millis: p.eyecatch_duration_millis,
            image_limits,
        };
        Ok((config, warnings))
    }
}

impl EnvValue {
    pub fn is_present(&self) -> (r: bool)
        ensures
            r <==> self is Present,
    {
        match self {
            EnvValue::Present(_) => true,
            _ => false,
        }
    }
}

} // verus!
