//! The device configuration translator: from raw user-facing settings to the
//! validated session configuration.
//!
//! The device-type and bitrate tokens are free-form text. Each is parsed by
//! the owning external crate; an unrecognized token falls back to the
//! documented default (best effort, never an error).

use vstd::prelude::*;
use core::str::FromStr;
use librespot_core::config::DeviceType;
use librespot_playback::config::Bitrate;
use crate::volume::linear_of_percent;
use crate::volume::to_linear;

verus! {

#[verifier::external_type_specification]
pub struct ExDeviceType(DeviceType);

#[verifier::external_type_specification]
pub struct ExBitrate(Bitrate);

// The case-folded image of a device-type token, as computed by
// str::to_lowercase inside librespot's device-type parser. The folding is a
// function of the characters alone; its full definition is not restated here.
pub uninterp spec fn lowercase_of(s: Seq<char>) -> Seq<char>;

/// The device-type table of `librespot_core::config::DeviceType`'s `FromStr`
/// implementation, keyed by the already lowercased token.
pub open spec fn device_type_of_lower(s: Seq<char>) -> Option<DeviceType> {
    if s == "computer"@ {
        Some(DeviceType::Computer)
    } else if s == "tablet"@ {
        Some(DeviceType::Tablet)
    } else if s == "smartphone"@ {
        Some(DeviceType::Smartphone)
    } else if s == "speaker"@ {
        Some(DeviceType::Speaker)
    } else if s == "tv"@ {
        Some(DeviceType::Tv)
    } else if s == "avr"@ {
        Some(DeviceType::Avr)
    } else if s == "stb"@ {
        Some(DeviceType::Stb)
    } else if s == "audiodongle"@ {
        Some(DeviceType::AudioDongle)
    } else if s == "gameconsole"@ {
        Some(DeviceType::GameConsole)
    } else if s == "castaudio"@ {
        Some(DeviceType::CastAudio)
    } else if s == "castvideo"@ {
        Some(DeviceType::CastVideo)
    } else if s == "automobile"@ {
        Some(DeviceType::Automobile)
    } else if s == "smartwatch"@ {
        Some(DeviceType::Smartwatch)
    } else if s == "chromebook"@ {
        Some(DeviceType::Chromebook)
    } else if s == "carthing"@ {
        Some(DeviceType::CarThing)
    } else if s == "homething"@ {
        Some(DeviceType::HomeThing)
    } else {
        None
    }
}

/// Relies on `DeviceType`'s `FromStr` in librespot-core: the token is
/// lowercased and looked up in the device-type table; any other token is
/// rejected with `Err(())`.
pub assume_specification[ <DeviceType as FromStr>::from_str ](s: &str) -> (r: Result<
    DeviceType,
    <DeviceType as FromStr>::Err,
>)
    ensures
        r == (match device_type_of_lower(lowercase_of(s@)) {
            Some(d) => Result::<DeviceType, ()>::Ok(d),
            None => Result::<DeviceType, ()>::Err(()),
        }),
;

/// The bitrate table of `librespot_playback::config::Bitrate`'s `FromStr`
/// implementation.
pub open spec fn bitrate_of_token(s: Seq<char>) -> Option<Bitrate> {
    if s == "96"@ {
        Some(Bitrate::Bitrate96)
    } else if s == "160"@ {
        Some(Bitrate::Bitrate160)
    } else if s == "320"@ {
        Some(Bitrate::Bitrate320)
    } else {
        None
    }
}

/// Relies on `Bitrate`'s `FromStr` in librespot-playback: exactly the tokens
/// "96", "160" and "320" parse; any other token is rejected with `Err(())`.
pub assume_specification[ <Bitrate as FromStr>::from_str ](s: &str) -> (r: Result<
    Bitrate,
    <Bitrate as FromStr>::Err,
>)
    ensures
        r == (match bitrate_of_token(s@) {
            Some(b) => Result::<Bitrate, ()>::Ok(b),
            None => Result::<Bitrate, ()>::Err(()),
        }),
;

/// The device type a raw token resolves to: the parsed device type, or the
/// enumeration default (`Speaker`) when the token is unrecognized.
pub open spec fn resolved_device_type(token: Seq<char>) -> DeviceType {
    match device_type_of_lower(lowercase_of(token)) {
        Some(d) => d,
        None => DeviceType::Speaker,
    }
}

/// The bitrate a raw token resolves to: the parsed bitrate, or the codec
/// default (160 kbps) when the token is unrecognized.
pub open spec fn resolved_bitrate(token: Seq<char>) -> Bitrate {
    match bitrate_of_token(token) {
        Some(b) => b,
        None => Bitrate::Bitrate160,
    }
}

/// Raw user-facing device settings, as external configuration loading hands
/// them over. The token fields are free-form text.
pub struct RawDeviceConfig {
    pub name: String,
    pub device_type: String,
    pub volume: u8,
    pub bitrate: String,
}

/// The validated session configuration: every field resolved, defaulted and
/// scaled. Created once per session and never mutated.
pub struct SessionConfig {
    pub name: String,
    pub device_type: DeviceType,
    pub volume: u16,
    pub bitrate: Bitrate,
    pub volume_control_enabled: bool,
    pub autoplay: bool,
}

impl SessionConfig {
    /// The translation relation: this configuration is exactly what `raw`
    /// resolves to. The volume is always the rounded linear image of the
    /// clamped percentage; remote volume control and autoplay are fixed off.
    pub open spec fn is_translation_of(self, raw: RawDeviceConfig) -> bool {
        &&& self.name@ == raw.name@
        &&& self.device_type == resolved_device_type(raw.device_type@)
        &&& self.volume as int == linear_of_percent(raw.volume as int)
        &&& self.bitrate == resolved_bitrate(raw.bitrate@)
        &&& self.volume_control_enabled == false
        &&& self.autoplay == false
    }
}

/// Parses a device-type token, falling back to the enumeration default
/// (`Speaker`) on an unrecognized token.
pub fn parse_device_type(token: &str) -> (d: DeviceType)
    ensures
        d == resolved_device_type(token@),
{
    match DeviceType::from_str(token) {
        Ok(d) => d,
        Err(_) => DeviceType::Speaker,
    }
}

/// Parses a bitrate token, falling back to the codec default (160 kbps) on an
/// unrecognized token.
pub fn parse_bitrate(token: &str) -> (b: Bitrate)
    ensures
        b == resolved_bitrate(token@),
{
    match Bitrate::from_str(token) {
        Ok(b) => b,
        Err(_) => Bitrate::Bitrate160,
    }
}

/// A translation maps an unrecognized device-type token to the enumeration
/// default, `Speaker`, and still succeeds.
pub proof fn lemma_unknown_device_type_falls_back(cfg: SessionConfig, raw: RawDeviceConfig)
    requires
        cfg.is_translation_of(raw),
        device_type_of_lower(lowercase_of(raw.device_type@)) is None,
    ensures
        cfg.device_type == DeviceType::Speaker,
{
}

/// A translation maps an unrecognized bitrate token to the codec's default,
/// 160 kbps, and still succeeds.
pub proof fn lemma_unknown_bitrate_falls_back(cfg: SessionConfig, raw: RawDeviceConfig)
    requires
        cfg.is_translation_of(raw),
        bitrate_of_token(raw.bitrate@) is None,
    ensures
        cfg.bitrate == Bitrate::Bitrate160,
{
}

/// Translates raw device settings into the validated session configuration.
/// Unrecognized tokens fall back to their defaults and a volume above 100 is
/// clamped: translation never fails.
pub fn translate(raw: RawDeviceConfig) -> (cfg: SessionConfig)
    ensures
        cfg.is_translation_of(raw),
{
    let device_type = parse_device_type(raw.device_type.as_str());
    let bitrate = parse_bitrate(raw.bitrate.as_str());
    let volume = to_linear(raw.volume);
    SessionConfig {
        name: raw.name,
        device_type,
        volume,
        bitrate,
        volume_control_enabled: false,
        autoplay: false,
    }
}

} // verus!
