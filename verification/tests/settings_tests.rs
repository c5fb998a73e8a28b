use librespot_core::config::DeviceType;
use librespot_playback::config::Bitrate;
use spotify_connect::settings::{parse_bitrate, parse_device_type, translate, RawDeviceConfig};

fn raw(name: &str, device_type: &str, volume: u8, bitrate: &str) -> RawDeviceConfig {
    RawDeviceConfig {
        name: name.to_string(),
        device_type: device_type.to_string(),
        volume,
        bitrate: bitrate.to_string(),
    }
}

#[test]
fn unrecognized_device_type_falls_back_to_default() {
    let cfg = translate(raw("Desk", "not-a-real-type", 50, "160"));
    assert_eq!(cfg.device_type, DeviceType::Speaker);
}

#[test]
fn unrecognized_bitrate_falls_back_to_codec_default() {
    let cfg = translate(raw("Desk", "speaker", 50, "bogus"));
    assert_eq!(cfg.bitrate, Bitrate::Bitrate160);
}

#[test]
fn scenario_desk_speaker() {
    let cfg = translate(raw("Desk", "speaker", 80, "320"));
    assert_eq!(cfg.name, "Desk");
    assert_eq!(cfg.device_type, DeviceType::Speaker);
    assert_eq!(cfg.volume, 52428);
    assert_eq!(cfg.bitrate, Bitrate::Bitrate320);
    assert!(!cfg.autoplay);
}

#[test]
fn scenario_everything_defaulted() {
    let cfg = translate(raw("Desk", "not-a-real-type", 150, "bogus"));
    assert_eq!(cfg.device_type, DeviceType::Speaker);
    assert_eq!(cfg.bitrate, Bitrate::Bitrate160);
    assert_eq!(cfg.volume, 65535);
    assert!(!cfg.autoplay);
    assert!(!cfg.volume_control_enabled);
}

#[test]
fn device_type_tokens_are_case_insensitive() {
    assert_eq!(parse_device_type("SPEAKER"), DeviceType::Speaker);
    assert_eq!(parse_device_type("Computer"), DeviceType::Computer);
    assert_eq!(parse_device_type("aVr"), DeviceType::Avr);
}

#[test]
fn every_known_device_type_token_parses() {
    let table = [
        ("computer", DeviceType::Computer),
        ("tablet", DeviceType::Tablet),
        ("smartphone", DeviceType::Smartphone),
        ("speaker", DeviceType::Speaker),
        ("tv", DeviceType::Tv),
        ("avr", DeviceType::Avr),
        ("stb", DeviceType::Stb),
        ("audiodongle", DeviceType::AudioDongle),
        ("gameconsole", DeviceType::GameConsole),
        ("castaudio", DeviceType::CastAudio),
        ("castvideo", DeviceType::CastVideo),
        ("automobile", DeviceType::Automobile),
        ("smartwatch", DeviceType::Smartwatch),
        ("chromebook", DeviceType::Chromebook),
        ("carthing", DeviceType::CarThing),
        ("homething", DeviceType::HomeThing),
    ];
    for (token, expected) in table {
        assert_eq!(parse_device_type(token), expected);
    }
}

#[test]
fn every_known_bitrate_token_parses() {
    assert_eq!(parse_bitrate("96"), Bitrate::Bitrate96);
    assert_eq!(parse_bitrate("160"), Bitrate::Bitrate160);
    assert_eq!(parse_bitrate("320"), Bitrate::Bitrate320);
}

#[test]
fn translation_preserves_name_and_scales_volume() {
    let cfg = translate(raw("Living Room", "tv", 0, "96"));
    assert_eq!(cfg.name, "Living Room");
    assert_eq!(cfg.device_type, DeviceType::Tv);
    assert_eq!(cfg.volume, 0);
    assert_eq!(cfg.bitrate, Bitrate::Bitrate96);
}
