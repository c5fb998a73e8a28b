use librespot_core::config::DeviceType;
use librespot_playback::config::{AudioFormat, Bitrate};
use librespot_playback::mixer::Mixer;
use spotify_connect::pipeline::{assemble, build, PipelineError};
use spotify_connect::settings::SessionConfig;

fn config(volume: u16) -> SessionConfig {
    SessionConfig {
        name: "Desk".to_string(),
        device_type: DeviceType::Speaker,
        volume,
        bitrate: Bitrate::Bitrate320,
        volume_control_enabled: false,
        autoplay: false,
    }
}

#[test]
fn build_records_configured_volume() {
    let pipeline = build(&config(52428)).unwrap();
    assert_eq!(pipeline.volume, 52428);
    assert_eq!(pipeline.bitrate, Bitrate::Bitrate320);
    assert_eq!(pipeline.format, AudioFormat::S16);
}

#[test]
fn build_pushes_volume_into_mixer_before_returning() {
    // 0 and 65535 survive librespot's volume mapping exactly, so the mixer
    // must read them back unchanged; a freshly opened mixer holds neither.
    let muted = build(&config(0)).unwrap();
    assert_eq!(muted.mixer.volume(), 0);
    let full = build(&config(65535)).unwrap();
    assert_eq!(full.mixer.volume(), 65535);
}

#[test]
fn assemble_without_backend_reports_backend_unavailable() {
    let r = assemble(&config(100), false);
    match r {
        Err(e) => assert_eq!(e, PipelineError::BackendUnavailable),
        Ok(_) => panic!("assembly succeeded without a backend"),
    }
}

#[test]
fn assemble_with_backend_succeeds() {
    let pipeline = assemble(&config(100), true).unwrap();
    assert_eq!(pipeline.volume, 100);
}
