//! The audio pipeline builder: a software mixer with the configured volume
//! already applied, and the resolved renderer parameters for a deferred
//! renderer construction.
//!
//! Building the pipeline acquires no OS audio resource: the software mixer is
//! a plain value, the backend is only looked up, and the renderer itself is
//! constructed later, by the caller, from the recorded parameters. Building
//! fails exactly when the host offers no audio output backend, and the
//! failure is returned, never a process abort.

use vstd::prelude::*;
use librespot_playback::audio_backend;
use librespot_playback::config::AudioFormat;
use librespot_playback::config::Bitrate;
use librespot_playback::mixer::Mixer;
use librespot_playback::mixer::MixerConfig;
use librespot_playback::mixer::softmixer::SoftMixer;
use crate::settings::SessionConfig;

verus! {

#[verifier::external_type_specification]
#[verifier::external_body]
pub struct ExSoftMixer(SoftMixer);

#[verifier::external_type_specification]
pub struct ExAudioFormat(AudioFormat);

/// Relies on `SoftMixer::open` in librespot-playback: creates the software
/// volume mixer from the default mixer configuration. It builds a plain
/// value and acquires no OS resource; nothing is promised of its state.
#[verifier::external_body]
fn open_soft_mixer() -> SoftMixer {
    SoftMixer::open(MixerConfig::default())
}

/// Relies on `SoftMixer::set_volume` in librespot-playback: stores the given
/// linear volume in the mixer's shared volume cell. The cell sits behind
/// interior mutability, so nothing is promised of a later read.
#[verifier::external_body]
fn set_mixer_volume(mixer: &SoftMixer, volume: u16) {
    mixer.set_volume(volume);
}

/// Relies on `audio_backend::find` in librespot-playback: with no name it
/// returns the first compiled-in sink builder, and `None` when the build
/// carries no audio backend. Which of the two holds depends on the build,
/// so nothing more is promised. The builder itself is dropped here; the
/// caller that constructs the renderer performs the same lookup.
#[verifier::external_body]
fn backend_available() -> bool {
    match audio_backend::find(None) {
        Some(_) => true,
        None => false,
    }
}

/// Why the audio pipeline could not be built.
#[derive(Clone, Copy, PartialEq, Eq, Structural, Debug)]
pub enum PipelineError {
    /// No audio output backend could be located on the host.
    BackendUnavailable,
}

/// The assembled pipeline handles: the software mixer, with the configured
/// volume already pushed into it, and the parameters the deferred renderer
/// construction needs. The backend and format are resolved once, here; the
/// OS audio device is acquired only when the renderer is instantiated.
pub struct AudioPipeline {
    /// The software volume mixer. The volume below was pushed into it before
    /// these handles were returned.
    pub mixer: SoftMixer,
    /// The linear volume the mixer was set to.
    pub volume: u16,
    /// The bitrate the renderer will decode at.
    pub bitrate: Bitrate,
    /// The audio format the renderer will open the backend with.
    pub format: AudioFormat,
}

/// Assembles the pipeline handles from the session configuration and the
/// result of the backend lookup. Succeeds exactly when a backend was found;
/// the mixer then carries the configured volume and the renderer parameters
/// are the configured bitrate with the codec's default format.
pub fn assemble(config: &SessionConfig, backend_found: bool) -> (r: Result<
    AudioPipeline,
    PipelineError,
>)
    ensures
        backend_found ==> (match r {
            Ok(p) => {
                &&& p.volume == config.volume
                &&& p.bitrate == config.bitrate
                &&& p.format == AudioFormat::S16
            },
            Err(_) => false,
        }),
        !backend_found ==> r == Result::<AudioPipeline, PipelineError>::Err(
            PipelineError::BackendUnavailable,
        ),
{
    if !backend_found {
        return Err(PipelineError::BackendUnavailable);
    }
    let mixer = open_soft_mixer();
    set_mixer_volume(&mixer, config.volume);
    Ok(
        AudioPipeline {
            mixer,
            volume: config.volume,
            bitrate: config.bitrate,
            // the codec's default sample format
            format: AudioFormat::S16,
        },
    )
}

/// Builds the audio pipeline for a session: looks the backend up, and on
/// success returns handles whose mixer volume equals the configured volume.
/// When the host offers no backend, the one failure, `BackendUnavailable`,
/// is returned.
pub fn build(config: &SessionConfig) -> (r: Result<AudioPipeline, PipelineError>)
    ensures
        match r {
            Ok(p) => {
                &&& p.volume == config.volume
                &&& p.bitrate == config.bitrate
                &&& p.format == AudioFormat::S16
            },
            Err(e) => e == PipelineError::BackendUnavailable,
        },
{
    let found = backend_available();
    assemble(config, found)
}

} // verus!
