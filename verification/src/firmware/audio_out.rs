//! Firmware-side audio playback state for the Pico Audio Pack.

use vstd::prelude::*;

use crate::protocol::{AudioChunkCommand, AudioEncoding};
use crate::samples::{chunk_buffer_len, chunk_contents, AUDIO_CHUNK_CAPACITY_SAMPLES};
use crate::units::CoreError;

verus! {

/// PCM sample formats the DAC path accepts.
#[derive(Clone, Copy, Debug, PartialEq, Eq, Structural)]
pub enum AudioSampleFormat {
    SignedPcm16Le,
}

/// Stream parameters handed to the DAC path.
#[derive(Clone, Copy, Debug, PartialEq, Eq, Structural)]
pub struct AudioStreamConfig {
    pub sample_rate_hz: u32,
    pub channels: u8,
    pub format: AudioSampleFormat,
}

/// Playback configuration for the Pico Audio Pack.
#[derive(Clone, Copy, Debug, PartialEq, Eq, Structural)]
pub struct AudioPackConfig {
    /// Sample rate in hertz.
    pub sample_rate_hz: u32,
    /// Number of channels.
    pub channels: u8,
    /// PCM sample format.
    pub format: AudioSampleFormat,
    /// Number of samples buffered per chunk.
    pub chunk_samples: usize,
}

/// Default playback sample rate.
pub const DEFAULT_AUDIO_SAMPLE_RATE_HZ: u32 = 24_000;

/// The default playback configuration: 24 kHz mono PCM in full-capacity chunks.
pub open spec fn spec_default_audio_pack_config() -> AudioPackConfig {
    AudioPackConfig {
        sample_rate_hz: DEFAULT_AUDIO_SAMPLE_RATE_HZ,
        channels: 1,
        format: AudioSampleFormat::SignedPcm16Le,
        chunk_samples: AUDIO_CHUNK_CAPACITY_SAMPLES,
    }
}

impl AudioPackConfig {
    /// The default playback configuration.
    pub fn new() -> (config: Self)
        ensures
            config == spec_default_audio_pack_config(),
    {
        AudioPackConfig {
            sample_rate_hz: DEFAULT_AUDIO_SAMPLE_RATE_HZ,
            channels: 1,
            format: AudioSampleFormat::SignedPcm16Le,
            chunk_samples: AUDIO_CHUNK_CAPACITY_SAMPLES,
        }
    }
}

impl Default for AudioPackConfig {
    fn default() -> (config: Self)
        ensures
            config == spec_default_audio_pack_config(),
    {
        Self::new()
    }
}

/// Source responsible for generating or forwarding audio to the DAC.
#[derive(Clone, Copy, Debug, PartialEq, Eq, Structural)]
pub enum AudioRoute {
    /// Audio is forwarded from the host over the protocol link.
    HostWaveformBridge,
    /// Audio is synthesized locally on the microcontroller.
    LocalSynthesis,
}

/// Firmware-side audio playback task state.
#[derive(Clone, Copy, Debug, PartialEq, Eq, Structural)]
pub struct AudioOutputTask {
    /// Playback configuration.
    pub config: AudioPackConfig,
    /// Active audio route.
    pub route: AudioRoute,
    /// Number of audio chunks currently buffered.
    pub queued_chunks: u16,
}

/// Whether `command` matches the playback configuration and fits one chunk.
pub open spec fn spec_chunk_acceptable(config: AudioPackConfig, command: AudioChunkCommand) -> bool {
    &&& command.sample_rate_hz == config.sample_rate_hz
    &&& command.channels == config.channels
    &&& chunk_contents(command.samples).len() <= config.chunk_samples
}

/// `queued + 1`, saturating at `u16::MAX`.
pub open spec fn spec_saturating_increment(queued: u16) -> u16 {
    if queued == u16::MAX {
        u16::MAX
    } else {
        (queued + 1) as u16
    }
}

impl AudioOutputTask {
    /// Idle host-bridged playback with the default configuration.
    pub fn new() -> (task: Self)
        ensures
            task.config == spec_default_audio_pack_config(),
            task.route == AudioRoute::HostWaveformBridge,
            task.queued_chunks == 0,
    {
        AudioOutputTask { config: AudioPackConfig::new(), route: AudioRoute::HostWaveformBridge, queued_chunks: 0 }
    }

    /// Return the audio stream configuration used by the DAC path.
    pub fn stream_config(&self) -> (stream: AudioStreamConfig)
        ensures
            stream == (AudioStreamConfig {
                sample_rate_hz: self.config.sample_rate_hz,
                channels: self.config.channels,
                format: self.config.format,
            }),
    {
        AudioStreamConfig {
            sample_rate_hz: self.config.sample_rate_hz,
            channels: self.config.channels,
            format: self.config.format,
        }
    }

    /// Apply a new host-configured chunk size in `1..=AUDIO_CHUNK_CAPACITY_SAMPLES`.
    pub fn set_chunk_samples(&mut self, chunk_samples: usize) -> (result: Result<(), CoreError>)
        ensures
            1 <= chunk_samples <= AUDIO_CHUNK_CAPACITY_SAMPLES ==> {
                &&& result is Ok
                &&& *final(self) == (AudioOutputTask {
                    config: AudioPackConfig { chunk_samples, ..old(self).config },
                    ..*old(self)
                })
            },
            !(1 <= chunk_samples <= AUDIO_CHUNK_CAPACITY_SAMPLES) ==> {
                &&& result == Err::<(), CoreError>(CoreError::InvalidCommand)
                &&& *final(self) == *old(self)
            },
    {
        if chunk_samples == 0 || chunk_samples > AUDIO_CHUNK_CAPACITY_SAMPLES {
            return Err(CoreError::InvalidCommand);
        }

        self.config.chunk_samples = chunk_samples;
        Ok(())
    }

    /// Accept an audio chunk from the host-side protocol bridge.
    pub fn enqueue_chunk(&mut self, command: &AudioChunkCommand) -> (result: Result<(), CoreError>)
        ensures
            spec_chunk_acceptable(old(self).config, *command) ==> {
                &&& result is Ok
                &&& *final(self) == (AudioOutputTask {
                    queued_chunks: spec_saturating_increment(old(self).queued_chunks),
                    ..*old(self)
                })
            },
            !spec_chunk_acceptable(old(self).config, *command) ==> {
                &&& result == Err::<(), CoreError>(CoreError::InvalidCommand)
                &&& *final(self) == *old(self)
            },
    {
        let sample_count = chunk_buffer_len(&command.samples);
        if command.sample_rate_hz != self.config.sample_rate_hz || command.channels != self.config.channels
            || sample_count > self.config.chunk_samples {
            return Err(CoreError::InvalidCommand);
        }

        match (command.encoding, self.config.format) {
            (AudioEncoding::SignedPcm16Le, AudioSampleFormat::SignedPcm16Le) => {
                self.queued_chunks = self.queued_chunks.saturating_add(1);
                Ok(())
            },
        }
    }
}

impl Default for AudioOutputTask {
    fn default() -> (task: Self)
        ensures
            task.config == spec_default_audio_pack_config(),
            task.route == AudioRoute::HostWaveformBridge,
            task.queued_chunks == 0,
    {
        Self::new()
    }
}

/// Playback duration of one configured chunk in milliseconds, at least 1.
pub open spec fn spec_chunk_duration_ms(config: AudioPackConfig) -> int {
    let channels = if config.channels >= 1 { config.channels as int } else { 1 };
    let frames = config.chunk_samples as int / channels;
    let rate = if config.sample_rate_hz >= 1 { config.sample_rate_hz as int } else { 1 };
    let scaled = if frames * 1000 > u64::MAX { u64::MAX as int } else { frames * 1000 };
    let duration = scaled / rate;
    if duration >= 1 {
        duration
    } else {
        1
    }
}

/// Compute how long one configured chunk plays, in milliseconds (at least 1).
pub fn chunk_duration_ms(audio: &AudioOutputTask) -> (duration: u64)
    ensures
        duration == spec_chunk_duration_ms(audio.config),
        duration >= 1,
{
    let channels: usize = if audio.config.channels >= 1 { audio.config.channels as usize } else { 1 };
    let frames_per_chunk = audio.config.chunk_samples / channels;
    let samples_per_second: u64 = if audio.config.sample_rate_hz >= 1 { audio.config.sample_rate_hz as u64 } else { 1 };
    let frames = frames_per_chunk as u64;
    let scaled: u64 = if frames > u64::MAX / 1000 { u64::MAX } else { frames * 1000 };
    proof {
        assert(frames > u64::MAX / 1000 <==> frames * 1000 > u64::MAX) by (nonlinear_arith);
    }
    let duration_ms = scaled / samples_per_second;
    if duration_ms >= 1 {
        duration_ms
    } else {
        1
    }
}

/// Playback bookkeeping after time passes: whole elapsed chunks leave the
/// queue (never more than were queued) and the progress mark advances by
/// exactly the time they took.
pub open spec fn spec_audio_progress(
    queued_chunks: u16,
    last_progress_ms: u64,
    now_ms: u64,
    chunk_ms: u64,
) -> (u16, u64) {
    let elapsed = if now_ms >= last_progress_ms { now_ms - last_progress_ms } else { 0 };
    if elapsed < chunk_ms {
        (queued_chunks, last_progress_ms)
    } else {
        let whole = elapsed / chunk_ms as int;
        let completed = if whole < queued_chunks { whole } else { queued_chunks as int };
        let advanced = last_progress_ms + chunk_ms * completed;
        (
            (queued_chunks - completed) as u16,
            (if advanced > u64::MAX { u64::MAX as int } else { advanced }) as u64,
        )
    }
}

/// Retire the chunks that finished playing between `last_progress_ms` and `now_ms`.
pub fn audio_progress(queued_chunks: u16, last_progress_ms: u64, now_ms: u64, chunk_ms: u64) -> (next: (u16, u64))
    requires
        chunk_ms >= 1,
    ensures
        next == spec_audio_progress(queued_chunks, last_progress_ms, now_ms, chunk_ms),
        next.0 <= queued_chunks,
{
    let elapsed = now_ms.saturating_sub(last_progress_ms);
    if elapsed < chunk_ms {
        return (queued_chunks, last_progress_ms);
    }
    let whole = elapsed / chunk_ms;
    let completed: u16 = if whole < queued_chunks as u64 { whole as u16 } else { queued_chunks };
    proof {
        assert(whole * chunk_ms <= elapsed) by (nonlinear_arith)
            requires whole == elapsed / chunk_ms, chunk_ms >= 1;
        assert(completed * chunk_ms <= whole * chunk_ms) by (nonlinear_arith)
            requires completed <= whole, chunk_ms >= 1;
        assert(chunk_ms * completed == completed * chunk_ms) by (nonlinear_arith);
    }
    let span = chunk_ms * (completed as u64);
    let advanced = last_progress_ms + span;
    (queued_chunks - completed, advanced)
}

/// A request to the DAC path.
#[derive(Clone, Copy, Debug, PartialEq, Eq, Structural)]
pub enum StreamAction {
    /// Stop the running stream.
    Stop,
    /// Start a stream with these parameters.
    Start(AudioStreamConfig),
}

/// What the audio controller knows of its DAC path: the stream running, if
/// any, and when playback last advanced, in milliseconds.
#[derive(Clone, Copy, Debug, PartialEq, Eq, Structural)]
pub struct AudioPlayback {
    pub active_stream: Option<AudioStreamConfig>,
    pub last_progress_ms: u64,
}

impl AudioPlayback {
    /// Nothing playing yet.
    pub fn new() -> (playback: Self)
        ensures
            playback.active_stream is None,
            playback.last_progress_ms == 0,
    {
        AudioPlayback { active_stream: None, last_progress_ms: 0 }
    }
}

/// The stream the queued audio wants.
pub open spec fn spec_stream_config(config: AudioPackConfig) -> AudioStreamConfig {
    AudioStreamConfig { sample_rate_hz: config.sample_rate_hz, channels: config.channels, format: config.format }
}

/// One playback sync at `now_ms`: the playback state after it, the chunks
/// still queued, and the requests for the DAC path in order. With nothing
/// queued a running stream stops. Otherwise the wanted stream is (re)started
/// when another one runs, finished chunks leave the queue, and the stream
/// stops once the queue is empty.
pub open spec fn spec_sync_audio(playback: AudioPlayback, audio: AudioOutputTask, now_ms: u64) -> (AudioPlayback, u16, Seq<StreamAction>) {
    if audio.queued_chunks == 0 {
        (
            AudioPlayback { active_stream: None, last_progress_ms: now_ms },
            0,
            if playback.active_stream is Some { seq![StreamAction::Stop] } else { seq![] },
        )
    } else {
        let desired = spec_stream_config(audio.config);
        let restart = playback.active_stream != Some(desired);
        let started = if restart {
            (if playback.active_stream is Some { seq![StreamAction::Stop] } else { seq![] }).push(StreamAction::Start(desired))
        } else {
            seq![]
        };
        let mark = if restart { now_ms } else { playback.last_progress_ms };
        let progress = spec_audio_progress(audio.queued_chunks, mark, now_ms, spec_chunk_duration_ms(audio.config) as u64);
        if progress.0 == 0 {
            (AudioPlayback { active_stream: None, last_progress_ms: progress.1 }, 0, started.push(StreamAction::Stop))
        } else {
            (AudioPlayback { active_stream: Some(desired), last_progress_ms: progress.1 }, progress.0, started)
        }
    }
}

/// Sync the DAC path with the queued audio at `now_ms`; returns the
/// requests for the DAC path, in order.
pub fn sync_audio(playback: &mut AudioPlayback, audio: &mut AudioOutputTask, now_ms: u64) -> (actions: Vec<StreamAction>)
    ensures
        *final(playback) == spec_sync_audio(*old(playback), *old(audio), now_ms).0,
        final(audio).queued_chunks == spec_sync_audio(*old(playback), *old(audio), now_ms).1,
        actions@ == spec_sync_audio(*old(playback), *old(audio), now_ms).2,
        final(audio).config == old(audio).config,
        final(audio).route == old(audio).route,
{
    let mut actions: Vec<StreamAction> = Vec::new();
    if audio.queued_chunks == 0 {
        if playback.active_stream.is_some() {
            actions.push(StreamAction::Stop);
        }
        playback.active_stream = None;
        playback.last_progress_ms = now_ms;
        assert(actions@ =~= spec_sync_audio(*old(playback), *old(audio), now_ms).2);
        return actions;
    }
    let desired = audio.stream_config();
    let restart = match playback.active_stream {
        Some(active) => active != desired,
        None => true,
    };
    if restart {
        if playback.active_stream.is_some() {
            actions.push(StreamAction::Stop);
        }
        actions.push(StreamAction::Start(desired));
        playback.active_stream = Some(desired);
        playback.last_progress_ms = now_ms;
    }
    let ghost started = actions@;
    let chunk_ms = chunk_duration_ms(audio);
    let (queued, last) = audio_progress(audio.queued_chunks, playback.last_progress_ms, now_ms, chunk_ms);
    audio.queued_chunks = queued;
    playback.last_progress_ms = last;
    if queued == 0 {
        actions.push(StreamAction::Stop);
        playback.active_stream = None;
    }
    assert(actions@ =~= spec_sync_audio(*old(playback), *old(audio), now_ms).2) by {
        assert(started =~= if old(playback).active_stream != Some(desired) {
            (if old(playback).active_stream is Some { seq![StreamAction::Stop] } else { seq![] }).push(StreamAction::Start(desired))
        } else {
            seq![]
        });
    }
    actions
}

/// A sync never queues more audio, and whenever nothing is left queued no
/// stream is left running.
pub proof fn lemma_sync_audio_drains(playback: AudioPlayback, audio: AudioOutputTask, now_ms: u64)
    ensures
        spec_sync_audio(playback, audio, now_ms).1 <= audio.queued_chunks,
        spec_sync_audio(playback, audio, now_ms).1 == 0 ==> spec_sync_audio(playback, audio, now_ms).0.active_stream is None,
{
}

} // verus!
