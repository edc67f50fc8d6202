//! Host-side audio planning: how a waveform is cut into protocol audio
//! chunks for playback on the audio controller.

use vstd::prelude::*;

use crate::protocol::{AudioChunkCommand, AudioEncoding, Command};
use crate::samples::{AUDIO_CHUNK_CAPACITY_SAMPLES, chunk_buffer_extend, chunk_buffer_new, chunk_contents};

verus! {

/// Why a waveform could not be turned into audio commands.
#[derive(Clone, Copy, Debug, PartialEq, Eq, Structural)]
pub enum AudioPlanError {
    /// Audio forwarding is disabled in the current config.
    Disabled,
    /// The selected backend does not produce firmware audio commands.
    UnsupportedBackend,
    /// A chunk exceeded the protocol's fixed sample capacity.
    ChunkTooLarge,
    /// The waveform needs more chunks than the chunk index can number.
    TooManyChunks,
}

/// Audio routing backend.
#[derive(Clone, Copy, Debug, PartialEq, Eq, Structural)]
pub enum AudioBackendKind {
    /// No host-side audio forwarding.
    Disabled,
    /// PCM chunks forwarded to the firmware for playback.
    FirmwareBridge,
}

impl Default for AudioBackendKind {
    fn default() -> (kind: Self)
        ensures
            kind == AudioBackendKind::Disabled,
    {
        AudioBackendKind::Disabled
    }
}

/// Configuration of speech playback routing.
#[derive(Clone, Copy, Debug, PartialEq, Eq, Structural)]
pub struct AudioConfig {
    /// Whether audio forwarding is enabled.
    pub enabled: bool,
    /// Backend used for playback routing.
    pub backend: AudioBackendKind,
    /// PCM sample rate in hertz.
    pub sample_rate_hz: u32,
    /// Number of interleaved channels.
    pub channels: u8,
    /// Samples per forwarded chunk.
    pub chunk_samples: usize,
    /// Output gain of the playback path.
    pub volume_percent: u8,
}

/// The default audio configuration: disabled, 24 kHz mono, chunks of the
/// protocol's capacity, full volume.
pub open spec fn spec_default_audio_config() -> AudioConfig {
    AudioConfig {
        enabled: false,
        backend: AudioBackendKind::Disabled,
        sample_rate_hz: 24_000,
        channels: 1,
        chunk_samples: AUDIO_CHUNK_CAPACITY_SAMPLES,
        volume_percent: 100,
    }
}

impl Default for AudioConfig {
    fn default() -> (config: Self)
        ensures
            config == spec_default_audio_config(),
    {
        AudioConfig {
            enabled: false,
            backend: AudioBackendKind::Disabled,
            sample_rate_hz: 24_000,
            channels: 1,
            chunk_samples: AUDIO_CHUNK_CAPACITY_SAMPLES,
            volume_percent: 100,
        }
    }
}

/// How a waveform is chunked.
#[derive(Clone, Copy, Debug, PartialEq, Eq, Structural)]
pub struct WaveformPlan {
    /// Samples to deliver.
    pub total_samples: usize,
    /// Samples per chunk.
    pub chunk_samples: usize,
    /// Chunks needed.
    pub chunk_count: usize,
}

/// `a / b` rounded up.
pub open spec fn spec_div_ceil(a: int, b: int) -> int {
    a / b + if a % b != 0 { 1int } else { 0int }
}

/// The chunk size actually used: the configured one, at least one.
pub open spec fn spec_effective_chunk(config: AudioConfig) -> usize {
    if config.chunk_samples == 0 { 1 } else { config.chunk_samples }
}

/// The route name of a configuration.
pub open spec fn spec_route_name(config: AudioConfig) -> &'static str {
    if config.enabled && config.backend == AudioBackendKind::FirmwareBridge {
        "firmware-bridge"
    } else {
        "disabled"
    }
}

/// The samples of chunk `k` of a waveform cut into chunks of `size`.
pub open spec fn spec_chunk(waveform: Seq<i16>, size: int, k: int) -> Seq<i16> {
    let start = k * size;
    let end = if (k + 1) * size < waveform.len() { (k + 1) * size } else { waveform.len() as int };
    waveform.subrange(start, end)
}

/// The outcome of chunking: the first error in the order disabled,
/// unsupported backend, too many chunks, chunk too large; otherwise one
/// chunk command per chunk.
pub open spec fn spec_plan_error(config: AudioConfig, total: int) -> Option<AudioPlanError> {
    let size = spec_effective_chunk(config) as int;
    if !config.enabled {
        Some(AudioPlanError::Disabled)
    } else if config.backend != AudioBackendKind::FirmwareBridge {
        Some(AudioPlanError::UnsupportedBackend)
    } else if spec_div_ceil(total, size) > 65_536 {
        Some(AudioPlanError::TooManyChunks)
    } else if (if size < total { size } else { total }) > AUDIO_CHUNK_CAPACITY_SAMPLES {
        Some(AudioPlanError::ChunkTooLarge)
    } else {
        None
    }
}

/// Host-side audio subsystem.
#[derive(Clone, Copy, Debug)]
pub struct AudioSubsystem {
    config: AudioConfig,
    route_name: &'static str,
}

impl AudioSubsystem {
    /// An audio subsystem routed as its configuration says.
    pub fn from_config(config: AudioConfig) -> (subsystem: Self)
        ensures
            subsystem.settings() == config,
            subsystem.spec_route() == spec_route_name(config),
    {
        let route_name = if config.enabled && config.backend == AudioBackendKind::FirmwareBridge {
            "firmware-bridge"
        } else {
            "disabled"
        };
        AudioSubsystem { config, route_name }
    }

    /// The configuration.
    pub closed spec fn settings(&self) -> AudioConfig {
        self.config
    }

    /// The route name.
    pub closed spec fn spec_route(&self) -> &'static str {
        self.route_name
    }

    /// The effective configuration.
    pub fn config(&self) -> (config: &AudioConfig)
        ensures
            *config == self.settings(),
    {
        &self.config
    }

    /// The selected route: `firmware-bridge` when enabled on that backend, else `disabled`.
    pub fn route_name(&self) -> (name: &'static str)
        ensures
            name == self.spec_route(),
    {
        self.route_name
    }

    /// How a waveform of `total_samples` is chunked.
    pub fn plan_waveform(&self, total_samples: usize) -> (plan: WaveformPlan)
        ensures
            plan.total_samples == total_samples,
            plan.chunk_samples == spec_effective_chunk(self.settings()),
            plan.chunk_count == spec_div_ceil(total_samples as int, plan.chunk_samples as int),
    {
        let chunk_samples = if self.config.chunk_samples == 0 { 1 } else { self.config.chunk_samples };
        proof {
            let t = total_samples as int;
            let c = chunk_samples as int;
            vstd::arithmetic::div_mod::lemma_fundamental_div_mod(t, c);
            vstd::arithmetic::div_mod::lemma_mod_bound(t, c);
            if t % c != 0 {
                let q = t / c;
                let r = t % c;
                assert(q < t) by (nonlinear_arith)
                    requires
                        c >= 2,
                        t >= 0,
                        t == c * q + r,
                        0 < r < c,
                ;
            }
        }
        let chunk_count = total_samples / chunk_samples + if total_samples % chunk_samples != 0 {
            1
        } else {
            0
        };
        WaveformPlan { total_samples, chunk_samples, chunk_count }
    }

    /// Cut a waveform into `PlayAudio` commands for the firmware bridge.
    pub fn build_audio_commands(&self, utterance_id: u32, waveform: &[i16]) -> (result: Result<
        Vec<Command>,
        AudioPlanError,
    >)
        ensures
            match spec_plan_error(self.settings(), waveform@.len() as int) {
                Some(e) => result == Err::<Vec<Command>, AudioPlanError>(e),
                None => result matches Ok(commands) && commands@.len() == spec_div_ceil(
                    waveform@.len() as int,
                    spec_effective_chunk(self.settings()) as int,
                ) && forall|k: int|
                    0 <= k < commands@.len() ==> (#[trigger] commands@[k] matches Command::PlayAudio(c) && {
                        &&& c.utterance_id == utterance_id
                        &&& c.chunk_index == k
                        &&& c.sample_rate_hz == self.settings().sample_rate_hz
                        &&& c.channels == self.settings().channels
                        &&& c.encoding == AudioEncoding::SignedPcm16Le
                        &&& c.is_final_chunk == (k + 1 == commands@.len())
                        &&& chunk_contents(c.samples) == spec_chunk(
                            waveform@,
                            spec_effective_chunk(self.settings()) as int,
                            k,
                        )
                    }),
            },
    {
        if !self.config.enabled {
            return Err(AudioPlanError::Disabled);
        }
        if self.config.backend != AudioBackendKind::FirmwareBridge {
            return Err(AudioPlanError::UnsupportedBackend);
        }
        let plan = self.plan_waveform(waveform.len());
        if plan.chunk_count > 65_536 {
            return Err(AudioPlanError::TooManyChunks);
        }
        let size = plan.chunk_samples;
        let count = plan.chunk_count;
        let len = waveform.len();
        proof {
            vstd::arithmetic::div_mod::lemma_fundamental_div_mod(len as int, size as int);
            vstd::arithmetic::div_mod::lemma_mod_bound(len as int, size as int);
        }
        let mut commands: Vec<Command> = Vec::new();
        let mut start: usize = 0;
        let mut k: usize = 0;
        while k < count
            invariant
                size == spec_effective_chunk(self.settings()),
                size > 0,
                len == waveform@.len(),
                count == spec_div_ceil(len as int, size as int),
                count <= 65_536,
                len == size * ((len as int) / (size as int)) + (len as int) % (size as int),
                0 <= (len as int) % (size as int) < size,
                self.config.enabled,
                self.config.backend == AudioBackendKind::FirmwareBridge,
                (if size < len { size as int } else { len as int }) <= AUDIO_CHUNK_CAPACITY_SAMPLES || k == 0,
                k <= count,
                k < count ==> start == k * size && start < len,
                commands@.len() == k,
                forall|j: int|
                    0 <= j < k ==> (#[trigger] commands@[j] matches Command::PlayAudio(c) && {
                        &&& c.utterance_id == utterance_id
                        &&& c.chunk_index == j
                        &&& c.sample_rate_hz == self.settings().sample_rate_hz
                        &&& c.channels == self.settings().channels
                        &&& c.encoding == AudioEncoding::SignedPcm16Le
                        &&& c.is_final_chunk == (j + 1 == count)
                        &&& chunk_contents(c.samples) == spec_chunk(waveform@, size as int, j)
                    }),
            decreases count - k,
        {
            proof {
                lemma_chunk_start(len as int, size as int, k as int);
            }
            let end = if len - start > size { start + size } else { len };
            assert((k + 1) * size == k * size + size) by (nonlinear_arith);
            let mut chunk: Vec<i16> = Vec::new();
            let mut i: usize = start;
            while i < end
                invariant
                    start <= i <= end <= len,
                    len == waveform@.len(),
                    chunk@ == waveform@.subrange(start as int, i as int),
                decreases end - i,
            {
                chunk.push(waveform[i]);
                assert(waveform@.subrange(start as int, i + 1) == waveform@.subrange(start as int, i as int).push(
                    waveform@[i as int],
                ));
                i += 1;
            }
            let mut samples = chunk_buffer_new();
            let extended = chunk_buffer_extend(&mut samples, chunk.as_slice());
            if extended.is_err() {
                proof {
                    lemma_first_chunk_is_largest(len as int, size as int, k as int, start as int, end as int);
                }
                return Err(AudioPlanError::ChunkTooLarge);
            }
            let ghost chunk_seq = chunk@;
            commands.push(
                Command::PlayAudio(
                    AudioChunkCommand {
                        utterance_id,
                        chunk_index: k as u16,
                        sample_rate_hz: self.config.sample_rate_hz,
                        channels: self.config.channels,
                        encoding: AudioEncoding::SignedPcm16Le,
                        is_final_chunk: k + 1 == count,
                        samples,
                    },
                ),
            );
            proof {
                assert(chunk_contents(samples) == chunk_seq);
                assert(chunk_seq == spec_chunk(waveform@, size as int, k as int));
            }
            if k + 1 < count {
                proof {
                    lemma_chunk_start(len as int, size as int, k as int + 1);
                }
            }
            start = end;
            k += 1;
        }
        proof {
            if len > 0 {
                let q = len as int / size as int;
                let r = len as int % size as int;
                assert(count >= 1) by (nonlinear_arith)
                    requires
                        len > 0,
                        size > 0,
                        len == size * q + r,
                        0 <= r < size,
                        count == q + if r != 0 { 1int } else { 0int },
                ;
            }
        }
        Ok(commands)
    }
}

/// Chunk `k` of `count = ceil(len / size)` chunks starts inside the waveform.
proof fn lemma_chunk_start(len: int, size: int, k: int)
    requires
        size > 0,
        len >= 0,
        len == size * (len / size) + len % size,
        0 <= len % size < size,
        0 <= k < spec_div_ceil(len, size),
    ensures
        k * size < len,
{
    let q = len / size;
    let r = len % size;
    if k < q {
        assert(k * size < len) by (nonlinear_arith)
            requires
                size > 0,
                0 <= k < q,
                len == size * q + r,
                r >= 0,
        ;
    } else {
        assert(k * size < len) by (nonlinear_arith)
            requires
                size > 0,
                k == q,
                len == size * q + r,
                r > 0,
        ;
    }
}

/// When the first chunk fits the capacity every chunk does; a failing chunk
/// therefore means the first chunk is too large.
proof fn lemma_first_chunk_is_largest(len: int, size: int, k: int, start: int, end: int)
    requires
        size > 0,
        0 <= start < len,
        start == k * size,
        end == (if len - start > size { start + size } else { len }),
        end - start > AUDIO_CHUNK_CAPACITY_SAMPLES,
        (if size < len { size } else { len }) <= AUDIO_CHUNK_CAPACITY_SAMPLES || k == 0,
    ensures
        k == 0,
        (if size < len { size } else { len }) > AUDIO_CHUNK_CAPACITY_SAMPLES,
{
}

/// The first `count` chunks of a waveform cut into chunks of `size`, joined in order.
pub open spec fn spec_join_chunks(waveform: Seq<i16>, size: int, count: nat) -> Seq<i16>
    decreases count,
{
    if count == 0 {
        Seq::empty()
    } else {
        spec_join_chunks(waveform, size, (count - 1) as nat) + spec_chunk(waveform, size, count - 1)
    }
}

/// The first `k` chunks joined are the first `k * size` samples.
proof fn lemma_join_prefix(waveform: Seq<i16>, size: int, k: nat)
    requires
        size > 0,
        k <= spec_div_ceil(waveform.len() as int, size),
    ensures
        spec_join_chunks(waveform, size, k) =~= waveform.take(if k * size < waveform.len() { k * size } else { waveform.len() as int }),
    decreases k,
{
    let len = waveform.len() as int;
    vstd::arithmetic::div_mod::lemma_fundamental_div_mod(len, size);
    vstd::arithmetic::div_mod::lemma_mod_bound(len, size);
    if k > 0 {
        lemma_join_prefix(waveform, size, (k - 1) as nat);
        lemma_chunk_start(len, size, k - 1);
        assert((k - 1) * size + size == k * size) by (nonlinear_arith);
    }
}

/// Cutting loses nothing: the chunks of a waveform, joined in order, are
/// the waveform.
pub proof fn lemma_chunks_rebuild_waveform(waveform: Seq<i16>, size: int)
    requires
        size > 0,
    ensures
        spec_join_chunks(waveform, size, spec_div_ceil(waveform.len() as int, size) as nat) == waveform,
{
    let len = waveform.len() as int;
    vstd::arithmetic::div_mod::lemma_fundamental_div_mod(len, size);
    vstd::arithmetic::div_mod::lemma_mod_bound(len, size);
    vstd::arithmetic::div_mod::lemma_div_pos_is_pos(len, size);
    let k = spec_div_ceil(len, size);
    lemma_join_prefix(waveform, size, k as nat);
    let q = len / size;
    let r = len % size;
    if r == 0 {
        assert(k * size >= len) by (nonlinear_arith)
            requires
                k == q,
                len == size * q + r,
                r == 0,
        ;
    } else {
        assert(k * size >= len) by (nonlinear_arith)
            requires
                k == q + 1,
                len == size * q + r,
                r < size,
        ;
    }
    assert(waveform.take(len) =~= waveform);
}

} // verus!
