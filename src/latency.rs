//! How a latency in time becomes a buffered sample count, and the setup of
//! a primed channel from it.
use vstd::prelude::*;
use crate::channel::{silence, SampleChannel};
use crate::ring::MAX_CAPACITY;

verus! {

/// Microseconds in one second.
pub const MICROS_PER_SECOND: u64 = 1_000_000;

/// The stream parameters supplied by the audio device.
#[derive(Debug, Clone, Copy, PartialEq, Eq, Structural)]
pub struct StreamConfig {
    /// Frames per second.
    pub sample_rate: u32,
    /// Interleaved samples per frame.
    pub channel_count: u16,
}

/// Why a channel could not be set up.
#[derive(Debug, Clone, Copy, PartialEq, Eq, Structural)]
pub enum SetupError {
    /// The channel for this latency would exceed the largest capacity.
    LatencyTooLarge,
}

/// Frames in `latency_us` microseconds at `sample_rate`, truncated.
pub open spec fn frames_of(latency_us: nat, sample_rate: nat) -> nat {
    (latency_us * sample_rate) / (MICROS_PER_SECOND as nat)
}

/// Scalar samples in `latency_us` microseconds of the stream `config`.
pub open spec fn samples_of(config: StreamConfig, latency_us: nat) -> nat {
    frames_of(latency_us, config.sample_rate as nat) * (config.channel_count as nat)
}

/// The number of whole frames in `latency_us` microseconds at
/// `sample_rate`; the fractional frame is truncated, not rounded.
pub fn latency_frames(latency_us: u32, sample_rate: u32) -> (r: u64)
    ensures
        r as nat == frames_of(latency_us as nat, sample_rate as nat),
{
    assert(latency_us as nat * sample_rate as nat <= 0xffff_ffff * 0xffff_ffff) by (nonlinear_arith)
        requires
            latency_us <= 0xffff_ffff,
            sample_rate <= 0xffff_ffff,
    ;
    let product: u64 = latency_us as u64 * sample_rate as u64;
    product / MICROS_PER_SECOND
}

/// The latency depth: whole frames in `latency_us` microseconds, times the
/// channel count.
pub fn latency_samples(config: &StreamConfig, latency_us: u32) -> (r: u64)
    ensures
        r as nat == samples_of(*config, latency_us as nat),
{
    let frames = latency_frames(latency_us, config.sample_rate);
    proof {
        let p = latency_us as nat * config.sample_rate as nat;
        assert(p <= 0xffff_ffff * 0xffff_ffff) by (nonlinear_arith)
            requires
                p == latency_us as nat * config.sample_rate as nat,
                latency_us <= 0xffff_ffff,
                config.sample_rate <= 0xffff_ffff,
        ;
        assert(p / 1_000_000 <= 0x2000_0000_0000) by (nonlinear_arith)
            requires
                p <= 0xffff_ffff * 0xffff_ffff,
        ;
        assert(frames as nat * config.channel_count as nat <= 0x2000_0000_0000 * 0xffff)
            by (nonlinear_arith)
            requires
                frames <= 0x2000_0000_0000,
                config.channel_count <= 0xffff,
        ;
    }
    frames * config.channel_count as u64
}

/// The capacity of a channel for a latency depth of `samples`: twice the
/// depth, room above and below the steady fill level.
pub open spec fn capacity_for(samples: nat) -> nat {
    2 * samples
}

/// Builds the channel for `latency_us` microseconds of `config` and primes
/// it: the channel has capacity twice the latency depth and holds the
/// depth in silence. Fails when that capacity exceeds the largest one.
pub fn primed_channel(config: &StreamConfig, latency_us: u32) -> (r: Result<SampleChannel, SetupError>)
    ensures
        r is Err <==> capacity_for(samples_of(*config, latency_us as nat)) > MAX_CAPACITY,
        r is Err ==> r == Err::<SampleChannel, SetupError>(SetupError::LatencyTooLarge),
        r is Ok ==> {
            let ch = r->Ok_0;
            &&& ch.wf()
            &&& ch.capacity_spec() == capacity_for(samples_of(*config, latency_us as nat))
            &&& ch@ == silence(samples_of(*config, latency_us as nat))
        },
{
    let samples = latency_samples(config, latency_us);
    if samples > (MAX_CAPACITY / 2) as u64 {
        return Err(SetupError::LatencyTooLarge);
    }
    let depth = samples as usize;
    let mut channel = SampleChannel::new(2 * depth);
    match channel.prime(depth) {
        Ok(()) => {
            assert(Seq::<u32>::empty() + silence(depth as nat) == silence(depth as nat));
            Ok(channel)
        },
        Err(_) => Err(SetupError::LatencyTooLarge),
    }
}

} // verus!
