//! Device resolution and stream-configuration negotiation: picking a device
//! by an operator-supplied name fragment, and fitting a requested sample rate
//! to the configuration ranges a device advertises.

use vstd::prelude::*;
use crate::substr::contains_substr;
use crate::substr::contains_substr_exec;

verus! {

/// Why constructing a route failed. Steady-state callback conditions (a full
/// or empty handoff queue) are not errors and never appear here.
#[derive(Clone, Copy, Debug, PartialEq, Eq, Structural)]
pub enum AudioError {
    /// No device name matched the requested fragment.
    DeviceNotFound,
    /// The device advertises no usable stream configuration.
    NoSupportedConfig,
    /// The device rejected the negotiated configuration at start time.
    StreamStartFailed,
}

impl AudioError {
    /// A short description, suitable for a log line.
    pub fn message(&self) -> (s: &'static str)
        ensures
            s@ == match *self {
                AudioError::DeviceNotFound => "no audio device matched the requested name"@,
                AudioError::NoSupportedConfig => "device has no supported stream configuration"@,
                AudioError::StreamStartFailed => "device rejected the negotiated configuration"@,
            },
    {
        match *self {
            AudioError::DeviceNotFound => "no audio device matched the requested name",
            AudioError::NoSupportedConfig => "device has no supported stream configuration",
            AudioError::StreamStartFailed => "device rejected the negotiated configuration",
        }
    }
}

/// The negotiated format of one stream, fixed at route construction.
#[derive(Clone, Copy, Debug, PartialEq, Eq, Structural)]
pub struct StreamConfig {
    /// Negotiated sample rate in Hz.
    pub sample_rate: u32,
    /// Advisory buffer size in frames.
    pub buffer_size: u32,
}

/// One configuration range a device advertises: the sample rates it accepts,
/// as a closed interval.
#[derive(Clone, Copy, Debug, PartialEq, Eq, Structural)]
pub struct SupportedConfigRange {
    /// Lowest supported sample rate in Hz.
    pub min_rate: u32,
    /// Highest supported sample rate in Hz.
    pub max_rate: u32,
}

/// The range accepts the rate.
pub open spec fn range_supports(r: SupportedConfigRange, rate: u32) -> bool {
    r.min_rate <= rate && rate <= r.max_rate
}

/// Some advertised range accepts the rate.
pub open spec fn some_range_supports(ranges: Seq<SupportedConfigRange>, rate: u32) -> bool {
    exists|i: int| 0 <= i < ranges.len() && range_supports(#[trigger] ranges[i], rate)
}

/// The rate a nonempty set of ranges negotiates to: the requested rate when
/// any range accepts it, else the first range's maximum — a deterministic
/// fallback, never a failure.
pub open spec fn negotiated_rate(ranges: Seq<SupportedConfigRange>, requested: u32) -> u32
    recommends
        ranges.len() > 0,
{
    if some_range_supports(ranges, requested) {
        requested
    } else {
        ranges[0].max_rate
    }
}

/// Picks the first device whose name contains the requested fragment
/// (case-sensitive, in enumeration order). Fails with `DeviceNotFound`
/// exactly when no name matches.
pub fn find_device_by_name(names: &Vec<String>, name: &str) -> (r: Result<usize, AudioError>)
    ensures
        match r {
            Ok(i) => i < names@.len() && contains_substr(names@[i as int]@, name@) && forall|j: int|
                0 <= j < i ==> !contains_substr(#[trigger] names@[j]@, name@),
            Err(e) => e == AudioError::DeviceNotFound && forall|j: int|
                0 <= j < names@.len() ==> !contains_substr(#[trigger] names@[j]@, name@),
        },
{
    let n = names.len();
    let mut i: usize = 0;
    while i < n
        invariant
            n == names@.len(),
            i <= n,
            forall|j: int| 0 <= j < i ==> !contains_substr(#[trigger] names@[j]@, name@),
        decreases n - i,
    {
        if contains_substr_exec(names[i].as_str(), name) {
            return Ok(i);
        }
        i += 1;
    }
    Err(AudioError::DeviceNotFound)
}

/// Negotiates a concrete stream configuration from the ranges a device
/// advertises: scan in enumeration order for a range accepting the requested
/// rate; if one accepts, the negotiated rate is the requested rate, else it
/// falls back to the first range's maximum. Fails with `NoSupportedConfig`
/// exactly when the device advertises no range at all.
pub fn negotiate_config(ranges: &Vec<SupportedConfigRange>, requested_rate: u32, buffer_size: u32) -> (r:
    Result<StreamConfig, AudioError>)
    ensures
        match r {
            Ok(c) => ranges@.len() > 0 && c == (StreamConfig {
                sample_rate: negotiated_rate(ranges@, requested_rate),
                buffer_size,
            }),
            Err(e) => e == AudioError::NoSupportedConfig && ranges@.len() == 0,
        },
{
    let n = ranges.len();
    if n == 0 {
        return Err(AudioError::NoSupportedConfig);
    }
    let mut i: usize = 0;
    while i < n
        invariant
            n == ranges@.len(),
            i <= n,
            forall|j: int| 0 <= j < i ==> !range_supports(#[trigger] ranges@[j], requested_rate),
        decreases n - i,
    {
        let range = ranges[i];
        if range.min_rate <= requested_rate && requested_rate <= range.max_rate {
            assert(some_range_supports(ranges@, requested_rate));
            return Ok(StreamConfig { sample_rate: requested_rate, buffer_size });
        }
        i += 1;
    }
    assert(!some_range_supports(ranges@, requested_rate));
    Ok(StreamConfig { sample_rate: ranges[0].max_rate, buffer_size })
}

/// Picks which advertised range a stream is built from: the first range
/// accepting the requested rate, or the first range of all as the fallback.
/// The negotiated rate (`negotiated_rate`) always lies within the range this
/// picks.
pub fn select_range_index(ranges: &Vec<SupportedConfigRange>, requested_rate: u32) -> (i: usize)
    requires
        ranges@.len() > 0,
    ensures
        i < ranges@.len(),
        some_range_supports(ranges@, requested_rate) ==> range_supports(
            ranges@[i as int],
            requested_rate,
        ) && forall|j: int| 0 <= j < i ==> !range_supports(#[trigger] ranges@[j], requested_rate),
        !some_range_supports(ranges@, requested_rate) ==> i == 0,
{
    let n = ranges.len();
    let mut i: usize = 0;
    while i < n
        invariant
            n == ranges@.len(),
            i <= n,
            forall|j: int| 0 <= j < i ==> !range_supports(#[trigger] ranges@[j], requested_rate),
        decreases n - i,
    {
        let range = ranges[i];
        if range.min_rate <= requested_rate && requested_rate <= range.max_rate {
            assert(some_range_supports(ranges@, requested_rate));
            return i;
        }
        i += 1;
    }
    assert(!some_range_supports(ranges@, requested_rate));
    0
}

/// The negotiated rate is always one a device can live with: either some
/// advertised range accepts it, or it is exactly the first range's maximum.
pub proof fn lemma_negotiated_rate_valid(ranges: Seq<SupportedConfigRange>, requested: u32)
    requires
        ranges.len() > 0,
    ensures
        some_range_supports(ranges, negotiated_rate(ranges, requested)) || negotiated_rate(
            ranges,
            requested,
        ) == ranges[0].max_rate,
{
}

} // verus!
