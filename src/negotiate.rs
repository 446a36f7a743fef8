//! Choice of an input device and of a stream configuration among what the
//! audio backend offers.
use vstd::prelude::*;
use vstd::string::*;

verus! {

/// The sample rate `target` brought into `[min, max]`; `min` wins when the
/// bounds cross.
pub open spec fn clamped_rate(target: u32, min: u32, max: u32) -> u32 {
    if target < min {
        min
    } else if target > max {
        max
    } else {
        target
    }
}

/// Brings the requested sample rate into a supported range.
pub fn clamp_sample_rate(target: u32, min: u32, max: u32) -> (r: u32)
    ensures
        r == clamped_rate(target, min, max),
{
    if target < min {
        min
    } else if target > max {
        max
    } else {
        target
    }
}

/// One supported input configuration range, as the audio backend reports it.
#[derive(Clone, Copy, Debug, PartialEq, Eq, Structural)]
pub struct ConfigRange {
    pub min_rate: u32,
    pub max_rate: u32,
    pub channels: u16,
}

/// The configuration chosen: which range, at which sample rate.
#[derive(Clone, Copy, Debug, PartialEq, Eq, Structural)]
pub struct ConfigChoice {
    pub index: usize,
    pub sample_rate: u32,
}

/// Whether range `i` is the first whose channel count is `channels`.
pub open spec fn first_channel_match(ranges: Seq<ConfigRange>, channels: u16, i: int) -> bool {
    &&& 0 <= i < ranges.len()
    &&& ranges[i].channels == channels
    &&& forall|j: int| 0 <= j < i ==> ranges[j].channels != channels
}

/// The range a negotiation settles on: the first with the requested channel
/// count, else the first of all.
pub open spec fn chosen_index(ranges: Seq<ConfigRange>, channels: u16, i: int) -> bool {
    first_channel_match(ranges, channels, i) || (i == 0 && ranges.len() > 0 && forall|j: int|
        0 <= j < ranges.len() ==> ranges[j].channels != channels)
}

/// Picks a stream configuration among the supported ranges: the requested
/// rate clamped into the range, on the first range whose channel count
/// matches exactly, falling back to the first range. `None` when the device
/// advertises no range, in which case its default configuration is used.
pub fn choose_stream_config(ranges: &Vec<ConfigRange>, target_rate: u32, target_channels: u16) -> (r:
    Option<ConfigChoice>)
    ensures
        r is None <==> ranges@.len() == 0,
        r matches Some(c) ==> {
            &&& chosen_index(ranges@, target_channels, c.index as int)
            &&& c.sample_rate == clamped_rate(
                target_rate,
                ranges@[c.index as int].min_rate,
                ranges@[c.index as int].max_rate,
            )
        },
{
    let mut fallback: Option<ConfigChoice> = None;
    let mut i: usize = 0;
    while i < ranges.len()
        invariant
            0 <= i <= ranges@.len(),
            forall|j: int| 0 <= j < i ==> ranges@[j].channels != target_channels,
            i == 0 ==> fallback is None,
            i > 0 ==> fallback == Some(
                ConfigChoice {
                    index: 0,
                    sample_rate: clamped_rate(target_rate, ranges@[0].min_rate, ranges@[0].max_rate),
                },
            ),
        decreases ranges@.len() - i,
    {
        let range = ranges[i];
        let rate = clamp_sample_rate(target_rate, range.min_rate, range.max_rate);
        if fallback.is_none() {
            fallback = Some(ConfigChoice { index: i, sample_rate: rate });
        }
        if range.channels == target_channels {
            return Some(ConfigChoice { index: i, sample_rate: rate });
        }
        i = i + 1;
    }
    fallback
}

/// Whether device `i` reported exactly the name `requested`.
pub open spec fn device_named(names: Seq<Option<String>>, requested: Seq<char>, i: int) -> bool {
    &&& 0 <= i < names.len()
    &&& names[i] is Some
    &&& names[i]->Some_0@ == requested
}

/// Picks the input device whose name equals the requested identifier, the
/// first such in enumeration order; `None` means the host's default device,
/// which is also what the identifier `"default"` asks for. A device whose
/// name could not be read is listed as `None`.
pub fn choose_device(names: &Vec<Option<String>>, requested: &str) -> (r: Option<usize>)
    ensures
        requested@ == "default"@ ==> r is None,
        r matches Some(i) ==> device_named(names@, requested@, i as int) && forall|j: int|
            0 <= j < i ==> !device_named(names@, requested@, j),
        requested@ != "default"@ && r is None ==> forall|j: int|
            0 <= j < names@.len() ==> !device_named(names@, requested@, j),
{
    let wanted = String::from_str(requested);
    let default_id = String::from_str("default");
    if wanted == default_id {
        return None;
    }
    let mut i: usize = 0;
    while i < names.len()
        invariant
            0 <= i <= names@.len(),
            wanted@ == requested@,
            requested@ != "default"@,
            forall|j: int| 0 <= j < i ==> !device_named(names@, requested@, j),
        decreases names@.len() - i,
    {
        if let Some(name) = &names[i] {
            if *name == wanted {
                return Some(i);
            }
        }
        i = i + 1;
    }
    None
}

} // verus!
