//! Capture-device resolution: preference against fallback, with the
//! microphone fatal and system audio optional, and privacy-safe device
//! classification.
//!
//! Enumerating and opening devices is hardware I/O and happens in the host
//! layer; the decisions are made here over the resolution outcomes, as plain
//! device names.

use vstd::prelude::*;
use crate::textmatch::{contains_sub, lower_of, spec_contains, to_lowercase_string};

verus! {

/// The devices a session records from.
#[derive(Clone, Debug)]
pub struct ResolvedDevices {
    pub microphone: Option<String>,
    pub system_audio: Option<String>,
}

/// Resolve the microphone: the preferred device where it parsed, the default
/// as fallback, and an error naming both failures where neither is available.
/// A missing microphone is fatal to the session.
///
/// `preferred_name` is the saved preference; `preferred_parsed` the outcome
/// of opening it; `default_device` the outcome of opening the OS default.
pub fn resolve_microphone_from_preference(
    preferred_name: Option<String>,
    preferred_parsed: Option<String>,
    default_device: Option<String>,
) -> (r: Result<Option<String>, String>)
    ensures
        r is Err <==> (preferred_parsed is None && default_device is None),
        preferred_parsed matches Some(d) ==> r == Ok::<Option<String>, String>(Some(d)),
        preferred_parsed is None ==> (default_device matches Some(d) ==> r == Ok::<
            Option<String>,
            String,
        >(Some(d))),
        r matches Ok(d) ==> d is Some,
        preferred_parsed is None && default_device is None ==> (r matches Err(m) && (
        match preferred_name {
            Some(p) => m@ == "No microphone device available. Preferred device '"@ + p@
                + "' not found, and default microphone unavailable"@,
            None => m@ == "No microphone device available"@,
        })),
{
    match preferred_parsed {
        Some(device) => Ok(Some(device)),
        None => match default_device {
            Some(device) => Ok(Some(device)),
            None => match preferred_name {
                Some(p) => {
                    let mut m = String::from_str(
                        "No microphone device available. Preferred device '");
                    m.append(p.as_str());
                    m.append("' not found, and default microphone unavailable");
                    Err(m)
                },
                None => Err(String::from_str("No microphone device available")),
            },
        },
    }
}

/// Resolve system audio: the preferred device where it parsed, the default as
/// fallback, and `None` — recording continues with the microphone only —
/// where neither is available.
pub fn resolve_system_audio_from_preference(
    preferred_parsed: Option<String>,
    default_device: Option<String>,
) -> (r: Option<String>)
    ensures
        preferred_parsed matches Some(d) ==> r == Some(d),
        preferred_parsed is None ==> r == default_device,
{
    match preferred_parsed {
        Some(device) => Some(device),
        None => default_device,
    }
}

/// Pair explicitly requested device names with their open outcomes: a name
/// that was requested but did not resolve is an error naming it; a device
/// that was not requested stays absent.
pub fn parse_explicit_devices(
    mic_device_name: &Option<String>,
    system_device_name: &Option<String>,
    mic_parsed: Option<String>,
    system_parsed: Option<String>,
) -> (r: Result<ResolvedDevices, String>)
    ensures
        r is Ok <==> ((mic_device_name is Some ==> mic_parsed is Some) && (
        system_device_name is Some ==> system_parsed is Some)),
        r matches Ok(d) ==> {
            &&& (mic_device_name is Some ==> d.microphone == mic_parsed)
            &&& (mic_device_name is None ==> d.microphone is None)
            &&& (system_device_name is Some ==> d.system_audio == system_parsed)
            &&& (system_device_name is None ==> d.system_audio is None)
        },
        mic_device_name matches Some(n) ==> mic_parsed is None ==> (r matches Err(m) && m@
            == "Invalid microphone device '"@ + n@ + "'"@),
        (mic_device_name is None || mic_parsed is Some) ==> (system_device_name matches Some(
            n,
        ) ==> system_parsed is None ==> (r matches Err(m) && m@
            == "Invalid system device '"@ + n@ + "'"@)),
{
    let microphone = match mic_device_name {
        Some(name) => match mic_parsed {
            Some(device) => Some(device),
            None => {
                let mut m = String::from_str("Invalid microphone device '");
                m.append(name.as_str());
                m.append("'");
                return Err(m);
            },
        },
        None => None,
    };
    let system_audio = match system_device_name {
        Some(name) => match system_parsed {
            Some(device) => Some(device),
            None => {
                let mut m = String::from_str("Invalid system device '");
                m.append(name.as_str());
                m.append("'");
                return Err(m);
            },
        },
        None => None,
    };
    Ok(ResolvedDevices { microphone, system_audio })
}

/// Whether a lowercased device name reads as a wireless device.
pub open spec fn spec_is_bluetooth_name(lowered: Seq<char>) -> bool {
    ||| spec_contains(lowered, "bluetooth"@)
    ||| spec_contains(lowered, "airpods"@)
    ||| spec_contains(lowered, "beats"@)
    ||| spec_contains(lowered, "headphones"@)
    ||| spec_contains(lowered, "bt "@)
    ||| spec_contains(lowered, "wireless"@)
}

/// Classify an already-lowercased device name.
pub fn classify_lowered_device_name(lowered: &str) -> (r: &'static str)
    ensures
        spec_is_bluetooth_name(lowered@) ==> r@ == "Bluetooth"@,
        !spec_is_bluetooth_name(lowered@) ==> r@ == "Wired"@,
{
    if contains_sub(lowered, "bluetooth") || contains_sub(lowered, "airpods") || contains_sub(
        lowered,
        "beats",
    ) || contains_sub(lowered, "headphones") || contains_sub(lowered, "bt ") || contains_sub(
        lowered,
        "wireless",
    ) {
        "Bluetooth"
    } else {
        "Wired"
    }
}

/// Classify a device name, case-insensitively, as Bluetooth or wired — a
/// privacy-safe category in place of the name.
pub fn classify_device_type(device_name: &str) -> (r: &'static str)
    ensures
        spec_is_bluetooth_name(lower_of(device_name@)) ==> r@ == "Bluetooth"@,
        !spec_is_bluetooth_name(lower_of(device_name@)) ==> r@ == "Wired"@,
{
    let lowered = to_lowercase_string(device_name);
    classify_lowered_device_name(lowered.as_str())
}

} // verus!
