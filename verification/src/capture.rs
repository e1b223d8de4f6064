//! Getting at the capture feed of a source: which way of recording to take, and
//! which device.

use crate::data::{SourceType, WHISPER_SAMPLE_RATE};
use crate::text::{chars_of, contains, contains_text, decimal, decimal_string, push_decimal, same_text};
use vstd::prelude::*;
use vstd::string::StringExecFns;

verus! {

/// A way of recording.
#[derive(Clone, Copy, Debug, PartialEq, Eq, Structural)]
pub enum CaptureBackend {
    /// The sound server's recorder, run as a child process. It delivers mono samples
    /// at the engine's rate, as little-endian signed 16-bit PCM.
    Recorder,
    /// The audio host of the system. It delivers the device's own rate and channels.
    Host,
}

/// Number of bytes to ask of the recorder at a time.
pub const READ_BUFFER_BYTES: usize = 4096;

/// The way of recording on the system `os`.
pub open spec fn backend_of(os: Seq<char>) -> CaptureBackend {
    if os == "linux"@ {
        CaptureBackend::Recorder
    } else {
        CaptureBackend::Host
    }
}

/// Picks the way of recording on the system `os`.
pub fn capture_backend(os: &str) -> (backend: CaptureBackend)
    ensures
        backend == backend_of(os@),
{
    if same_text(os, "linux") {
        CaptureBackend::Recorder
    } else {
        CaptureBackend::Host
    }
}

/// What is reported of a profile without a technical name.
pub open spec fn unnamed_device_detail() -> Seq<char> {
    "Dispositivo sin nombre técnico. Recarga la aplicación."@
}

/// What is reported of a device that the sound server does not list.
pub open spec fn unlisted_device_detail(name: Seq<char>, sources: Seq<char>) -> Seq<char> {
    "Dispositivo '"@ + name + "' no encontrado.\n\nDispositivos disponibles:\n"@ + sources
}

/// The device to record from with the recorder: the profile's technical name, if the
/// sound server's short listing of its sources holds it. Otherwise the reason why
/// there is none.
pub open spec fn recorder_device(technical_name: Option<Seq<char>>, sources: Seq<char>) -> Result<
    Seq<char>,
    Seq<char>,
> {
    match technical_name {
        None => Err(unnamed_device_detail()),
        Some(name) => if contains_text(sources, name) {
            Ok(name)
        } else {
            Err(unlisted_device_detail(name, sources))
        },
    }
}

/// The view of a result of two strings.
pub open spec fn result_text(r: Result<String, String>) -> Result<Seq<char>, Seq<char>> {
    match r {
        Ok(s) => Ok(s@),
        Err(e) => Err(e@),
    }
}

/// Finds the device to record from with the recorder, given the profile's technical
/// name and the sound server's short listing of its sources.
pub fn resolve_recorder_device(technical_name: Option<&str>, sources: &str) -> (device: Result<
    String,
    String,
>)
    ensures
        result_text(device) == recorder_device(
            crate::devices::optional_str(technical_name),
            sources@,
        ),
{
    match technical_name {
        None => Err(String::from_str("Dispositivo sin nombre técnico. Recarga la aplicación.")),
        Some(name) => {
            let hay = chars_of(sources);
            let needle = chars_of(name);
            if contains(hay.as_slice(), needle.as_slice()) {
                Ok(String::from_str(name))
            } else {
                let mut detail = String::from_str("Dispositivo '");
                detail.append(name);
                detail.append("' no encontrado.\n\nDispositivos disponibles:\n");
                detail.append(sources);
                Err(detail)
            }
        },
    }
}

/// The arguments that make the recorder deliver what the engine takes, from `device`:
/// one channel at the engine's rate, raw little-endian signed 16-bit samples.
pub open spec fn recorder_arguments_of(device: Seq<char>) -> Seq<Seq<char>> {
    seq![
        "--device"@,
        device,
        "--rate"@,
        decimal(WHISPER_SAMPLE_RATE as nat),
        "--channels"@,
        "1"@,
        "--format"@,
        "s16le"@,
        "--raw"@,
    ]
}

/// Builds [`recorder_arguments_of`].
pub fn recorder_arguments(device: &str) -> (arguments: Vec<String>)
    ensures
        arguments.deep_view() == recorder_arguments_of(device@),
{
    let mut arguments: Vec<String> = Vec::new();
    arguments.push(String::from_str("--device"));
    arguments.push(String::from_str(device));
    arguments.push(String::from_str("--rate"));
    arguments.push(decimal_string(WHISPER_SAMPLE_RATE as u64));
    arguments.push(String::from_str("--channels"));
    arguments.push(String::from_str("1"));
    arguments.push(String::from_str("--format"));
    arguments.push(String::from_str("s16le"));
    arguments.push(String::from_str("--raw"));
    assert(arguments.deep_view() =~= recorder_arguments_of(device@));
    arguments
}

/// What is reported when the audio host has no device with the number `device_id`.
pub open spec fn missing_device_detail(kind: SourceType, device_id: nat) -> Seq<char> {
    match kind {
        SourceType::Input => "Input "@ + decimal(device_id) + " no encontrado"@,
        SourceType::Output => "Output "@ + decimal(device_id) + " no encontrado"@,
    }
}

/// Builds [`missing_device_detail`].
pub fn device_not_found(kind: SourceType, device_id: usize) -> (detail: String)
    ensures
        detail@ == missing_device_detail(kind, device_id as nat),
{
    let mut detail = match kind {
        SourceType::Input => String::from_str("Input "),
        SourceType::Output => String::from_str("Output "),
    };
    push_decimal(&mut detail, device_id as u64);
    detail.append(" no encontrado");
    detail
}

} // verus!
