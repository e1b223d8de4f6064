//! The plain data that the pipeline and its front end exchange.

use vstd::prelude::*;

verus! {

/// Sample rate that the recognition engine takes, in samples per second.
pub const WHISPER_SAMPLE_RATE: u32 = 16000;

/// Default length of a window, in seconds.
pub const CHUNK_DURATION_SECS: u32 = 5;

/// Energy of a normalized window under which the window counts as silence, in
/// thousandths. A window at the threshold is no silence.
pub const SILENCE_THRESHOLD_PER_MILLE: u32 = 100;

/// Peak to which a window is normalized, in thousandths.
pub const TARGET_PEAK_PER_MILLE: u32 = 950;

/// Peak under which a window is left as it is, in millionths.
pub const MIN_PEAK_PER_MILLION: u32 = 100;

/// Probability of silence over which the engine gives no text, in thousandths.
pub const NO_SPEECH_THRESHOLD_PER_MILLE: u32 = 600;

/// Language of the speech.
pub const LANGUAGE: &'static str = "es";

/// Whether a source records a microphone or the system's own output.
#[derive(Clone, Copy, Debug, PartialEq, Eq, Structural)]
pub enum SourceType {
    Input,
    Output,
}

/// One audio device as the platform lists it.
#[derive(Debug, PartialEq)]
pub struct DeviceInfo {
    pub id: usize,
    pub name: String,
    /// The name by which the platform's tools find the device again.
    pub technical_name: Option<String>,
}

/// What a [`DeviceInfo`] holds, as mathematical values.
pub struct DeviceModel {
    pub id: nat,
    pub name: Seq<char>,
    pub technical_name: Option<Seq<char>>,
}

/// The view of an optional string.
pub open spec fn optional_text(s: Option<String>) -> Option<Seq<char>> {
    match s {
        Some(t) => Some(t@),
        None => None,
    }
}

/// Copies an optional string.
pub fn clone_optional(s: &Option<String>) -> (r: Option<String>)
    ensures
        r == *s,
        optional_text(r) == optional_text(*s),
{
    match s {
        Some(t) => Some(t.clone()),
        None => None,
    }
}

impl View for DeviceInfo {
    type V = DeviceModel;

    open spec fn view(&self) -> DeviceModel {
        DeviceModel {
            id: self.id as nat,
            name: self.name@,
            technical_name: optional_text(self.technical_name),
        }
    }
}

impl DeepView for DeviceInfo {
    type V = DeviceModel;

    open spec fn deep_view(&self) -> DeviceModel {
        self@
    }
}

impl Clone for DeviceInfo {
    fn clone(&self) -> (r: Self)
        ensures
            r == *self,
            r@ == self@,
    {
        DeviceInfo {
            id: self.id,
            name: self.name.clone(),
            technical_name: clone_optional(&self.technical_name),
        }
    }
}

/// The configuration of one capture source.
#[derive(Debug, PartialEq)]
pub struct InterlocutorProfile {
    pub id: usize,
    pub device_id: usize,
    pub source_type: SourceType,
    pub name: String,
    /// Only active profiles are started.
    pub is_active: bool,
    pub technical_name: Option<String>,
    /// Rate at which windows are handed to the recognition engine.
    pub target_sample_rate: u32,
    /// Length of a window, in seconds.
    pub chunk_duration_secs: u32,
}

/// What an [`InterlocutorProfile`] holds, as mathematical values.
pub struct ProfileModel {
    pub id: nat,
    pub device_id: nat,
    pub source_type: SourceType,
    pub name: Seq<char>,
    pub is_active: bool,
    pub technical_name: Option<Seq<char>>,
    pub target_sample_rate: nat,
    pub chunk_duration_secs: nat,
}

impl View for InterlocutorProfile {
    type V = ProfileModel;

    open spec fn view(&self) -> ProfileModel {
        ProfileModel {
            id: self.id as nat,
            device_id: self.device_id as nat,
            source_type: self.source_type,
            name: self.name@,
            is_active: self.is_active,
            technical_name: optional_text(self.technical_name),
            target_sample_rate: self.target_sample_rate as nat,
            chunk_duration_secs: self.chunk_duration_secs as nat,
        }
    }
}

impl DeepView for InterlocutorProfile {
    type V = ProfileModel;

    open spec fn deep_view(&self) -> ProfileModel {
        self@
    }
}

impl Clone for InterlocutorProfile {
    fn clone(&self) -> (r: Self)
        ensures
            r == *self,
            r@ == self@,
    {
        InterlocutorProfile {
            id: self.id,
            device_id: self.device_id,
            source_type: self.source_type,
            name: self.name.clone(),
            is_active: self.is_active,
            technical_name: clone_optional(&self.technical_name),
            target_sample_rate: self.target_sample_rate,
            chunk_duration_secs: self.chunk_duration_secs,
        }
    }
}

/// What a worker tells the consumer of the pipeline.
#[derive(Debug, PartialEq)]
pub enum AudioMessage {
    Status(String),
    /// Recognized text, with the name of the source it came from.
    Transcription { text: String, name: String },
    Error(String),
}

/// What an [`AudioMessage`] holds, as mathematical values.
pub enum MessageModel {
    Status(Seq<char>),
    Transcription { text: Seq<char>, name: Seq<char> },
    Error(Seq<char>),
}

impl View for AudioMessage {
    type V = MessageModel;

    open spec fn view(&self) -> MessageModel {
        match self {
            AudioMessage::Status(s) => MessageModel::Status(s@),
            AudioMessage::Transcription { text, name } => MessageModel::Transcription {
                text: text@,
                name: name@,
            },
            AudioMessage::Error(s) => MessageModel::Error(s@),
        }
    }
}

impl Clone for AudioMessage {
    fn clone(&self) -> (r: Self)
        ensures
            r == *self,
            r@ == self@,
    {
        match self {
            AudioMessage::Status(s) => AudioMessage::Status(s.clone()),
            AudioMessage::Transcription { text, name } => AudioMessage::Transcription {
                text: text.clone(),
                name: name.clone(),
            },
            AudioMessage::Error(s) => AudioMessage::Error(s.clone()),
        }
    }
}

} // verus!
