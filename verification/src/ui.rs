//! The state of the front end and what each of the user's actions does to it.
//!
//! Drawing, channels and files are the caller's. What is decided on a click or on a
//! message from the workers is decided here.

use crate::data::{
    clone_optional, AudioMessage, DeviceInfo, DeviceModel, InterlocutorProfile,
    MessageModel, ProfileModel, SourceType, CHUNK_DURATION_SECS, WHISPER_SAMPLE_RATE,
};
use crate::supervisor::{active_of, active_profiles};
use crate::system_audio::{LoopbackInfo, LoopbackModel, LoopbackStatus};
use crate::text::{
    chars_of, decimal, join_with, push_decimal, replace_all, replaced, text_of, trim_bounds,
    trimmed,
};
use vstd::prelude::*;
use vstd::string::StringExecFns;

verus! {

/// The state of the front end.
pub struct TranscriptorApp {
    pub current_view: crate::nav::View,
    pub transcription: String,
    pub status_message: String,
    pub model_name: String,
    pub is_running: bool,
    pub all_input_devices: Vec<DeviceInfo>,
    pub all_output_devices: Vec<DeviceInfo>,
    pub interlocutors: Vec<InterlocutorProfile>,
    pub output_dir: String,
    pub loopback_info: Option<LoopbackInfo>,
    pub show_loopback_setup: bool,
}

/// A [`TranscriptorApp`] as mathematical values.
pub struct AppModel {
    pub current_view: crate::nav::View,
    pub transcription: Seq<char>,
    pub status_message: Seq<char>,
    pub model_name: Seq<char>,
    pub is_running: bool,
    pub all_input_devices: Seq<DeviceModel>,
    pub all_output_devices: Seq<DeviceModel>,
    pub interlocutors: Seq<ProfileModel>,
    pub output_dir: Seq<char>,
    pub loopback_info: Option<LoopbackModel>,
    pub show_loopback_setup: bool,
}

/// The view of an optional loopback report.
pub open spec fn optional_loopback(info: Option<LoopbackInfo>) -> Option<LoopbackModel> {
    match info {
        Some(i) => Some(i@),
        None => None,
    }
}

impl View for TranscriptorApp {
    type V = AppModel;

    open spec fn view(&self) -> AppModel {
        AppModel {
            current_view: self.current_view,
            transcription: self.transcription@,
            status_message: self.status_message@,
            model_name: self.model_name@,
            is_running: self.is_running,
            all_input_devices: self.all_input_devices.deep_view(),
            all_output_devices: self.all_output_devices.deep_view(),
            interlocutors: self.interlocutors.deep_view(),
            output_dir: self.output_dir@,
            loopback_info: optional_loopback(self.loopback_info),
            show_loopback_setup: self.show_loopback_setup,
        }
    }
}

/// The name that a profile gets with the identifier `id`.
pub open spec fn default_name(id: nat) -> Seq<char> {
    "Interlocutor "@ + decimal(id)
}

/// Builds [`default_name`].
pub fn default_profile_name(id: usize) -> (name: String)
    ensures
        name@ == default_name(id as nat),
{
    let mut name = String::from_str("Interlocutor ");
    push_decimal(&mut name, id as u64);
    name
}

/// The profile that is added to `count` profiles for a source of kind `source_type`,
/// when `devices` are the devices of that kind: it takes the first device, or device
/// zero where there is none, and is active.
pub open spec fn new_profile(count: nat, source_type: SourceType, devices: Seq<DeviceModel>) -> ProfileModel {
    ProfileModel {
        id: count,
        device_id: if devices.len() > 0 {
            devices[0].id
        } else {
            0
        },
        source_type,
        name: default_name(count),
        is_active: true,
        technical_name: if devices.len() > 0 {
            devices[0].technical_name
        } else {
            None
        },
        target_sample_rate: WHISPER_SAMPLE_RATE as nat,
        chunk_duration_secs: CHUNK_DURATION_SECS as nat,
    }
}

/// The devices of the kind `source_type`.
pub open spec fn devices_for(app: AppModel, source_type: SourceType) -> Seq<DeviceModel> {
    match source_type {
        SourceType::Input => app.all_input_devices,
        SourceType::Output => app.all_output_devices,
    }
}

/// `profiles` without the one at `index`, the rest numbered and named anew from zero.
pub open spec fn without_profile(profiles: Seq<ProfileModel>, index: int) -> Seq<ProfileModel> {
    let rest = profiles.remove(index);
    Seq::new(
        rest.len(),
        |i: int| ProfileModel { id: i as nat, name: default_name(i as nat), ..rest[i] },
    )
}

/// The name of the first device in `devices` with the identifier `id`.
pub open spec fn device_name_in(devices: Seq<DeviceModel>, id: nat) -> Option<Seq<char>>
    decreases devices.len(),
{
    if devices.len() == 0 {
        None
    } else if devices[0].id == id {
        Some(devices[0].name)
    } else {
        device_name_in(devices.drop_first(), id)
    }
}

/// The name to show for the device `id`.
pub open spec fn device_label(devices: Seq<DeviceModel>, id: nat) -> Seq<char> {
    match device_name_in(devices, id) {
        Some(name) => name,
        None => "Dispositivo no encontrado"@,
    }
}

/// Whether a loopback report asks the user to act.
pub open spec fn needs_setup(status: LoopbackStatus) -> bool {
    status == LoopbackStatus::NeedsConfiguration || status == LoopbackStatus::RequiresSetup
}

/// The transcript after a message of text `text` from the source `name`: a line
/// `(name) text` is added, unless the text is blank.
pub open spec fn with_line(transcription: Seq<char>, name: Seq<char>, text: Seq<char>) -> Seq<char> {
    if trimmed(text).len() > 0 {
        transcription + "("@ + name + ") "@ + text + "\n"@
    } else {
        transcription
    }
}

/// The state after a message of the pipeline.
pub open spec fn after_message(app: AppModel, message: MessageModel) -> AppModel {
    match message {
        MessageModel::Status(status) => AppModel { status_message: status, ..app },
        MessageModel::Transcription { text, name } => AppModel {
            transcription: with_line(app.transcription, name, text),
            ..app
        },
        MessageModel::Error(error) => AppModel { status_message: "❌ Error: "@ + error, ..app },
    }
}

/// The state once capture has started with `count` sources.
pub open spec fn started(app: AppModel, count: nat) -> AppModel {
    AppModel {
        is_running: true,
        transcription: Seq::<char>::empty(),
        status_message: "Iniciando "@ + decimal(count) + " fuentes de audio..."@,
        ..app
    }
}

/// What the caller has to do after the capture button was pressed.
#[derive(Debug, PartialEq)]
pub enum CaptureCommand {
    /// Start a run with these profiles.
    Start(Vec<InterlocutorProfile>),
    /// Set the cancellation flag and save the transcript.
    Stop,
    /// Nothing: the state says why.
    Nothing,
}

/// What the list of loopback devices amounts to after a refresh.
pub open spec fn refresh_status(count: nat) -> Seq<char> {
    if count > 0 {
        "✅ "@ + decimal(count) + " dispositivos loopback detectados"@
    } else {
        "⚠️ No se detectaron dispositivos loopback"@
    }
}

/// The line that sums up the loopback devices on the settings page.
pub open spec fn loopback_summary_of(count: nat) -> Seq<char> {
    if count > 0 {
        "✅ "@ + decimal(count) + " dispositivos loopback"@
    } else {
        "⚠️ Sin dispositivos de salida"@
    }
}

/// The state after the profile at `profile_index` was put on the device at
/// `device_index` of the devices of its kind.
pub open spec fn selected(app: AppModel, profile_index: int, device_index: int) -> AppModel {
    if 0 <= profile_index < app.interlocutors.len() {
        let profile = app.interlocutors[profile_index];
        let devices = devices_for(app, profile.source_type);
        if 0 <= device_index < devices.len() {
            AppModel {
                interlocutors: app.interlocutors.update(
                    profile_index,
                    ProfileModel {
                        device_id: devices[device_index].id,
                        technical_name: devices[device_index].technical_name,
                        ..profile
                    },
                ),
                ..app
            }
        } else {
            app
        }
    } else {
        app
    }
}

/// Why a transcript is not saved.
#[derive(Clone, Copy, Debug, PartialEq, Eq, Structural)]
pub enum SaveError {
    /// The transcript holds nothing but white space.
    EmptyTranscript,
}

impl SaveError {
    /// The error in words.
    pub fn message(&self) -> (text: String)
        ensures
            text@ == "No hay transcripción para guardar."@,
    {
        String::from_str("No hay transcripción para guardar.")
    }
}

/// The file to write for a transcript.
#[derive(Debug, PartialEq)]
pub struct SavePlan {
    /// The name of the file, within the output directory.
    pub file_name: String,
    pub content: String,
}

/// A [`SavePlan`] as mathematical values.
pub struct SavePlanModel {
    pub file_name: Seq<char>,
    pub content: Seq<char>,
}

impl View for SavePlan {
    type V = SavePlanModel;

    open spec fn view(&self) -> SavePlanModel {
        SavePlanModel { file_name: self.file_name@, content: self.content@ }
    }
}

/// The names of the active profiles, each with its spaces made underscores.
pub open spec fn name_parts(profiles: Seq<ProfileModel>) -> Seq<Seq<char>> {
    active_of(profiles).map_values(|p: ProfileModel| replaced(p.name, " "@, "_"@))
}

/// The file of a transcript saved at the time that `stamp` and `date` tell: it is
/// named after the active profiles and the stamp, and holds a heading, the date and
/// the transcript.
pub open spec fn save_plan(app: AppModel, stamp: Seq<char>, date: Seq<char>) -> SavePlanModel {
    SavePlanModel {
        file_name: join_with(name_parts(app.interlocutors), "_"@) + "_"@ + stamp + ".md"@,
        content: "# Minuta de Transcripción\n\nFecha: "@ + date + "\n\n---\n\n"@
            + app.transcription,
    }
}

/// The pattern of the time in a transcript's file name.
pub const STAMP_PATTERN: &'static str = "%Y%m%d_%H%M%S";

/// The pattern of the date in a transcript.
pub const DATE_PATTERN: &'static str = "%d-%m-%Y %H:%M:%S";

/// The local time of the call, written after `pattern`.
///
/// Trusted: this is `chrono::Local::now` followed by `DateTime::format`, whose result
/// is turned into a string. Nothing is claimed of the text: it depends on the clock.
/// The two patterns that are let in hold only specifiers that chrono knows, so that
/// turning the result into a string does not fail. As chrono does, this takes the
/// system's clock to stand past the year 1970.
#[verifier::external_body]
fn local_time_text(pattern: &str) -> (text: String)
    requires
        pattern@ == "%Y%m%d_%H%M%S"@ || pattern@ == "%d-%m-%Y %H:%M:%S"@,
{
    chrono::Local::now().format(pattern).to_string()
}

/// Finds the name of the first device with the identifier `id`.
fn find_device_name(devices: &[DeviceInfo], id: usize) -> (name: Option<String>)
    ensures
        match device_name_in(devices.deep_view(), id as nat) {
            Some(n) => name is Some && name->0@ == n,
            None => name is None,
        },
{
    let ghost all = devices.deep_view();
    let mut i: usize = 0;
    assert(all.subrange(0, all.len() as int) =~= all);
    while i < devices.len()
        invariant
            i <= devices.len(),
            all == devices.deep_view(),
            device_name_in(all, id as nat) == device_name_in(
                all.subrange(i as int, all.len() as int),
                id as nat,
            ),
        decreases devices.len() - i,
    {
        proof {
            let rest = all.subrange(i as int, all.len() as int);
            assert(rest[0] == devices[i as int]@);
            assert(rest.drop_first() =~= all.subrange(i + 1, all.len() as int));
        }
        if devices[i].id == id {
            return Some(devices[i].name.clone());
        }
        i += 1;
    }
    None
}

impl TranscriptorApp {
    /// The state at start-up, given the devices that were found and, where no output
    /// device was found, the loopback report.
    ///
    /// With an input device there is one profile for it from the start. Without an
    /// output device the report is shown if it asks the user to act.
    pub fn new(
        all_input_devices: Vec<DeviceInfo>,
        all_output_devices: Vec<DeviceInfo>,
        loopback: Option<LoopbackInfo>,
    ) -> (app: Self)
        ensures
            app@.current_view == crate::nav::View::Transcription,
            app@.transcription == "El texto transcrito aparecerá aquí.\n"@,
            app@.status_message == "Presiona 'Iniciar Captura' para comenzar."@,
            app@.model_name == "large-v3"@,
            !app@.is_running,
            app@.all_input_devices == all_input_devices.deep_view(),
            app@.all_output_devices == all_output_devices.deep_view(),
            app@.output_dir == "./minutas"@,
            app@.interlocutors == if all_input_devices.len() > 0 {
                seq![new_profile(0, SourceType::Input, all_input_devices.deep_view())]
            } else {
                Seq::<ProfileModel>::empty()
            },
            app@.show_loopback_setup == (all_output_devices.len() == 0 && loopback is Some
                && needs_setup(loopback->0.status)),
            app@.loopback_info == if app@.show_loopback_setup {
                optional_loopback(loopback)
            } else {
                None
            },
    {
        let ghost outputs = all_output_devices.deep_view();
        assert(outputs.len() == all_output_devices.len());
        let interlocutors: Vec<InterlocutorProfile> = Vec::new();
        assert(interlocutors.deep_view() =~= Seq::<ProfileModel>::empty());
        let mut app = TranscriptorApp {
            current_view: crate::nav::View::Transcription,
            transcription: String::from_str("El texto transcrito aparecerá aquí.\n"),
            status_message: String::from_str("Presiona 'Iniciar Captura' para comenzar."),
            model_name: String::from_str("large-v3"),
            is_running: false,
            all_input_devices,
            all_output_devices,
            interlocutors,
            output_dir: String::from_str("./minutas"),
            loopback_info: None,
            show_loopback_setup: false,
        };
        if app.all_input_devices.len() > 0 {
            app.add_new_profile(SourceType::Input);
            assert(app@.interlocutors =~= seq![
                new_profile(0, SourceType::Input, app@.all_input_devices),
            ]);
        }
        assert(app@.all_output_devices.len() == app.all_output_devices.len());
        if app.all_output_devices.len() == 0 {
            match loopback {
                Some(info) => {
                    app.check_and_prompt_loopback(info);
                },
                None => {},
            }
        }
        app
    }

    /// Takes a loopback report and shows it if it asks the user to act.
    pub fn check_and_prompt_loopback(&mut self, info: LoopbackInfo)
        ensures
            needs_setup(info.status) ==> final(self)@ == (AppModel {
                loopback_info: Some(info@),
                show_loopback_setup: true,
                ..old(self)@
            }),
            !needs_setup(info.status) ==> final(self)@ == old(self)@,
    {
        match info.status {
            LoopbackStatus::NeedsConfiguration | LoopbackStatus::RequiresSetup => {
                self.loopback_info = Some(info);
                self.show_loopback_setup = true;
            },
            _ => {},
        }
    }

    /// Adds an active profile for a source of kind `source_type`, on the first device
    /// of that kind.
    pub fn add_new_profile(&mut self, source_type: SourceType)
        ensures
            final(self)@ == (AppModel {
                interlocutors: old(self)@.interlocutors.push(
                    new_profile(
                        old(self)@.interlocutors.len(),
                        source_type,
                        devices_for(old(self)@, source_type),
                    ),
                ),
                ..old(self)@
            }),
    {
        let new_id: usize = self.interlocutors.len();
        let ghost before = self.interlocutors.deep_view();
        let (device_id, technical_name) = match source_type {
            SourceType::Input => {
                if self.all_input_devices.len() > 0 {
                    (
                        self.all_input_devices[0].id,
                        clone_optional(&self.all_input_devices[0].technical_name),
                    )
                } else {
                    (0, None)
                }
            },
            SourceType::Output => {
                if self.all_output_devices.len() > 0 {
                    (
                        self.all_output_devices[0].id,
                        clone_optional(&self.all_output_devices[0].technical_name),
                    )
                } else {
                    (0, None)
                }
            },
        };
        let profile = InterlocutorProfile {
            id: new_id,
            device_id,
            source_type,
            name: default_profile_name(new_id),
            is_active: true,
            technical_name,
            target_sample_rate: WHISPER_SAMPLE_RATE,
            chunk_duration_secs: CHUNK_DURATION_SECS,
        };
        self.interlocutors.push(profile);
        assert(self.interlocutors.deep_view() =~= before.push(profile@));
    }

    /// Removes the profile at `index` and numbers and names the others anew, from
    /// zero. An index past the end changes nothing.
    pub fn remove_profile(&mut self, index: usize)
        ensures
            index < old(self)@.interlocutors.len() ==> final(self)@ == (AppModel {
                interlocutors: without_profile(old(self)@.interlocutors, index as int),
                ..old(self)@
            }),
            index >= old(self)@.interlocutors.len() ==> final(self)@ == old(self)@,
    {
        if index >= self.interlocutors.len() {
            return ;
        }
        let ghost before = self.interlocutors.deep_view();
        let mut old_profiles: Vec<InterlocutorProfile> = Vec::new();
        old_profiles.append(&mut self.interlocutors);
        assert(old_profiles.deep_view() =~= before);
        let mut i: usize = 0;
        assert(self.interlocutors.deep_view() =~= Seq::<ProfileModel>::empty());
        while i < old_profiles.len()
            invariant
                i <= old_profiles.len(),
                index < old_profiles.len(),
                before == old_profiles.deep_view(),
                self.interlocutors.len() == (if i <= index {
                    i as int
                } else {
                    i - 1
                }),
                forall|k: int|
                    0 <= k < self.interlocutors.len() ==> (#[trigger] self.interlocutors[k])@
                        == without_profile(before, index as int)[k],
                self.current_view == old(self).current_view,
                self.transcription == old(self).transcription,
                self.status_message == old(self).status_message,
                self.model_name == old(self).model_name,
                self.is_running == old(self).is_running,
                self.all_input_devices == old(self).all_input_devices,
                self.all_output_devices == old(self).all_output_devices,
                self.output_dir == old(self).output_dir,
                self.loopback_info == old(self).loopback_info,
                self.show_loopback_setup == old(self).show_loopback_setup,
            decreases old_profiles.len() - i,
        {
            if i != index {
                let new_id: usize = self.interlocutors.len();
                let kept = &old_profiles[i];
                assert(before[i as int] == kept@);
                assert(before.remove(index as int)[new_id as int] == before[i as int]);
                let profile = InterlocutorProfile {
                    id: new_id,
                    device_id: kept.device_id,
                    source_type: kept.source_type,
                    name: default_profile_name(new_id),
                    is_active: kept.is_active,
                    technical_name: clone_optional(&kept.technical_name),
                    target_sample_rate: kept.target_sample_rate,
                    chunk_duration_secs: kept.chunk_duration_secs,
                };
                self.interlocutors.push(profile);
            }
            i += 1;
        }
        assert(self.interlocutors.deep_view() =~= without_profile(before, index as int));
    }

    /// The name to show for the device `device_id` of the kind `source_type`.
    pub fn get_device_name_static(
        input_devices: &[DeviceInfo],
        output_devices: &[DeviceInfo],
        source_type: SourceType,
        device_id: usize,
    ) -> (name: String)
        ensures
            name@ == device_label(
                match source_type {
                    SourceType::Input => input_devices.deep_view(),
                    SourceType::Output => output_devices.deep_view(),
                },
                device_id as nat,
            ),
    {
        let devices = match source_type {
            SourceType::Input => input_devices,
            SourceType::Output => output_devices,
        };
        match find_device_name(devices, device_id) {
            Some(name) => name,
            None => String::from_str("Dispositivo no encontrado"),
        }
    }

    /// Takes a message of the pipeline: a status or an error replaces the status
    /// line, and a transcription that is not blank adds a line to the transcript.
    pub fn receive(&mut self, message: AudioMessage)
        ensures
            final(self)@ == after_message(old(self)@, message@),
    {
        match message {
            AudioMessage::Status(status) => {
                self.status_message = status;
            },
            AudioMessage::Transcription { text, name } => {
                let chars = chars_of(text.as_str());
                let (a, b) = trim_bounds(&chars, 0, chars.len());
                assert(chars@.subrange(0, chars.len() as int) =~= chars@);
                if a < b {
                    self.transcription.append("(");
                    self.transcription.append(name.as_str());
                    self.transcription.append(") ");
                    self.transcription.append(text.as_str());
                    self.transcription.append("\n");
                }
            },
            AudioMessage::Error(error) => {
                let mut status = String::from_str("❌ Error: ");
                status.append(error.as_str());
                self.status_message = status;
            },
        }
    }

    /// Starts capture if a profile is active: the transcript is emptied, the state
    /// runs, and the active profiles are returned for the run. Without an active
    /// profile only the status line changes.
    pub fn start_audio_capture(&mut self) -> (run: Option<Vec<InterlocutorProfile>>)
        ensures
            run is Some <==> active_of(old(self)@.interlocutors).len() > 0,
            run is Some ==> run->0.deep_view() == active_of(old(self)@.interlocutors)
                && final(self)@ == started(old(self)@, run->0.len() as nat),
            run is None ==> final(self)@ == (AppModel {
                status_message:
                    "❌ Error: Debe añadir y activar al menos una fuente de audio."@,
                ..old(self)@
            }),
    {
        let active = active_profiles(&self.interlocutors);
        if active.len() == 0 {
            self.status_message = String::from_str(
                "❌ Error: Debe añadir y activar al menos una fuente de audio.",
            );
            return None;
        }
        self.is_running = true;
        self.transcription = String::new();
        let mut status = String::from_str("Iniciando ");
        push_decimal(&mut status, active.len() as u64);
        status.append(" fuentes de audio...");
        self.status_message = status;
        Some(active)
    }

    /// Whether the capture button can be pressed: while capture runs, to stop it, and
    /// otherwise once there is a profile.
    pub fn can_toggle_capture(&self) -> (can: bool)
        ensures
            can == (self@.is_running || self@.interlocutors.len() > 0),
    {
        self.is_running || self.interlocutors.len() > 0
    }

    /// The capture button was pressed.
    ///
    /// While capture runs it is stopped. Otherwise capture starts, if a profile is
    /// active; if none is, the status line says so.
    pub fn toggle_capture(&mut self) -> (command: CaptureCommand)
        ensures
            old(self)@.is_running ==> command == CaptureCommand::Stop && final(self)@ == (AppModel {
                is_running: false,
                status_message: "Captura detenida. Guardando minuta..."@,
                ..old(self)@
            }),
            !old(self)@.is_running && active_of(old(self)@.interlocutors).len() == 0 ==> command
                == CaptureCommand::Nothing && final(self)@ == (AppModel {
                status_message: "❌ Error: Active al menos un interlocutor en Configuración."@,
                ..old(self)@
            }),
            !old(self)@.is_running && active_of(old(self)@.interlocutors).len() > 0 ==> command is Start
                && command->Start_0.deep_view() == active_of(old(self)@.interlocutors)
                && final(self)@ == started(old(self)@, command->Start_0.len() as nat),
    {
        if self.is_running {
            self.is_running = false;
            self.status_message = String::from_str("Captura detenida. Guardando minuta...");
            return CaptureCommand::Stop;
        }
        match self.start_audio_capture() {
            Some(active) => CaptureCommand::Start(active),
            None => {
                self.status_message = String::from_str(
                    "❌ Error: Active al menos un interlocutor en Configuración.",
                );
                CaptureCommand::Nothing
            },
        }
    }

    /// Empties the transcript.
    pub fn clear_transcription(&mut self)
        ensures
            final(self)@ == (AppModel { transcription: Seq::<char>::empty(), ..old(self)@ }),
    {
        self.transcription = String::new();
    }

    /// Shows the loopback report, whatever it says.
    pub fn open_loopback_setup(&mut self, info: Option<LoopbackInfo>)
        ensures
            final(self)@ == (AppModel {
                loopback_info: optional_loopback(info),
                show_loopback_setup: true,
                ..old(self)@
            }),
    {
        self.loopback_info = info;
        self.show_loopback_setup = true;
    }

    /// Closes the loopback report.
    pub fn close_loopback_setup(&mut self)
        ensures
            final(self)@ == (AppModel { show_loopback_setup: false, ..old(self)@ }),
    {
        self.show_loopback_setup = false;
    }

    /// The user asked for a source that records the system's output.
    ///
    /// With an output device a profile is added. Without one the loopback report is
    /// shown instead, and the status line says what is missing.
    pub fn add_output_profile(&mut self, info: Option<LoopbackInfo>)
        ensures
            old(self)@.all_output_devices.len() > 0 ==> final(self)@ == (AppModel {
                interlocutors: old(self)@.interlocutors.push(
                    new_profile(
                        old(self)@.interlocutors.len(),
                        SourceType::Output,
                        old(self)@.all_output_devices,
                    ),
                ),
                ..old(self)@
            }),
            old(self)@.all_output_devices.len() == 0 ==> final(self)@ == (AppModel {
                status_message: "⚠️ Configure dispositivos loopback primero"@,
                loopback_info: optional_loopback(info),
                show_loopback_setup: true,
                ..old(self)@
            }),
    {
        if self.all_output_devices.len() == 0 {
            self.status_message = String::from_str("⚠️ Configure dispositivos loopback primero");
            self.loopback_info = info;
            self.show_loopback_setup = true;
        } else {
            self.add_new_profile(SourceType::Output);
        }
    }

    /// Takes the devices of a new search. The status line tells how many loopback
    /// devices there are, and with at least one the loopback report closes.
    pub fn refresh_devices(
        &mut self,
        all_input_devices: Vec<DeviceInfo>,
        all_output_devices: Vec<DeviceInfo>,
    )
        ensures
            final(self)@ == (AppModel {
                all_input_devices: all_input_devices.deep_view(),
                all_output_devices: all_output_devices.deep_view(),
                status_message: refresh_status(all_output_devices.len() as nat),
                show_loopback_setup: old(self)@.show_loopback_setup && all_output_devices.len()
                    == 0,
                ..old(self)@
            }),
    {
        let count: usize = all_output_devices.len();
        self.all_input_devices = all_input_devices;
        self.all_output_devices = all_output_devices;
        if count > 0 {
            let mut status = String::from_str("✅ ");
            push_decimal(&mut status, count as u64);
            status.append(" dispositivos loopback detectados");
            self.status_message = status;
            self.show_loopback_setup = false;
        } else {
            self.status_message = String::from_str("⚠️ No se detectaron dispositivos loopback");
        }
    }

    /// The line that sums up the loopback devices.
    pub fn loopback_summary(&self) -> (line: String)
        ensures
            line@ == loopback_summary_of(self@.all_output_devices.len()),
    {
        let count: usize = self.all_output_devices.len();
        if count > 0 {
            let mut line = String::from_str("✅ ");
            push_decimal(&mut line, count as u64);
            line.append(" dispositivos loopback");
            line
        } else {
            String::from_str("⚠️ Sin dispositivos de salida")
        }
    }

    /// Puts the profile at `profile_index` on the device at `device_index` of the
    /// devices of its kind: the profile takes the device's identifier and technical
    /// name. An index past the end changes nothing.
    pub fn select_device(&mut self, profile_index: usize, device_index: usize)
        ensures
            final(self)@ == selected(old(self)@, profile_index as int, device_index as int),
    {
        if profile_index >= self.interlocutors.len() {
            return ;
        }
        let ghost before = self.interlocutors.deep_view();
        let (device_id, technical_name) = match self.interlocutors[profile_index].source_type {
            SourceType::Input => {
                if device_index >= self.all_input_devices.len() {
                    return ;
                }
                (
                    self.all_input_devices[device_index].id,
                    clone_optional(&self.all_input_devices[device_index].technical_name),
                )
            },
            SourceType::Output => {
                if device_index >= self.all_output_devices.len() {
                    return ;
                }
                (
                    self.all_output_devices[device_index].id,
                    clone_optional(&self.all_output_devices[device_index].technical_name),
                )
            },
        };
        let mut profile = self.interlocutors[profile_index].clone();
        profile.device_id = device_id;
        profile.technical_name = technical_name;
        self.interlocutors.set(profile_index, profile);
        assert(self.interlocutors.deep_view() =~= before.update(profile_index as int, profile@));
    }

    /// What to write for the transcript, given the time of saving as the file's
    /// `stamp` and as the `date` to show. A blank transcript is not saved.
    pub fn save_plan_at(&self, stamp: &str, date: &str) -> (plan: Result<SavePlan, SaveError>)
        ensures
            plan is Err <==> trimmed(self@.transcription).len() == 0,
            plan is Err ==> plan->Err_0 == SaveError::EmptyTranscript,
            plan is Ok ==> plan->Ok_0@ == save_plan(self@, stamp@, date@),
    {
        let chars = chars_of(self.transcription.as_str());
        let (a, b) = trim_bounds(&chars, 0, chars.len());
        assert(chars@.subrange(0, chars.len() as int) =~= chars@);
        if a == b {
            return Err(SaveError::EmptyTranscript);
        }
        let active = active_profiles(&self.interlocutors);
        let ghost parts = name_parts(self@.interlocutors);
        let space = chars_of(" ");
        let underscore = chars_of("_");
        let mut file_name = String::new();
        let mut i: usize = 0;
        assert(parts.subrange(0, 0) =~= Seq::<Seq<char>>::empty());
        while i < active.len()
            invariant
                i <= active.len(),
                active.deep_view() == active_of(self@.interlocutors),
                parts == name_parts(self@.interlocutors),
                space@ == " "@,
                underscore@ == "_"@,
                file_name@ == join_with(parts.subrange(0, i as int), "_"@),
            decreases active.len() - i,
        {
            let name = chars_of(active[i].name.as_str());
            let part = replace_all(name.as_slice(), space.as_slice(), underscore.as_slice());
            proof {
                let next = parts.subrange(0, i + 1);
                assert(next.drop_last() =~= parts.subrange(0, i as int));
                assert(active.deep_view()[i as int] == active[i as int]@);
                assert(next.last() == part@);
            }
            if i > 0 {
                file_name.append("_");
            }
            let piece = text_of(part.as_slice());
            file_name.append(piece.as_str());
            i += 1;
        }
        assert(parts.subrange(0, parts.len() as int) =~= parts);
        file_name.append("_");
        file_name.append(stamp);
        file_name.append(".md");
        let mut content = String::from_str("# Minuta de Transcripción\n\nFecha: ");
        content.append(date);
        content.append("\n\n---\n\n");
        content.append(self.transcription.as_str());
        Ok(SavePlan { file_name, content })
    }

    /// What to write for the transcript now: [`Self::save_plan_at`] with the local
    /// time of the call.
    pub fn save_transcript(&self) -> (plan: Result<SavePlan, SaveError>)
        ensures
            plan is Err <==> trimmed(self@.transcription).len() == 0,
            plan is Err ==> plan->Err_0 == SaveError::EmptyTranscript,
            plan is Ok ==> exists|stamp: Seq<char>, date: Seq<char>|
                plan->Ok_0@ == save_plan(self@, stamp, date),
    {
        let chars = chars_of(self.transcription.as_str());
        let (a, b) = trim_bounds(&chars, 0, chars.len());
        assert(chars@.subrange(0, chars.len() as int) =~= chars@);
        if a == b {
            return Err(SaveError::EmptyTranscript);
        }
        let stamp = local_time_text(STAMP_PATTERN);
        let date = local_time_text(DATE_PATTERN);
        self.save_plan_at(stamp.as_str(), date.as_str())
    }

    /// The transcript was written to `path`.
    pub fn transcript_saved(&mut self, path: &str)
        ensures
            final(self)@ == (AppModel {
                status_message: "✅ Minuta guardada en: "@ + path@,
                ..old(self)@
            }),
    {
        let mut status = String::from_str("✅ Minuta guardada en: ");
        status.append(path);
        self.status_message = status;
    }

    /// The transcript could not be written; `reason` says why.
    pub fn transcript_not_saved(&mut self, reason: &str)
        ensures
            final(self)@ == (AppModel {
                status_message: "❌ Error al guardar minuta: "@ + reason@,
                ..old(self)@
            }),
    {
        let mut status = String::from_str("❌ Error al guardar minuta: ");
        status.append(reason);
        self.status_message = status;
    }
}

} // verus!
