//! Whether the system can record its own output, and how to make it.

use crate::data::{optional_text, DeviceInfo, DeviceModel};
use crate::devices::{as_optional_str, list_sources, optional_str, sources_of, AudioProbe};
use crate::text::{
    chars_of, contains, contains_text, decimal, lines, lines_of, lowercase_of, push_decimal, rows,
    same_text, string_of, to_lowercase, trim_bounds, trimmed,
};
use vstd::prelude::*;
use vstd::string::StringExecFns;

verus! {

/// How far a system is from recording its own output.
#[derive(Clone, Copy, Debug, PartialEq, Eq, Structural)]
pub enum LoopbackStatus {
    Available,
    NeedsConfiguration,
    RequiresSetup,
    Unsupported,
}

/// What to tell the user about recording the system's output.
#[derive(Debug)]
pub struct LoopbackInfo {
    pub status: LoopbackStatus,
    pub message: String,
    pub instructions: Vec<String>,
    pub loopback_devices: Vec<DeviceInfo>,
}

/// A [`LoopbackInfo`] as mathematical values.
pub struct LoopbackModel {
    pub status: LoopbackStatus,
    pub message: Seq<char>,
    pub instructions: Seq<Seq<char>>,
    pub loopback_devices: Seq<DeviceModel>,
}

impl View for LoopbackInfo {
    type V = LoopbackModel;

    open spec fn view(&self) -> LoopbackModel {
        LoopbackModel {
            status: self.status,
            message: self.message@,
            instructions: self.instructions.deep_view(),
            loopback_devices: self.loopback_devices.deep_view(),
        }
    }
}

/// Copies a list of strings.
pub fn clone_texts(texts: &Vec<String>) -> (copy: Vec<String>)
    ensures
        copy.deep_view() == texts.deep_view(),
{
    let mut copy: Vec<String> = Vec::new();
    let mut i: usize = 0;
    while i < texts.len()
        invariant
            i <= texts.len(),
            copy.len() == i,
            forall|k: int| 0 <= k < i ==> copy[k]@ == texts[k]@,
        decreases texts.len() - i,
    {
        copy.push(texts[i].clone());
        i += 1;
    }
    assert(copy.deep_view() =~= texts.deep_view());
    copy
}

/// Copies a list of devices.
pub fn clone_devices(devices: &Vec<DeviceInfo>) -> (copy: Vec<DeviceInfo>)
    ensures
        copy.deep_view() == devices.deep_view(),
{
    let mut copy: Vec<DeviceInfo> = Vec::new();
    let mut i: usize = 0;
    while i < devices.len()
        invariant
            i <= devices.len(),
            copy.len() == i,
            forall|k: int| 0 <= k < i ==> copy[k]@ == devices[k]@,
        decreases devices.len() - i,
    {
        copy.push(devices[i].clone());
        i += 1;
    }
    assert(copy.deep_view() =~= devices.deep_view());
    copy
}

impl Clone for LoopbackInfo {
    fn clone(&self) -> (r: Self)
        ensures
            r@ == self@,
    {
        LoopbackInfo {
            status: self.status,
            message: self.message.clone(),
            instructions: clone_texts(&self.instructions),
            loopback_devices: clone_devices(&self.loopback_devices),
        }
    }
}

/// The texts that a list of string slices holds.
pub open spec fn texts_of(items: Seq<&'static str>) -> Seq<Seq<char>> {
    items.map_values(|item: &'static str| item@)
}

/// Makes owned strings of a list of string slices.
fn owned(items: Vec<&'static str>) -> (texts: Vec<String>)
    ensures
        texts.deep_view() == texts_of(items@),
{
    let mut texts: Vec<String> = Vec::new();
    let mut i: usize = 0;
    while i < items.len()
        invariant
            i <= items.len(),
            texts.len() == i,
            forall|k: int| 0 <= k < i ==> texts[k]@ == items[k]@,
        decreases items.len() - i,
    {
        texts.push(String::from_str(items[i]));
        i += 1;
    }
    assert(texts.deep_view() =~= texts_of(items@));
    texts
}

/// The name under which a platform is known here: one of the three that are
/// supported, or `unknown`.
pub open spec fn os_name(platform: Seq<char>) -> Seq<char> {
    if platform == "windows"@ {
        "windows"@
    } else if platform == "linux"@ {
        "linux"@
    } else if platform == "macos"@ {
        "macos"@
    } else {
        "unknown"@
    }
}

/// Names the operating system, given the platform that the program was built for.
pub fn detect_os(platform: &str) -> (os: String)
    ensures
        os@ == os_name(platform@),
{
    if same_text(platform, "windows") {
        String::from_str("windows")
    } else if same_text(platform, "linux") {
        String::from_str("linux")
    } else if same_text(platform, "macos") {
        String::from_str("macos")
    } else {
        String::from_str("unknown")
    }
}

/// The sound server that a lower-cased `pactl info` tells of: PipeWire where the text
/// names it, PulseAudio otherwise, and none where the tool did not run.
pub open spec fn audio_system_of(lowered: Option<Seq<char>>) -> Seq<char> {
    match lowered {
        Some(info) => if contains_text(info, "pipewire"@) {
            "pipewire"@
        } else {
            "pulseaudio"@
        },
        None => "unknown"@,
    }
}

/// Names the sound server, given the lower-cased output of `pactl info`.
pub fn audio_system_from(lowered: Option<&str>) -> (system: String)
    ensures
        system@ == audio_system_of(optional_str(lowered)),
{
    match lowered {
        Some(info) => {
            let text = chars_of(info);
            let needle = chars_of("pipewire");
            if contains(text.as_slice(), needle.as_slice()) {
                String::from_str("pipewire")
            } else {
                String::from_str("pulseaudio")
            }
        },
        None => String::from_str("unknown"),
    }
}

/// The lower-case form of an optional text.
pub open spec fn lowered_of(info: Option<Seq<char>>) -> Option<Seq<char>> {
    match info {
        Some(text) => Some(lowercase_of(text)),
        None => None,
    }
}

/// Names the sound server, given the output of `pactl info` where it ran.
pub fn detect_audio_system(info: Option<&str>) -> (system: String)
    ensures
        system@ == audio_system_of(lowered_of(optional_str(info))),
{
    match info {
        Some(text) => {
            let lowered = to_lowercase(text);
            audio_system_from(Some(lowered.as_str()))
        },
        None => audio_system_from(None),
    }
}

/// What to do on a Mac.
pub open spec fn macos_instructions() -> Seq<Seq<char>> {
    seq![
        "macOS no tiene captura de salida nativa."@,
        ""@,
        "Opciones recomendadas:"@,
        ""@,
        "1. BlackHole (GRATIS):"@,
        "   https://github.com/ExistentialAudio/BlackHole"@,
        "   • Descarga e instala BlackHole 2ch"@,
        "   • Crea un dispositivo agregado en Audio MIDI Setup"@,
        ""@,
        "2. Loopback by Rogue Amoeba (PAGO):"@,
        "   https://rogueamoeba.com/loopback/"@,
    ]
}

/// The state of a Mac: it always needs more software.
pub open spec fn macos_loopback() -> LoopbackModel {
    LoopbackModel {
        status: LoopbackStatus::RequiresSetup,
        message: "⚠️ macOS requiere software adicional"@,
        instructions: macos_instructions(),
        loopback_devices: Seq::<DeviceModel>::empty(),
    }
}

/// Says what a Mac needs to record its output.
pub fn check_macos_loopback() -> (info: LoopbackInfo)
    ensures
        info@ == macos_loopback(),
{
    let instructions = owned(
        vec![
            "macOS no tiene captura de salida nativa.",
            "",
            "Opciones recomendadas:",
            "",
            "1. BlackHole (GRATIS):",
            "   https://github.com/ExistentialAudio/BlackHole",
            "   • Descarga e instala BlackHole 2ch",
            "   • Crea un dispositivo agregado en Audio MIDI Setup",
            "",
            "2. Loopback by Rogue Amoeba (PAGO):",
            "   https://rogueamoeba.com/loopback/",
        ],
    );
    let loopback_devices: Vec<DeviceInfo> = Vec::new();
    assert(instructions.deep_view() =~= macos_instructions());
    assert(loopback_devices.deep_view() =~= Seq::<DeviceModel>::empty());
    LoopbackInfo {
        status: LoopbackStatus::RequiresSetup,
        message: String::from_str("⚠️ macOS requiere software adicional"),
        instructions,
        loopback_devices,
    }
}

/// What to do on Windows once a stereo mix is there.
pub open spec fn windows_ready_instructions() -> Seq<Seq<char>> {
    seq![
        "El dispositivo está disponible como INPUT."@,
        "Busca 'Stereo Mix' o 'Mezcla estéreo' en dispositivos de Entrada."@,
    ]
}

/// How to switch the stereo mix on.
pub open spec fn windows_setup_instructions() -> Seq<Seq<char>> {
    seq![
        "1. Click derecho en el icono de volumen (barra de tareas)"@,
        "2. Selecciona 'Configuración de sonido'"@,
        "3. Baja y click en 'Más opciones de sonido'"@,
        "4. Ve a la pestaña 'Grabación'"@,
        "5. Click derecho → 'Mostrar dispositivos deshabilitados'"@,
        "6. Busca 'Mezcla estéreo' o 'Stereo Mix'"@,
        "7. Click derecho → 'Habilitar'"@,
    ]
}

/// The identifier of the stereo mix that was only detected, not listed.
pub const DETECTED_STEREO_MIX_ID: usize = 999;

/// The state of a Windows system, given what the query for a stereo mix printed: a
/// non-empty answer means that there is one.
pub open spec fn windows_loopback(listing: Option<Seq<char>>) -> LoopbackModel {
    if listing is Some && listing->0.len() > 0 {
        LoopbackModel {
            status: LoopbackStatus::Available,
            message: "✅ Dispositivo de captura de salida detectado"@,
            instructions: windows_ready_instructions(),
            loopback_devices: seq![
                DeviceModel {
                    id: DETECTED_STEREO_MIX_ID as nat,
                    name: "Stereo Mix (detectado)"@,
                    technical_name: None,
                },
            ],
        }
    } else {
        LoopbackModel {
            status: LoopbackStatus::NeedsConfiguration,
            message: "⚠️ Necesita habilitar 'Mezcla estéreo' en Windows"@,
            instructions: windows_setup_instructions(),
            loopback_devices: Seq::<DeviceModel>::empty(),
        }
    }
}

/// Says whether Windows can record its output, given what the query for a stereo mix
/// printed, if it ran.
pub fn check_windows_loopback(listing: Option<&str>) -> (info: LoopbackInfo)
    ensures
        info@ == windows_loopback(optional_str(listing)),
{
    let has_stereo_mix = match listing {
        Some(text) => text.unicode_len() > 0,
        None => false,
    };
    let mut loopback_devices: Vec<DeviceInfo> = Vec::new();
    if has_stereo_mix {
        let device = DeviceInfo {
            id: DETECTED_STEREO_MIX_ID,
            name: String::from_str("Stereo Mix (detectado)"),
            technical_name: None,
        };
        loopback_devices.push(device);
        let instructions = owned(
            vec![
                "El dispositivo está disponible como INPUT.",
                "Busca 'Stereo Mix' o 'Mezcla estéreo' en dispositivos de Entrada.",
            ],
        );
        assert(instructions.deep_view() =~= windows_ready_instructions());
        assert(loopback_devices.deep_view() =~= seq![device@]);
        LoopbackInfo {
            status: LoopbackStatus::Available,
            message: String::from_str("✅ Dispositivo de captura de salida detectado"),
            instructions,
            loopback_devices,
        }
    } else {
        let instructions = owned(
            vec![
                "1. Click derecho en el icono de volumen (barra de tareas)",
                "2. Selecciona 'Configuración de sonido'",
                "3. Baja y click en 'Más opciones de sonido'",
                "4. Ve a la pestaña 'Grabación'",
                "5. Click derecho → 'Mostrar dispositivos deshabilitados'",
                "6. Busca 'Mezcla estéreo' o 'Stereo Mix'",
                "7. Click derecho → 'Habilitar'",
            ],
        );
        assert(instructions.deep_view() =~= windows_setup_instructions());
        assert(loopback_devices.deep_view() =~= Seq::<DeviceModel>::empty());
        LoopbackInfo {
            status: LoopbackStatus::NeedsConfiguration,
            message: String::from_str("⚠️ Necesita habilitar 'Mezcla estéreo' en Windows"),
            instructions,
            loopback_devices,
        }
    }
}

/// The name to show for a sound server.
pub open spec fn server_label(system: Seq<char>) -> Seq<char> {
    if system == "pipewire"@ {
        "PipeWire"@
    } else {
        "PulseAudio"@
    }
}

/// What to tell when monitors were found.
pub open spec fn linux_ready_instructions() -> Seq<Seq<char>> {
    seq![
        "Dispositivos monitor disponibles (capturan audio de salida)."@,
        ""@,
        "Los dispositivos 'Monitor' capturan lo que suena en tu sistema."@,
        "Úsalos en la configuración como fuentes de SALIDA."@,
    ]
}

/// What to do when no monitor was found.
pub open spec fn linux_setup_instructions() -> Seq<Seq<char>> {
    seq![
        "Los dispositivos monitor permiten capturar audio de salida."@,
        ""@,
        "SOLUCIÓN:"@,
        "1. Abre el control de volumen de PulseAudio/PipeWire"@,
        "2. Ve a la pestaña 'Dispositivos de entrada'"@,
        "3. Deberías ver dispositivos con 'Monitor' en el nombre"@,
        ""@,
        "Si no aparecen, verifica que tu tarjeta de audio esté activa:"@,
        "  pactl list sinks short"@,
    ]
}

/// The state of a Linux system with the sound server `system` and the monitors
/// `devices`.
pub open spec fn linux_loopback(system: Seq<char>, devices: Seq<DeviceModel>) -> LoopbackModel {
    if devices.len() > 0 {
        LoopbackModel {
            status: LoopbackStatus::Available,
            message: "✅ "@ + server_label(system) + " - "@ + decimal(devices.len())
                + " dispositivos monitor detectados"@,
            instructions: linux_ready_instructions(),
            loopback_devices: devices,
        }
    } else {
        LoopbackModel {
            status: LoopbackStatus::RequiresSetup,
            message: "⚠️ "@ + server_label(system) + ": No se detectan dispositivos monitor"@,
            instructions: linux_setup_instructions(),
            loopback_devices: Seq::<DeviceModel>::empty(),
        }
    }
}

/// Says whether a Linux system can record its output, given the name of its sound
/// server and its monitors.
pub fn linux_loopback_info(system: &str, devices: Vec<DeviceInfo>) -> (info: LoopbackInfo)
    ensures
        info@ == linux_loopback(system@, devices.deep_view()),
{
    let label = if same_text(system, "pipewire") {
        "PipeWire"
    } else {
        "PulseAudio"
    };
    if devices.len() > 0 {
        let mut message = String::from_str("✅ ");
        message.append(label);
        message.append(" - ");
        push_decimal(&mut message, devices.len() as u64);
        message.append(" dispositivos monitor detectados");
        let instructions = owned(
            vec![
                "Dispositivos monitor disponibles (capturan audio de salida).",
                "",
                "Los dispositivos 'Monitor' capturan lo que suena en tu sistema.",
                "Úsalos en la configuración como fuentes de SALIDA.",
            ],
        );
        assert(instructions.deep_view() =~= linux_ready_instructions());
        LoopbackInfo {
            status: LoopbackStatus::Available,
            message,
            instructions,
            loopback_devices: devices,
        }
    } else {
        let mut message = String::from_str("⚠️ ");
        message.append(label);
        message.append(": No se detectan dispositivos monitor");
        let instructions = owned(
            vec![
                "Los dispositivos monitor permiten capturar audio de salida.",
                "",
                "SOLUCIÓN:",
                "1. Abre el control de volumen de PulseAudio/PipeWire",
                "2. Ve a la pestaña 'Dispositivos de entrada'",
                "3. Deberías ver dispositivos con 'Monitor' en el nombre",
                "",
                "Si no aparecen, verifica que tu tarjeta de audio esté activa:",
                "  pactl list sinks short",
            ],
        );
        assert(instructions.deep_view() =~= linux_setup_instructions());
        let loopback_devices: Vec<DeviceInfo> = Vec::new();
        assert(loopback_devices.deep_view() =~= Seq::<DeviceModel>::empty());
        LoopbackInfo {
            status: LoopbackStatus::RequiresSetup,
            message,
            instructions,
            loopback_devices,
        }
    }
}

/// The monitors of a Linux system, read from the listings of its sound server.
pub fn get_linux_loopback_devices(short: Option<&str>, full: Option<&str>) -> (devices: Vec<
    DeviceInfo,
>)
    ensures
        devices.deep_view() == sources_of(optional_str(short), optional_str(full), true),
{
    list_sources(short, full, true)
}

/// Says whether a Linux system can record its output, given what its sound server's
/// tool printed.
pub fn check_linux_loopback(probe: &AudioProbe) -> (info: LoopbackInfo)
    ensures
        info@ == linux_loopback(
            audio_system_of(lowered_of(optional_text(probe.server_info))),
            sources_of(
                optional_text(probe.sources_short),
                optional_text(probe.sources_full),
                true,
            ),
        ),
{
    let system = detect_audio_system(as_optional_str(&probe.server_info));
    let devices = get_linux_loopback_devices(
        as_optional_str(&probe.sources_short),
        as_optional_str(&probe.sources_full),
    );
    linux_loopback_info(system.as_str(), devices)
}

/// The devices that a list of names stands for: one for each line, numbered by its
/// line, under the trimmed line as its name.
pub open spec fn named_devices(lines: Seq<Seq<char>>) -> Seq<DeviceModel> {
    Seq::new(
        lines.len(),
        |i: int| DeviceModel { id: i as nat, name: trimmed(lines[i]), technical_name: None },
    )
}

/// The stereo-mix devices of a Windows system, given their names, one on each line,
/// where the query ran.
pub open spec fn windows_devices(names: Option<Seq<char>>) -> Seq<DeviceModel> {
    match names {
        Some(text) => named_devices(lines_of(text)),
        None => Seq::<DeviceModel>::empty(),
    }
}

/// Reads the stereo-mix devices of a Windows system from the list of their names.
pub fn get_windows_loopback_devices(names: Option<&str>) -> (devices: Vec<DeviceInfo>)
    ensures
        devices.deep_view() == windows_devices(optional_str(names)),
{
    let mut devices: Vec<DeviceInfo> = Vec::new();
    let text = match names {
        Some(text) => chars_of(text),
        None => {
            assert(devices.deep_view() =~= Seq::<DeviceModel>::empty());
            return devices;
        },
    };
    let all = lines(text.as_slice());
    let mut i: usize = 0;
    while i < all.len()
        invariant
            i <= all.len(),
            devices.len() == i,
            rows(all@) == lines_of(text@),
            forall|k: int| 0 <= k < i ==> (#[trigger] devices[k])@ == named_devices(rows(all@))[k],
        decreases all.len() - i,
    {
        let line = &all[i];
        let (a, b) = trim_bounds(line, 0, line.len());
        assert(line@.subrange(0, line.len() as int) =~= line@);
        assert(rows(all@)[i as int] == line@);
        devices.push(DeviceInfo { id: i, name: string_of(line, a, b), technical_name: None });
        i += 1;
    }
    assert(devices.deep_view() =~= named_devices(rows(all@)));
    devices
}

/// The loopback devices of a Mac: there are none.
pub fn get_macos_loopback_devices() -> (devices: Vec<DeviceInfo>)
    ensures
        devices.deep_view() == Seq::<DeviceModel>::empty(),
{
    let devices: Vec<DeviceInfo> = Vec::new();
    assert(devices.deep_view() =~= Seq::<DeviceModel>::empty());
    devices
}

/// What holds of an unsupported system.
pub open spec fn unsupported_loopback() -> LoopbackModel {
    LoopbackModel {
        status: LoopbackStatus::Unsupported,
        message: "Sistema operativo no soportado"@,
        instructions: Seq::<Seq<char>>::empty(),
        loopback_devices: Seq::<DeviceModel>::empty(),
    }
}

/// The state of the system `os`, given what its tools printed.
pub open spec fn loopback_status(
    os: Seq<char>,
    server_info: Option<Seq<char>>,
    sources_short: Option<Seq<char>>,
    sources_full: Option<Seq<char>>,
    stereo_mix: Option<Seq<char>>,
) -> LoopbackModel {
    if os == "windows"@ {
        windows_loopback(stereo_mix)
    } else if os == "linux"@ {
        linux_loopback(
            audio_system_of(lowered_of(server_info)),
            sources_of(sources_short, sources_full, true),
        )
    } else if os == "macos"@ {
        macos_loopback()
    } else {
        unsupported_loopback()
    }
}

/// Says whether the system `os` can record its own output, and how to make it, given
/// what its tools printed.
pub fn check_loopback_status(os: &str, probe: &AudioProbe) -> (info: LoopbackInfo)
    ensures
        info@ == loopback_status(
            os@,
            optional_text(probe.server_info),
            optional_text(probe.sources_short),
            optional_text(probe.sources_full),
            optional_text(probe.stereo_mix),
        ),
{
    if same_text(os, "windows") {
        check_windows_loopback(as_optional_str(&probe.stereo_mix))
    } else if same_text(os, "linux") {
        check_linux_loopback(probe)
    } else if same_text(os, "macos") {
        check_macos_loopback()
    } else {
        let instructions: Vec<String> = Vec::new();
        let loopback_devices: Vec<DeviceInfo> = Vec::new();
        assert(instructions.deep_view() =~= Seq::<Seq<char>>::empty());
        assert(loopback_devices.deep_view() =~= Seq::<DeviceModel>::empty());
        LoopbackInfo {
            status: LoopbackStatus::Unsupported,
            message: String::from_str("Sistema operativo no soportado"),
            instructions,
            loopback_devices,
        }
    }
}

/// The loopback devices of the system `os`.
pub open spec fn loopback_devices(
    os: Seq<char>,
    sources_short: Option<Seq<char>>,
    sources_full: Option<Seq<char>>,
    stereo_mix_names: Option<Seq<char>>,
) -> Seq<DeviceModel> {
    if os == "linux"@ {
        sources_of(sources_short, sources_full, true)
    } else if os == "windows"@ {
        windows_devices(stereo_mix_names)
    } else {
        Seq::<DeviceModel>::empty()
    }
}

/// Lists the devices that record the output of the system `os`, given what its tools
/// printed.
pub fn get_loopback_devices(os: &str, probe: &AudioProbe) -> (devices: Vec<DeviceInfo>)
    ensures
        devices.deep_view() == loopback_devices(
            os@,
            optional_text(probe.sources_short),
            optional_text(probe.sources_full),
            optional_text(probe.stereo_mix_names),
        ),
{
    if same_text(os, "linux") {
        get_linux_loopback_devices(
            as_optional_str(&probe.sources_short),
            as_optional_str(&probe.sources_full),
        )
    } else if same_text(os, "windows") {
        get_windows_loopback_devices(as_optional_str(&probe.stereo_mix_names))
    } else if same_text(os, "macos") {
        get_macos_loopback_devices()
    } else {
        let devices: Vec<DeviceInfo> = Vec::new();
        assert(devices.deep_view() =~= Seq::<DeviceModel>::empty());
        devices
    }
}

} // verus!
