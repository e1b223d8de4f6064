use transcriptor::data::DeviceInfo;
use transcriptor::devices::{
    as_optional_str, get_available_devices, get_linux_input_devices, list_sources, AudioProbe,
};

const SHORT: &str = "56\talsa_output.pci-0000_00_1f.3.analog-stereo.monitor\tPipeWire\ts32le 2ch 48000Hz\tSUSPENDED\n57\talsa_input.pci-0000_00_1f.3.analog-stereo\tPipeWire\ts32le 2ch 48000Hz\tSUSPENDED\n58\talsa_input.usb-C-Media_USB_Audio-00.mono-fallback\tPipeWire\ts16le 1ch 48000Hz\tRUNNING\n\nbroken\n59\tbluez_input.AA_BB\tPipeWire\ts16le 1ch 16000Hz\tIDLE\n";

const FULL: &str = "Source #56\n\tState: SUSPENDED\n\tName: alsa_output.pci-0000_00_1f.3.analog-stereo.monitor\n\tDescription: Monitor of Built-in Audio Analog Stereo\n\tDriver: PipeWire\n\nSource #57\n\tState: SUSPENDED\n\tName: alsa_input.pci-0000_00_1f.3.analog-stereo\n\tDescription: Built-in Audio Analog Stereo\n\tDriver: PipeWire\n\nSource #58\n\tState: RUNNING\n\tName: alsa_input.usb-C-Media_USB_Audio-00.mono-fallback\n\tDriver: PipeWire\n";

fn device(id: usize, name: &str, technical: Option<&str>) -> DeviceInfo {
    DeviceInfo { id, name: name.to_string(), technical_name: technical.map(|t| t.to_string()) }
}

fn empty_probe() -> AudioProbe {
    AudioProbe {
        server_info: None,
        sources_short: None,
        sources_full: None,
        stereo_mix: None,
        stereo_mix_names: None,
    }
}

#[test]
fn inputs_are_the_alsa_inputs_that_are_no_monitors() {
    let devices = get_linux_input_devices(Some(SHORT), Some(FULL));
    assert_eq!(
        devices,
        vec![
            device(
                0,
                "Built-in Audio Analog Stereo",
                Some("alsa_input.pci-0000_00_1f.3.analog-stereo")
            ),
            device(
                1,
                "alsa_input.usb-C-Media_USB_Audio-00.mono-fallback",
                Some("alsa_input.usb-C-Media_USB_Audio-00.mono-fallback")
            ),
        ]
    );
}

#[test]
fn monitors_are_found_by_their_technical_name() {
    let devices = list_sources(Some(SHORT), Some(FULL), true);
    assert_eq!(
        devices,
        vec![device(
            0,
            "Monitor of Built-in Audio Analog Stereo",
            Some("alsa_output.pci-0000_00_1f.3.analog-stereo.monitor")
        )]
    );
    let named = list_sources(Some("1 My_Monitor x\n2 plain y\n3 z.monitor"), None, true);
    assert_eq!(
        named,
        vec![device(0, "My_Monitor", Some("My_Monitor")), device(1, "z.monitor", Some("z.monitor"))]
    );
}

#[test]
fn without_a_full_listing_the_technical_name_is_shown() {
    let devices = get_linux_input_devices(Some(SHORT), None);
    assert_eq!(devices.len(), 2);
    assert_eq!(devices[0].name, "alsa_input.pci-0000_00_1f.3.analog-stereo");
    assert_eq!(devices[1].id, 1);
}

#[test]
fn without_a_short_listing_there_are_no_sources() {
    assert_eq!(get_linux_input_devices(None, Some(FULL)), vec![]);
    assert_eq!(list_sources(None, None, true), vec![]);
    assert_eq!(list_sources(Some(""), Some(FULL), true), vec![]);
}

#[test]
fn a_line_needs_two_words() {
    let devices = list_sources(Some("alsa_input.only\n  \n7 alsa_input.two"), None, false);
    assert_eq!(devices, vec![device(0, "alsa_input.two", Some("alsa_input.two"))]);
}

#[test]
fn the_description_is_the_first_one_after_the_name() {
    let full = "Description: before\nName: alsa_input.x\nState: ok\n  Description:   First  one \nDescription: second\n";
    let devices = list_sources(Some("1 alsa_input.x"), Some(full), false);
    assert_eq!(devices, vec![device(0, "First  one", Some("alsa_input.x"))]);
}

#[test]
fn every_label_in_a_description_line_is_dropped() {
    let full = "Name: alsa_input.x\nDescription: A Description: B\n";
    let devices = list_sources(Some("1 alsa_input.x"), Some(full), false);
    assert_eq!(devices, vec![device(0, "A  B", Some("alsa_input.x"))]);
}

#[test]
fn a_name_line_that_is_also_a_description_only_marks_the_source() {
    let full = "Description: Name: alsa_input.x\nDescription: real\n";
    let devices = list_sources(Some("1 alsa_input.x"), Some(full), false);
    assert_eq!(devices, vec![device(0, "real", Some("alsa_input.x"))]);
}

#[test]
fn host_inputs_leave_monitors_out() {
    let names = vec![
        "Built-in Microphone".to_string(),
        "Monitor of Built-in Audio".to_string(),
        "alsa_output.pci.monitor".to_string(),
        "USB Mic".to_string(),
    ];
    let inputs = get_available_devices("windows", true, &names, &empty_probe());
    assert_eq!(inputs, vec![device(0, "Built-in Microphone", None), device(1, "USB Mic", None)]);
    let outputs = get_available_devices("windows", false, &names, &empty_probe());
    assert_eq!(outputs.len(), 4);
    assert_eq!(outputs[1], device(1, "Monitor of Built-in Audio", None));
    assert_eq!(outputs[3], device(3, "USB Mic", None));
}

#[test]
fn linux_inputs_come_from_the_sound_server() {
    let mut probe = empty_probe();
    probe.sources_short = Some(SHORT.to_string());
    probe.sources_full = Some(FULL.to_string());
    let names = vec!["default".to_string(), "pipewire".to_string()];
    let inputs = get_available_devices("linux", true, &names, &probe);
    assert_eq!(inputs, get_linux_input_devices(Some(SHORT), Some(FULL)));
    let outputs = get_available_devices("linux", false, &names, &probe);
    assert_eq!(outputs, vec![device(0, "default", None), device(1, "pipewire", None)]);
    let nothing = get_available_devices("linux", true, &names, &empty_probe());
    assert_eq!(nothing, vec![]);
}

#[test]
fn optional_strings_are_borrowed() {
    assert_eq!(as_optional_str(&Some("x".to_string())), Some("x"));
    assert_eq!(as_optional_str(&None), None);
}
