use transcriptor::data::{
    AudioMessage, DeviceInfo, InterlocutorProfile, SourceType, CHUNK_DURATION_SECS,
    WHISPER_SAMPLE_RATE,
};
use transcriptor::nav::View;
use transcriptor::system_audio::{check_macos_loopback, check_windows_loopback, LoopbackStatus};
use transcriptor::ui::{
    default_profile_name, CaptureCommand, SaveError, TranscriptorApp, DATE_PATTERN,
    STAMP_PATTERN,
};

fn ui_device(id: usize, name: &str, technical: Option<&str>) -> DeviceInfo {
    DeviceInfo { id, name: name.to_string(), technical_name: technical.map(|t| t.to_string()) }
}

fn two_inputs() -> Vec<DeviceInfo> {
    vec![ui_device(4, "Mic", Some("alsa_input.mic")), ui_device(7, "USB", Some("alsa_input.usb"))]
}

fn one_output() -> Vec<DeviceInfo> {
    vec![ui_device(2, "Monitor", Some("out.monitor"))]
}

fn app_with_devices() -> TranscriptorApp {
    TranscriptorApp::new(two_inputs(), one_output(), None)
}

#[test]
fn constants_of_the_engine() {
    assert_eq!(WHISPER_SAMPLE_RATE, 16000);
    assert_eq!(CHUNK_DURATION_SECS, 5);
}

#[test]
fn the_app_starts_with_one_profile_for_the_first_input() {
    let app = app_with_devices();
    assert_eq!(app.current_view, View::Transcription);
    assert_eq!(app.transcription, "El texto transcrito aparecerá aquí.\n");
    assert_eq!(app.status_message, "Presiona 'Iniciar Captura' para comenzar.");
    assert_eq!(app.model_name, "large-v3");
    assert_eq!(app.output_dir, "./minutas");
    assert!(!app.is_running);
    assert!(!app.show_loopback_setup);
    assert!(app.loopback_info.is_none());
    assert_eq!(
        app.interlocutors,
        vec![InterlocutorProfile {
            id: 0,
            device_id: 4,
            source_type: SourceType::Input,
            name: "Interlocutor 0".to_string(),
            is_active: true,
            technical_name: Some("alsa_input.mic".to_string()),
            target_sample_rate: 16000,
            chunk_duration_secs: 5,
        }]
    );
}

#[test]
fn without_devices_the_app_starts_empty_and_shows_the_report() {
    let app = TranscriptorApp::new(vec![], vec![], Some(check_macos_loopback()));
    assert!(app.interlocutors.is_empty());
    assert!(app.show_loopback_setup);
    assert_eq!(app.loopback_info.map(|i| i.status), Some(LoopbackStatus::RequiresSetup));
    let quiet = TranscriptorApp::new(vec![], vec![], Some(check_windows_loopback(Some("x"))));
    assert!(!quiet.show_loopback_setup);
    assert!(quiet.loopback_info.is_none());
    let with_output = TranscriptorApp::new(vec![], one_output(), Some(check_macos_loopback()));
    assert!(!with_output.show_loopback_setup);
    assert!(with_output.loopback_info.is_none());
}

#[test]
fn a_report_is_shown_only_if_it_asks_for_something() {
    let mut app = app_with_devices();
    app.check_and_prompt_loopback(check_windows_loopback(Some("Stereo Mix")));
    assert!(!app.show_loopback_setup);
    assert!(app.loopback_info.is_none());
    app.check_and_prompt_loopback(check_windows_loopback(None));
    assert!(app.show_loopback_setup);
    assert_eq!(
        app.loopback_info.as_ref().map(|i| i.status),
        Some(LoopbackStatus::NeedsConfiguration)
    );
    app.close_loopback_setup();
    assert!(!app.show_loopback_setup);
    app.open_loopback_setup(None);
    assert!(app.show_loopback_setup);
    assert!(app.loopback_info.is_none());
}

#[test]
fn new_profiles_take_the_next_number_and_the_first_device() {
    let mut app = app_with_devices();
    app.add_new_profile(SourceType::Output);
    app.add_new_profile(SourceType::Input);
    assert_eq!(app.interlocutors.len(), 3);
    assert_eq!(app.interlocutors[1].id, 1);
    assert_eq!(app.interlocutors[1].device_id, 2);
    assert_eq!(app.interlocutors[1].source_type, SourceType::Output);
    assert_eq!(app.interlocutors[1].name, "Interlocutor 1");
    assert_eq!(app.interlocutors[1].technical_name, Some("out.monitor".to_string()));
    assert!(app.interlocutors[1].is_active);
    assert_eq!(app.interlocutors[2].id, 2);
    assert_eq!(app.interlocutors[2].device_id, 4);
    assert_eq!(app.interlocutors[2].name, "Interlocutor 2");
}

#[test]
fn a_profile_without_a_device_points_at_device_zero() {
    let mut app = TranscriptorApp::new(vec![], vec![], None);
    app.add_new_profile(SourceType::Output);
    assert_eq!(app.interlocutors[0].device_id, 0);
    assert_eq!(app.interlocutors[0].technical_name, None);
    assert_eq!(app.interlocutors[0].target_sample_rate, 16000);
    assert_eq!(app.interlocutors[0].chunk_duration_secs, 5);
}

#[test]
fn removing_a_profile_renumbers_the_rest() {
    let mut app = app_with_devices();
    app.add_new_profile(SourceType::Output);
    app.add_new_profile(SourceType::Input);
    app.interlocutors[2].name = "Marta".to_string();
    app.interlocutors[2].is_active = false;
    app.remove_profile(0);
    assert_eq!(app.interlocutors.len(), 2);
    assert_eq!(app.interlocutors[0].id, 0);
    assert_eq!(app.interlocutors[0].name, "Interlocutor 0");
    assert_eq!(app.interlocutors[0].source_type, SourceType::Output);
    assert_eq!(app.interlocutors[0].device_id, 2);
    assert_eq!(app.interlocutors[1].id, 1);
    assert_eq!(app.interlocutors[1].name, "Interlocutor 1");
    assert_eq!(app.interlocutors[1].source_type, SourceType::Input);
    assert!(!app.interlocutors[1].is_active);
    app.remove_profile(1);
    assert_eq!(app.interlocutors.len(), 1);
    assert_eq!(app.interlocutors[0].source_type, SourceType::Output);
}

#[test]
fn removing_past_the_end_changes_nothing() {
    let mut app = app_with_devices();
    app.interlocutors[0].name = "Marta".to_string();
    app.remove_profile(1);
    app.remove_profile(usize::MAX);
    assert_eq!(app.interlocutors.len(), 1);
    assert_eq!(app.interlocutors[0].name, "Marta");
}

#[test]
fn default_names_count_from_the_identifier() {
    assert_eq!(default_profile_name(0), "Interlocutor 0");
    assert_eq!(default_profile_name(12), "Interlocutor 12");
}

#[test]
fn device_names_are_looked_up_by_identifier() {
    let inputs = two_inputs();
    let outputs = one_output();
    assert_eq!(
        TranscriptorApp::get_device_name_static(&inputs, &outputs, SourceType::Input, 7),
        "USB"
    );
    assert_eq!(
        TranscriptorApp::get_device_name_static(&inputs, &outputs, SourceType::Output, 2),
        "Monitor"
    );
    assert_eq!(
        TranscriptorApp::get_device_name_static(&inputs, &outputs, SourceType::Output, 7),
        "Dispositivo no encontrado"
    );
    assert_eq!(
        TranscriptorApp::get_device_name_static(&[], &[], SourceType::Input, 0),
        "Dispositivo no encontrado"
    );
    let twice = vec![ui_device(1, "first", None), ui_device(1, "second", None)];
    assert_eq!(
        TranscriptorApp::get_device_name_static(&twice, &[], SourceType::Input, 1),
        "first"
    );
}

#[test]
fn selecting_a_device_sets_identifier_and_technical_name() {
    let mut app = app_with_devices();
    app.select_device(0, 1);
    assert_eq!(app.interlocutors[0].device_id, 7);
    assert_eq!(app.interlocutors[0].technical_name, Some("alsa_input.usb".to_string()));
    assert_eq!(app.interlocutors[0].name, "Interlocutor 0");
    app.select_device(0, 2);
    app.select_device(1, 0);
    assert_eq!(app.interlocutors[0].device_id, 7);
    assert_eq!(app.interlocutors.len(), 1);
}

#[test]
fn messages_update_the_status_and_the_transcript() {
    let mut app = app_with_devices();
    app.clear_transcription();
    app.receive(AudioMessage::Status("Verificando modelo...".to_string()));
    assert_eq!(app.status_message, "Verificando modelo...");
    app.receive(AudioMessage::Transcription {
        text: "hola a todos".to_string(),
        name: "Ana".to_string(),
    });
    app.receive(AudioMessage::Transcription { text: "  \n".to_string(), name: "Ana".to_string() });
    app.receive(AudioMessage::Transcription {
        text: " buenas ".to_string(),
        name: "Luis".to_string(),
    });
    assert_eq!(app.transcription, "(Ana) hola a todos\n(Luis)  buenas \n");
    assert_eq!(app.status_message, "Verificando modelo...");
    app.receive(AudioMessage::Error("Error en Ana: sin modelo".to_string()));
    assert_eq!(app.status_message, "❌ Error: Error en Ana: sin modelo");
}

#[test]
fn capture_starts_with_the_active_profiles() {
    let mut app = app_with_devices();
    app.add_new_profile(SourceType::Output);
    app.add_new_profile(SourceType::Input);
    app.interlocutors[1].is_active = false;
    assert!(app.can_toggle_capture());
    let command = app.toggle_capture();
    match command {
        CaptureCommand::Start(active) => {
            assert_eq!(active.len(), 2);
            assert_eq!(active[0].id, 0);
            assert_eq!(active[1].id, 2);
        }
        _ => panic!("capture did not start"),
    }
    assert!(app.is_running);
    assert_eq!(app.transcription, "");
    assert_eq!(app.status_message, "Iniciando 2 fuentes de audio...");
    assert!(app.can_toggle_capture());
}

#[test]
fn capture_does_not_start_without_an_active_profile() {
    let mut app = app_with_devices();
    app.interlocutors[0].is_active = false;
    assert_eq!(app.toggle_capture(), CaptureCommand::Nothing);
    assert!(!app.is_running);
    assert_eq!(
        app.status_message,
        "❌ Error: Active al menos un interlocutor en Configuración."
    );
    assert_eq!(app.transcription, "El texto transcrito aparecerá aquí.\n");
    assert_eq!(app.start_audio_capture(), None);
    assert_eq!(
        app.status_message,
        "❌ Error: Debe añadir y activar al menos una fuente de audio."
    );
    let mut empty = TranscriptorApp::new(vec![], vec![], None);
    assert!(!empty.can_toggle_capture());
    assert_eq!(empty.start_audio_capture(), None);
}

#[test]
fn pressing_the_button_while_running_stops() {
    let mut app = app_with_devices();
    assert!(matches!(app.toggle_capture(), CaptureCommand::Start(_)));
    app.receive(AudioMessage::Transcription { text: "hola".to_string(), name: "Ana".to_string() });
    assert_eq!(app.toggle_capture(), CaptureCommand::Stop);
    assert!(!app.is_running);
    assert_eq!(app.status_message, "Captura detenida. Guardando minuta...");
    assert_eq!(app.transcription, "(Ana) hola\n");
    app.transcript_saved("./minutas/Interlocutor_0_20240102_030405.md");
    assert_eq!(
        app.status_message,
        "✅ Minuta guardada en: ./minutas/Interlocutor_0_20240102_030405.md"
    );
    app.transcript_not_saved("permiso denegado");
    assert_eq!(app.status_message, "❌ Error al guardar minuta: permiso denegado");
}

#[test]
fn an_output_profile_needs_an_output_device() {
    let mut app = TranscriptorApp::new(two_inputs(), vec![], None);
    app.add_output_profile(Some(check_macos_loopback()));
    assert_eq!(app.interlocutors.len(), 1);
    assert_eq!(app.status_message, "⚠️ Configure dispositivos loopback primero");
    assert!(app.show_loopback_setup);
    assert!(app.loopback_info.is_some());
    assert_eq!(app.loopback_summary(), "⚠️ Sin dispositivos de salida");

    let mut ready = app_with_devices();
    ready.add_output_profile(None);
    assert_eq!(ready.interlocutors.len(), 2);
    assert_eq!(ready.interlocutors[1].source_type, SourceType::Output);
    assert!(!ready.show_loopback_setup);
    assert_eq!(ready.loopback_summary(), "✅ 1 dispositivos loopback");
}

#[test]
fn a_refresh_with_loopback_devices_closes_the_report() {
    let mut app = TranscriptorApp::new(two_inputs(), vec![], Some(check_macos_loopback()));
    assert!(app.show_loopback_setup);
    app.refresh_devices(vec![], vec![]);
    assert!(app.show_loopback_setup);
    assert_eq!(app.status_message, "⚠️ No se detectaron dispositivos loopback");
    assert!(app.all_input_devices.is_empty());
    app.refresh_devices(two_inputs(), one_output());
    assert!(!app.show_loopback_setup);
    assert_eq!(app.status_message, "✅ 1 dispositivos loopback detectados");
    assert_eq!(app.all_input_devices.len(), 2);
    assert_eq!(app.all_output_devices.len(), 1);
}

#[test]
fn the_transcript_file_is_named_after_the_active_profiles() {
    let mut app = app_with_devices();
    app.add_new_profile(SourceType::Output);
    app.add_new_profile(SourceType::Input);
    app.interlocutors[1].is_active = false;
    app.interlocutors[2].name = "Ana  María".to_string();
    app.clear_transcription();
    app.receive(AudioMessage::Transcription { text: "hola".to_string(), name: "Ana".to_string() });
    let plan = app.save_plan_at("20240102_030405", "02-01-2024 03:04:05").ok().expect("a plan");
    assert_eq!(plan.file_name, "Interlocutor_0_Ana__María_20240102_030405.md");
    assert_eq!(
        plan.content,
        "# Minuta de Transcripción\n\nFecha: 02-01-2024 03:04:05\n\n---\n\n(Ana) hola\n"
    );
}

#[test]
fn the_file_name_without_active_profiles_is_the_stamp() {
    let mut app = app_with_devices();
    app.interlocutors[0].is_active = false;
    let plan = app.save_plan_at("S", "D").ok().expect("a plan");
    assert_eq!(plan.file_name, "_S.md");
    assert_eq!(
        plan.content,
        "# Minuta de Transcripción\n\nFecha: D\n\n---\n\nEl texto transcrito aparecerá aquí.\n"
    );
}

#[test]
fn a_blank_transcript_is_not_saved() {
    let mut app = app_with_devices();
    app.clear_transcription();
    assert_eq!(app.save_plan_at("S", "D").err(), Some(SaveError::EmptyTranscript));
    assert_eq!(app.save_transcript().err(), Some(SaveError::EmptyTranscript));
    app.transcription = " \n\t ".to_string();
    assert_eq!(app.save_transcript().err(), Some(SaveError::EmptyTranscript));
    assert_eq!(SaveError::EmptyTranscript.message(), "No hay transcripción para guardar.");
}

#[test]
fn saving_now_stamps_the_file_with_the_local_time() {
    assert_eq!(STAMP_PATTERN, "%Y%m%d_%H%M%S");
    assert_eq!(DATE_PATTERN, "%d-%m-%Y %H:%M:%S");
    let app = app_with_devices();
    let plan = app.save_transcript().ok().expect("a plan");
    let name = plan.file_name;
    assert!(name.starts_with("Interlocutor_0_"));
    assert!(name.ends_with(".md"));
    let stamp = &name["Interlocutor_0_".len()..name.len() - 3];
    assert_eq!(stamp.len(), 15);
    for (i, c) in stamp.chars().enumerate() {
        if i == 8 {
            assert_eq!(c, '_');
        } else {
            assert!(c.is_ascii_digit(), "{:?}", stamp);
        }
    }
    let head = "# Minuta de Transcripción\n\nFecha: ";
    assert!(plan.content.starts_with(head));
    let date = &plan.content[head.len()..head.len() + 19];
    let shape: Vec<bool> = date.chars().map(|c| c.is_ascii_digit()).collect();
    assert_eq!(shape.iter().filter(|d| **d).count(), 14);
    assert_eq!(&date[2..3], "-");
    assert_eq!(&date[5..6], "-");
    assert_eq!(&date[10..11], " ");
    assert_eq!(&date[13..14], ":");
    assert_eq!(&date[16..17], ":");
    assert!(plan.content.ends_with("\n\n---\n\nEl texto transcrito aparecerá aquí.\n"));
}
