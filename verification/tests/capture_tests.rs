use transcriptor::capture::{
    capture_backend, device_not_found, recorder_arguments, resolve_recorder_device,
    CaptureBackend, READ_BUFFER_BYTES,
};
use transcriptor::data::SourceType;
use transcriptor::model::{
    download_failure, model_file_name, model_url, DownloadProgress, MODELS_DIR, MODEL_BASE_URL,
};

#[test]
fn linux_records_with_the_recorder() {
    assert_eq!(capture_backend("linux"), CaptureBackend::Recorder);
    assert_eq!(capture_backend("windows"), CaptureBackend::Host);
    assert_eq!(capture_backend("macos"), CaptureBackend::Host);
    assert_eq!(capture_backend("unknown"), CaptureBackend::Host);
    assert_eq!(READ_BUFFER_BYTES, 4096);
}

#[test]
fn the_recorder_device_must_be_listed() {
    let sources = "57\talsa_input.usb\tPipeWire\n58\tx.monitor\tPipeWire\n";
    assert_eq!(
        resolve_recorder_device(Some("alsa_input.usb"), sources),
        Ok("alsa_input.usb".to_string())
    );
    assert_eq!(
        resolve_recorder_device(Some("alsa_input.gone"), sources),
        Err(format!(
            "Dispositivo 'alsa_input.gone' no encontrado.\n\nDispositivos disponibles:\n{}",
            sources
        ))
    );
    assert_eq!(
        resolve_recorder_device(None, sources),
        Err("Dispositivo sin nombre técnico. Recarga la aplicación.".to_string())
    );
}

#[test]
fn the_recorder_delivers_what_the_engine_takes() {
    assert_eq!(
        recorder_arguments("x.monitor"),
        vec![
            "--device", "x.monitor", "--rate", "16000", "--channels", "1", "--format", "s16le",
            "--raw"
        ]
    );
}

#[test]
fn a_missing_host_device_is_named_by_kind_and_number() {
    assert_eq!(device_not_found(SourceType::Input, 3), "Input 3 no encontrado");
    assert_eq!(device_not_found(SourceType::Output, 10), "Output 10 no encontrado");
}

#[test]
fn the_model_file_and_its_address() {
    assert_eq!(MODELS_DIR, "models");
    assert_eq!(model_file_name("large-v3"), "ggml-large-v3.bin");
    assert_eq!(model_file_name("medium"), "ggml-medium.bin");
    assert_eq!(
        model_url("large-v3"),
        "https://huggingface.co/ggerganov/whisper.cpp/resolve/main/ggml-large-v3.bin"
    );
    assert!(model_url("").starts_with(MODEL_BASE_URL));
    assert_eq!(download_failure("404 Not Found"), "Error al descargar: HTTP 404 Not Found");
}

#[test]
fn download_progress_counts_bytes() {
    let mut progress = DownloadProgress::new(3_100_000_000);
    assert!(progress.has_share());
    assert_eq!(progress.megabytes(), (0, 3100));
    progress.advance(999_999);
    assert_eq!(progress.megabytes(), (0, 3100));
    progress.advance(1);
    assert_eq!(progress.downloaded, 1_000_000);
    assert_eq!(progress.megabytes(), (1, 3100));
    let unknown = DownloadProgress::new(0);
    assert!(!unknown.has_share());
}

#[test]
fn download_progress_stops_at_the_largest_count() {
    let mut progress = DownloadProgress { downloaded: u64::MAX - 5, total: 0 };
    progress.advance(5);
    assert_eq!(progress.downloaded, u64::MAX);
    let mut full = DownloadProgress { downloaded: u64::MAX - 5, total: 7 };
    full.advance(6);
    assert_eq!(full.downloaded, u64::MAX);
    assert_eq!(full.total, 7);
}
