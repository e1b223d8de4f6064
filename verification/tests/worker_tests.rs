use transcriptor::data::{
    AudioMessage, InterlocutorProfile, SourceType, LANGUAGE, MIN_PEAK_PER_MILLION,
    NO_SPEECH_THRESHOLD_PER_MILLE, SILENCE_THRESHOLD_PER_MILLE, TARGET_PEAK_PER_MILLE,
};
use transcriptor::convert::resampled_len;
use transcriptor::worker::{
    report_failure, Pending, SourceWorker, WorkerAction, WorkerEvent, WorkerPhase,
    READ_TIMEOUT_MS,
};

fn worker_profile(name: &str, kind: SourceType, secs: u32) -> InterlocutorProfile {
    InterlocutorProfile {
        id: 0,
        device_id: 0,
        source_type: kind,
        name: name.to_string(),
        is_active: true,
        technical_name: None,
        target_sample_rate: 16000,
        chunk_duration_secs: secs,
    }
}

fn capturing_worker(rate: u32, channels: u16, secs: u32) -> SourceWorker<f32> {
    let mut worker = SourceWorker::<f32>::new(&worker_profile("Ana", SourceType::Input, secs));
    assert_eq!(worker.step(WorkerEvent::Spawned), Some(WorkerAction::LoadEngine));
    assert_eq!(worker.step(WorkerEvent::EngineReady), Some(WorkerAction::OpenFeed));
    let opened = worker.step(WorkerEvent::FeedOpened {
        device_name: "Mic".to_string(),
        native_rate: rate,
        channels,
    });
    assert!(matches!(opened, Some(WorkerAction::Emit(AudioMessage::Status(_)))));
    assert_eq!(worker.step(WorkerEvent::Sent), Some(WorkerAction::ReadBatch));
    worker
}

#[test]
fn the_wait_for_a_batch_is_bounded() {
    assert_eq!(READ_TIMEOUT_MS, 100);
}

#[test]
fn a_worker_starts_by_loading_the_engine_and_opening_the_feed() {
    let mut worker = SourceWorker::<f32>::new(&worker_profile("Ana", SourceType::Input, 5));
    assert_eq!(worker.phase(), WorkerPhase::Starting);
    assert_eq!(worker.pending(), Pending::Begin);
    assert_eq!(worker.step(WorkerEvent::Spawned), Some(WorkerAction::LoadEngine));
    assert_eq!(worker.phase(), WorkerPhase::Starting);
    assert_eq!(worker.step(WorkerEvent::EngineReady), Some(WorkerAction::OpenFeed));
    assert_eq!(worker.phase(), WorkerPhase::Starting);
    let action = worker.step(WorkerEvent::FeedOpened {
        device_name: "USB Mic".to_string(),
        native_rate: 48000,
        channels: 2,
    });
    assert_eq!(
        action,
        Some(WorkerAction::Emit(AudioMessage::Status(
            "🎤 Ana - USB Mic (48000Hz, 2 ch)".to_string()
        )))
    );
    assert_eq!(worker.window_samples(), 240_000);
    assert_eq!(worker.step(WorkerEvent::Sent), Some(WorkerAction::ReadBatch));
    assert_eq!(worker.phase(), WorkerPhase::Capturing);
}

#[test]
fn an_output_source_is_announced_with_its_own_sign() {
    let mut worker = SourceWorker::<f32>::new(&worker_profile("Sala", SourceType::Output, 5));
    worker.step(WorkerEvent::Spawned);
    worker.step(WorkerEvent::EngineReady);
    let action = worker.step(WorkerEvent::FeedOpened {
        device_name: "Monitor".to_string(),
        native_rate: 16000,
        channels: 1,
    });
    assert_eq!(
        action,
        Some(WorkerAction::Emit(AudioMessage::Status(
            "🔊 Sala - Monitor (16000Hz, 1 ch)".to_string()
        )))
    );
}

#[test]
fn an_engine_that_does_not_load_ends_the_worker_with_a_report() {
    let mut worker = SourceWorker::<f32>::new(&worker_profile("Ana", SourceType::Input, 5));
    worker.step(WorkerEvent::Spawned);
    let action = worker.step(WorkerEvent::EngineLoadFailed("no such file".to_string()));
    assert_eq!(
        action,
        Some(WorkerAction::Fail(AudioMessage::Error(
            "Error en Ana: Error cargando modelo: no such file".to_string()
        )))
    );
    assert_eq!(worker.phase(), WorkerPhase::Stopped);
    assert_eq!(worker.step(WorkerEvent::EngineReady), None);
}

#[test]
fn a_device_that_does_not_open_ends_the_worker_with_a_report() {
    let mut worker = SourceWorker::<f32>::new(&worker_profile("Ana", SourceType::Input, 5));
    worker.step(WorkerEvent::Spawned);
    worker.step(WorkerEvent::EngineReady);
    let action = worker.step(WorkerEvent::FeedUnavailable("Input 3 no encontrado".to_string()));
    assert_eq!(
        action,
        Some(WorkerAction::Fail(AudioMessage::Error(
            "Error en Ana: Input 3 no encontrado".to_string()
        )))
    );
    assert_eq!(worker.phase(), WorkerPhase::Stopped);
}

#[test]
fn report_failure_names_the_source() {
    assert_eq!(report_failure("Ana", "algo falló"), "Error en Ana: algo falló");
}

#[test]
fn window_arrives_only_after_five_seconds_of_stereo_48_khz() {
    let mut worker = capturing_worker(48000, 2, 5);
    assert_eq!(worker.window_samples(), 240_000);
    // 239 batches of 1000 frames, already mixed down to one channel.
    for _ in 0..239 {
        assert_eq!(
            worker.step(WorkerEvent::Batch(vec![0.5; 1000])),
            Some(WorkerAction::ReadBatch)
        );
        assert_eq!(worker.phase(), WorkerPhase::Capturing);
    }
    assert_eq!(worker.buffered_len(), 239_000);
    assert_eq!(
        worker.step(WorkerEvent::Batch(vec![0.5; 999])),
        Some(WorkerAction::ReadBatch)
    );
    let action = worker.step(WorkerEvent::Batch(vec![0.5; 1]));
    match action {
        Some(WorkerAction::Analyze { window, from_rate, to_rate }) => {
            assert_eq!(window.len(), 240_000);
            assert_eq!(from_rate, 48000);
            assert_eq!(to_rate, 16000);
            assert_eq!(resampled_len(window.len(), from_rate, to_rate), Some(80_000));
        }
        other => panic!("no window: {:?}", other.is_some()),
    }
    assert_eq!(worker.phase(), WorkerPhase::Processing);
    assert_eq!(worker.buffered_len(), 72_000);
}

#[test]
fn a_silent_window_never_reaches_the_engine() {
    let mut worker = capturing_worker(16000, 1, 1);
    let action = worker.step(WorkerEvent::Batch(vec![0.0; 16000]));
    assert!(matches!(action, Some(WorkerAction::Analyze { .. })));
    // The energy of the window was 0.05, under the threshold of 0.1.
    let rms: f32 = 0.05;
    let threshold = SILENCE_THRESHOLD_PER_MILLE as f32 / 1000.0;
    let action =
        worker.step(WorkerEvent::Analyzed { window: vec![0.05; 16000], silent: rms < threshold });
    assert_eq!(action, Some(WorkerAction::ReadBatch));
    assert_eq!(worker.phase(), WorkerPhase::Capturing);
    assert_eq!(worker.step(WorkerEvent::Recognized(vec!["hola".to_string()])), None);
}

#[test]
fn a_window_at_the_threshold_reaches_the_engine() {
    let mut worker = capturing_worker(16000, 1, 1);
    worker.step(WorkerEvent::Batch(vec![0.1; 16000]));
    let rms: f32 = 0.1;
    let threshold = SILENCE_THRESHOLD_PER_MILLE as f32 / 1000.0;
    let action =
        worker.step(WorkerEvent::Analyzed { window: vec![0.1; 4], silent: rms < threshold });
    assert_eq!(action, Some(WorkerAction::Recognize { window: vec![0.1; 4] }));
    assert_eq!(worker.phase(), WorkerPhase::Processing);
    assert_eq!(worker.pending(), Pending::Recognition);
}

#[test]
fn recognized_text_is_emitted_under_the_source_name() {
    let mut worker = capturing_worker(16000, 1, 1);
    worker.step(WorkerEvent::Batch(vec![0.3; 16000]));
    worker.step(WorkerEvent::Analyzed { window: vec![0.3; 16000], silent: false });
    let action = worker.step(WorkerEvent::Recognized(vec![
        "".to_string(),
        "a".to_string(),
        "hello there".to_string(),
    ]));
    assert_eq!(
        action,
        Some(WorkerAction::Emit(AudioMessage::Transcription {
            text: "hello there".to_string(),
            name: "Ana".to_string(),
        }))
    );
    assert_eq!(worker.step(WorkerEvent::Sent), Some(WorkerAction::ReadBatch));
    assert_eq!(worker.phase(), WorkerPhase::Capturing);
}

#[test]
fn nothing_is_emitted_for_noise() {
    let mut worker = capturing_worker(16000, 1, 1);
    worker.step(WorkerEvent::Batch(vec![0.3; 16000]));
    worker.step(WorkerEvent::Analyzed { window: vec![0.3; 16000], silent: false });
    let action = worker.step(WorkerEvent::Recognized(vec![" ".to_string(), "e".to_string()]));
    assert_eq!(action, Some(WorkerAction::ReadBatch));
    assert_eq!(worker.phase(), WorkerPhase::Capturing);
}

#[test]
fn an_engine_failure_costs_one_window_only() {
    let mut worker = capturing_worker(16000, 1, 1);
    worker.step(WorkerEvent::Batch(vec![0.3; 16000]));
    worker.step(WorkerEvent::Analyzed { window: vec![0.3; 16000], silent: false });
    let action = worker.step(WorkerEvent::EngineFailed("decode failed".to_string()));
    assert_eq!(action, Some(WorkerAction::ReadBatch));
    assert_eq!(worker.phase(), WorkerPhase::Capturing);
    assert_eq!(worker.buffered_len(), 4800);
    let action = worker.step(WorkerEvent::Batch(vec![0.3; 11200]));
    assert!(matches!(action, Some(WorkerAction::Analyze { .. })));
}

#[test]
fn cancellation_during_the_wait_stops_the_worker() {
    let mut worker = capturing_worker(16000, 1, 1);
    worker.step(WorkerEvent::Batch(vec![0.3; 15999]));
    assert_eq!(worker.step(WorkerEvent::Timeout), Some(WorkerAction::ReadBatch));
    assert_eq!(worker.step(WorkerEvent::Cancelled), Some(WorkerAction::Stop));
    assert_eq!(worker.phase(), WorkerPhase::Stopped);
    assert_eq!(worker.step(WorkerEvent::Batch(vec![0.3; 1])), None);
    assert_eq!(worker.step(WorkerEvent::Analyzed { window: vec![], silent: false }), None);
    assert_eq!(worker.step(WorkerEvent::Recognized(vec!["hola".to_string()])), None);
    assert_eq!(worker.phase(), WorkerPhase::Stopped);
}

#[test]
fn cancellation_is_not_seen_during_recognition() {
    let mut worker = capturing_worker(16000, 1, 1);
    worker.step(WorkerEvent::Batch(vec![0.3; 16000]));
    worker.step(WorkerEvent::Analyzed { window: vec![0.3; 16000], silent: false });
    assert_eq!(worker.step(WorkerEvent::Cancelled), None);
    assert_eq!(worker.pending(), Pending::Recognition);
    let action = worker.step(WorkerEvent::Recognized(vec!["hola a todos".to_string()]));
    assert!(matches!(action, Some(WorkerAction::Emit(_))));
    assert_eq!(worker.step(WorkerEvent::Sent), Some(WorkerAction::ReadBatch));
    assert_eq!(worker.step(WorkerEvent::Cancelled), Some(WorkerAction::Stop));
}

#[test]
fn the_end_of_the_stream_stops_the_worker() {
    let mut worker = capturing_worker(16000, 1, 1);
    assert_eq!(worker.step(WorkerEvent::EndOfStream), Some(WorkerAction::Stop));
    assert_eq!(worker.phase(), WorkerPhase::Stopped);
}

#[test]
fn an_empty_batch_is_the_end_of_the_stream() {
    let mut worker = capturing_worker(16000, 1, 1);
    assert_eq!(worker.step(WorkerEvent::Batch(vec![])), Some(WorkerAction::Stop));
    assert_eq!(worker.phase(), WorkerPhase::Stopped);
}

#[test]
fn a_consumer_that_is_gone_stops_the_worker_silently() {
    let mut worker = capturing_worker(16000, 1, 1);
    worker.step(WorkerEvent::Batch(vec![0.3; 16000]));
    worker.step(WorkerEvent::Analyzed { window: vec![0.3; 16000], silent: false });
    worker.step(WorkerEvent::Recognized(vec!["hola".to_string()]));
    assert_eq!(worker.step(WorkerEvent::Disconnected), Some(WorkerAction::Stop));
    assert_eq!(worker.phase(), WorkerPhase::Stopped);

    let mut early = SourceWorker::<f32>::new(&worker_profile("Ana", SourceType::Input, 5));
    early.step(WorkerEvent::Spawned);
    early.step(WorkerEvent::EngineReady);
    early.step(WorkerEvent::FeedOpened {
        device_name: "Mic".to_string(),
        native_rate: 16000,
        channels: 1,
    });
    assert_eq!(early.step(WorkerEvent::Disconnected), Some(WorkerAction::Stop));
}

#[test]
fn an_event_out_of_turn_is_refused_and_changes_nothing() {
    let mut worker = SourceWorker::<f32>::new(&worker_profile("Ana", SourceType::Input, 5));
    assert_eq!(worker.step(WorkerEvent::EngineReady), None);
    assert_eq!(worker.step(WorkerEvent::Batch(vec![1.0])), None);
    assert_eq!(worker.pending(), Pending::Begin);
    let mut capturing = capturing_worker(16000, 1, 1);
    capturing.step(WorkerEvent::Batch(vec![0.3; 100]));
    assert_eq!(capturing.step(WorkerEvent::Sent), None);
    assert_eq!(capturing.step(WorkerEvent::Spawned), None);
    assert_eq!(capturing.buffered_len(), 100);
    assert_eq!(capturing.pending(), Pending::Batch);
}

#[test]
fn consecutive_windows_share_three_tenths() {
    let mut worker: SourceWorker<f32> = capturing_worker(10, 1, 1);
    assert_eq!(worker.window_samples(), 10);
    let first: Vec<f32> = (0..10).map(|i| i as f32).collect();
    let action = worker.step(WorkerEvent::Batch(first.clone()));
    assert_eq!(
        action,
        Some(WorkerAction::Analyze { window: first, from_rate: 10, to_rate: 16000 })
    );
    worker.step(WorkerEvent::Analyzed { window: vec![], silent: true });
    let second: Vec<f32> = (10..17).map(|i| i as f32).collect();
    let action = worker.step(WorkerEvent::Batch(second));
    assert_eq!(
        action,
        Some(WorkerAction::Analyze {
            window: (7..17).map(|i| i as f32).collect(),
            from_rate: 10,
            to_rate: 16000,
        })
    );
}

#[test]
fn a_feed_that_fails_while_read_ends_the_worker_with_a_report() {
    let mut worker = capturing_worker(16000, 1, 1);
    worker.step(WorkerEvent::Batch(vec![0.3; 100]));
    let action = worker.step(WorkerEvent::ReadFailed("broken pipe".to_string()));
    assert_eq!(
        action,
        Some(WorkerAction::Fail(AudioMessage::Error(
            "Error en Ana: Error leyendo audio: broken pipe".to_string()
        )))
    );
    assert_eq!(worker.phase(), WorkerPhase::Stopped);
    let mut starting = SourceWorker::<f32>::new(&worker_profile("Ana", SourceType::Input, 5));
    assert_eq!(starting.step(WorkerEvent::ReadFailed("x".to_string())), None);
}

#[test]
fn the_ratios_are_the_thresholds() {
    assert_eq!(SILENCE_THRESHOLD_PER_MILLE as f32 / 1000.0, 0.1f32);
    assert_eq!(TARGET_PEAK_PER_MILLE as f32 / 1000.0, 0.95f32);
    assert_eq!(MIN_PEAK_PER_MILLION as f32 / 1_000_000.0, 0.0001f32);
    assert_eq!(NO_SPEECH_THRESHOLD_PER_MILLE as f32 / 1000.0, 0.6f32);
    assert_eq!(LANGUAGE, "es");
}
