use panel_kit::notepad::{launch_failure, transcription_outcome, whisper_args, ControlAction, NotepadSession};

#[test]
fn new_session_is_ready() {
    let s = NotepadSession::new();
    assert!(!s.recording);
    assert_eq!(s.text, "");
    assert_eq!(s.status, "Listo. Presiona Grabar.");
    assert_eq!(s.status_label(), "Estado: Listo. Presiona Grabar.");
    assert!(s.record_enabled());
    assert!(!s.stop_enabled());
}

#[test]
fn record_click_starts_and_clears_text() {
    let mut s = NotepadSession::new();
    s.text = "viejo".to_string();
    assert!(s.on_controls(true, false, false, false) == ControlAction::StartRecording);
    assert!(s.recording);
    assert_eq!(s.text, "");
    assert_eq!(s.status, "Grabando... habla libremente.");
    assert!(!s.record_enabled());
    assert!(s.stop_enabled());
}

#[test]
fn stop_click_escape_or_enter_stop() {
    for (stop, enter, escape) in [(true, false, false), (false, true, false), (false, false, true)] {
        let mut s = NotepadSession::new();
        s.on_controls(true, false, false, false);
        assert!(s.on_controls(false, stop, enter, escape) == ControlAction::StopRecording);
        assert!(!s.recording);
        assert_eq!(s.status, "Procesando audio...");
    }
}

#[test]
fn enter_toggles_recording() {
    let mut s = NotepadSession::new();
    assert!(s.on_controls(false, false, true, false) == ControlAction::StartRecording);
    assert!(s.recording);
    assert!(s.on_controls(false, false, true, false) == ControlAction::StopRecording);
    assert!(!s.recording);
}

#[test]
fn nothing_pressed_changes_nothing() {
    let mut s = NotepadSession::new();
    assert!(s.on_controls(false, false, false, false) == ControlAction::Idle);
    assert_eq!(s.status, "Listo. Presiona Grabar.");
    // Escape while not recording does nothing either.
    assert!(s.on_controls(false, true, false, true) == ControlAction::Idle);
    assert!(!s.recording);
}

#[test]
fn saving_and_transcribing() {
    let mut s = NotepadSession::new();
    s.on_controls(true, false, false, false);
    s.on_controls(false, true, false, false);
    assert!(s.on_saved(Ok(())));
    assert_eq!(s.status, "Transcribiendo con Whisper...");
    s.on_transcribed(Ok("hola mundo".to_string()));
    assert_eq!(s.text, "hola mundo");
    assert_eq!(s.status, "Transcripción terminada.");
}

#[test]
fn saving_fails() {
    let mut s = NotepadSession::new();
    assert!(!s.on_saved(Err("disco lleno".to_string())));
    assert_eq!(s.status, "Error guardando WAV: disco lleno");
}

#[test]
fn transcription_fails() {
    let mut s = NotepadSession::new();
    s.text = "antes".to_string();
    s.on_transcribed(Err("sin modelo".to_string()));
    assert_eq!(s.text, "antes");
    assert_eq!(s.status, "Error ejecutando Whisper: sin modelo");
}

#[test]
fn audio_unavailable_and_copy() {
    let mut s = NotepadSession::new();
    s.on_audio_unavailable();
    assert_eq!(s.status, "Error accediendo al buffer de audio.");
    s.text = "copiame".to_string();
    assert_eq!(s.on_copy(), "copiame");
    assert_eq!(s.status, "Texto copiado al portapapeles.");
    assert_eq!(s.text, "copiame");
}

#[test]
fn whisper_arguments() {
    assert_eq!(
        whisper_args("model.bin", "capture.wav", true),
        vec!["-m", "model.bin", "-f", "capture.wav", "-l", "es", "-np", "-nt"]
    );
    assert_eq!(
        whisper_args("m", "w.wav", false),
        vec!["-m", "m", "-f", "w.wav", "-l", "es"]
    );
}

#[test]
fn transcription_from_output() {
    assert_eq!(transcription_outcome(true, b"  Hola mundo.\n", b""), Ok("Hola mundo.".to_string()));
    assert_eq!(
        transcription_outcome(false, b"ignored", b"no model\n"),
        Err("Whisper terminó con error: no model\n".to_string())
    );
    assert_eq!(
        transcription_outcome(false, b"", &[0xff]),
        Err("Whisper terminó con error: \u{fffd}".to_string())
    );
}

#[test]
fn launch_failure_message() {
    assert_eq!(launch_failure("No such file"), "No se pudo ejecutar Whisper: No such file");
}
