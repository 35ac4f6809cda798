//! The voice notepad's screen: recording on and off, the status line, the
//! transcribed text, and the transcriber's command line and answer.
//!
//! The screen draws itself and hands each frame's clicks and keys to
//! `NotepadSession::on_controls`; the work that a decision calls for (clear
//! or copy the recording, save it, run the transcriber, copy to the
//! clipboard) is done outside and its outcome handed back.
use vstd::prelude::*;
use crate::text::{decode_lossy, lossy_decoding, trim, trim_str};

verus! {

/// What the screen has to do after a frame's controls.
#[derive(Clone, Copy, PartialEq, Eq, Structural)]
pub enum ControlAction {
    /// Nothing.
    Idle,
    /// Drop the audio recorded so far and start keeping new audio.
    StartRecording,
    /// Take the recorded audio, save it and transcribe it.
    StopRecording,
}

/// Whether recording is on after a frame's controls, and what follows: a
/// click on "record" or Enter starts a stopped recording; a click on
/// "stop", Enter or Escape stops a running one.
pub open spec fn controls_step(
    recording: bool,
    start_clicked: bool,
    stop_clicked: bool,
    enter: bool,
    escape: bool,
) -> (bool, ControlAction) {
    if (start_clicked || enter) && !recording {
        (true, ControlAction::StartRecording)
    } else if (stop_clicked || enter || escape) && recording {
        (false, ControlAction::StopRecording)
    } else {
        (recording, ControlAction::Idle)
    }
}

/// Enter alone switches recording on and off: pressed twice, it starts and
/// then stops a recording (or stops and then starts one).
pub proof fn law_enter_toggles(recording: bool)
    ensures
        controls_step(recording, false, false, true, false).0 == !recording,
        controls_step(controls_step(recording, false, false, true, false).0, false, false, true, false).0
            == recording,
        controls_step(recording, false, false, true, false).1 == (if recording {
            ControlAction::StopRecording
        } else {
            ControlAction::StartRecording
        }),
{
}

/// Only a click on "record" or Enter starts a recording: with neither, a
/// stopped screen stays stopped and does nothing, whatever the "stop"
/// button and Escape say. Likewise only a click on "stop", Enter or Escape
/// stops a running recording. A start happens only from a stopped screen
/// and a stop only from a running one.
pub proof fn law_start_and_stop_need_their_controls(
    recording: bool,
    start_clicked: bool,
    stop_clicked: bool,
    enter: bool,
    escape: bool,
)
    ensures
        !start_clicked && !enter ==> controls_step(false, false, stop_clicked, false, escape) == (false, ControlAction::Idle),
        !stop_clicked && !enter && !escape ==> controls_step(true, start_clicked, false, false, false) == (true, ControlAction::Idle),
        controls_step(recording, start_clicked, stop_clicked, enter, escape).1 == ControlAction::StartRecording
            ==> !recording && (start_clicked || enter),
        controls_step(recording, start_clicked, stop_clicked, enter, escape).1 == ControlAction::StopRecording
            ==> recording && (stop_clicked || enter || escape),
        controls_step(recording, start_clicked, stop_clicked, enter, escape).1 == ControlAction::Idle
            ==> controls_step(recording, start_clicked, stop_clicked, enter, escape).0 == recording,
        !recording && (start_clicked || enter) ==> controls_step(recording, start_clicked, stop_clicked, enter, escape) == (true, ControlAction::StartRecording),
        recording && (stop_clicked || enter || escape) ==> controls_step(recording, start_clicked, stop_clicked, enter, escape) == (false, ControlAction::StopRecording),
{
}

/// Without a click or a key, nothing changes.
pub proof fn law_no_input_no_change(recording: bool)
    ensures
        controls_step(recording, false, false, false, false) == (recording, ControlAction::Idle),
{
}

/// The state of the notepad's screen.
pub struct NotepadSession {
    pub recording: bool,
    pub text: String,
    pub status: String,
}

impl NotepadSession {
    /// A screen that is not recording, with no text.
    pub fn new() -> (s: NotepadSession)
        ensures
            !s.recording,
            s.text@ == Seq::<char>::empty(),
            s.status@ == "Listo. Presiona Grabar."@,
    {
        NotepadSession {
            recording: false,
            text: String::new(),
            status: String::from_str("Listo. Presiona Grabar."),
        }
    }

    /// Whether the "record" button can be clicked.
    pub fn record_enabled(&self) -> (b: bool)
        ensures
            b == !self.recording,
    {
        !self.recording
    }

    /// Whether the "stop" button can be clicked.
    pub fn stop_enabled(&self) -> (b: bool)
        ensures
            b == self.recording,
    {
        self.recording
    }

    /// The status line shown at the top, `"Estado: {status}"`.
    pub fn status_label(&self) -> (l: String)
        ensures
            l@ == "Estado: "@ + self.status@,
    {
        let mut l = String::from_str("Estado: ");
        l.append(self.status.as_str());
        l
    }

    /// Takes in a frame's clicks and keys. Starting clears the text;
    /// stopping leaves the status at "processing" until the outcome of the
    /// saving comes back.
    pub fn on_controls(&mut self, start_clicked: bool, stop_clicked: bool, enter: bool, escape: bool) -> (a: ControlAction)
        ensures
            (final(self).recording, a) == controls_step(old(self).recording, start_clicked, stop_clicked, enter, escape),
            a == ControlAction::StartRecording ==> final(self).text@ == Seq::<char>::empty()
                && final(self).status@ == "Grabando... habla libremente."@,
            a == ControlAction::StopRecording ==> final(self).text@ == old(self).text@
                && final(self).status@ == "Procesando audio..."@,
            a == ControlAction::Idle ==> final(self).text@ == old(self).text@
                && final(self).status@ == old(self).status@,
    {
        if (start_clicked || enter) && !self.recording {
            self.text = String::new();
            self.recording = true;
            self.status = String::from_str("Grabando... habla libremente.");
            ControlAction::StartRecording
        } else if (stop_clicked || enter || escape) && self.recording {
            self.recording = false;
            self.status = String::from_str("Procesando audio...");
            ControlAction::StopRecording
        } else {
            ControlAction::Idle
        }
    }

    /// The recorded audio could not be taken.
    pub fn on_audio_unavailable(&mut self)
        ensures
            final(self).recording == old(self).recording,
            final(self).text@ == old(self).text@,
            final(self).status@ == "Error accediendo al buffer de audio."@,
    {
        self.status = String::from_str("Error accediendo al buffer de audio.");
    }

    /// The outcome of saving the recording; returns whether to go on and
    /// transcribe it.
    pub fn on_saved(&mut self, saved: Result<(), String>) -> (go_on: bool)
        ensures
            go_on == saved is Ok,
            final(self).recording == old(self).recording,
            final(self).text@ == old(self).text@,
            saved is Ok ==> final(self).status@ == "Transcribiendo con Whisper..."@,
            saved matches Err(e) ==> final(self).status@ == "Error guardando WAV: "@ + e@,
    {
        match saved {
            Ok(()) => {
                self.status = String::from_str("Transcribiendo con Whisper...");
                true
            },
            Err(e) => {
                let mut s = String::from_str("Error guardando WAV: ");
                s.append(e.as_str());
                self.status = s;
                false
            },
        }
    }

    /// The outcome of the transcription: its text replaces the shown one,
    /// or the error goes to the status line.
    pub fn on_transcribed(&mut self, outcome: Result<String, String>)
        ensures
            final(self).recording == old(self).recording,
            outcome matches Ok(t) ==> final(self).text@ == t@
                && final(self).status@ == "Transcripción terminada."@,
            outcome matches Err(e) ==> final(self).text@ == old(self).text@
                && final(self).status@ == "Error ejecutando Whisper: "@ + e@,
    {
        match outcome {
            Ok(t) => {
                self.text = t;
                self.status = String::from_str("Transcripción terminada.");
            },
            Err(e) => {
                let mut s = String::from_str("Error ejecutando Whisper: ");
                s.append(e.as_str());
                self.status = s;
            },
        }
    }

    /// The "copy" button: returns the text to put on the clipboard.
    pub fn on_copy(&mut self) -> (copied: String)
        ensures
            copied@ == old(self).text@,
            final(self).recording == old(self).recording,
            final(self).text@ == old(self).text@,
            final(self).status@ == "Texto copiado al portapapeles."@,
    {
        self.status = String::from_str("Texto copiado al portapapeles.");
        self.text.clone()
    }
}

/// The transcriber's arguments: the model, the WAV file, Spanish, and, for
/// a plain-text answer, no progress output and no timestamps.
pub open spec fn whisper_arguments(model: Seq<char>, wav_file: Seq<char>, plain_text: bool) -> Seq<Seq<char>> {
    let base = seq!["-m"@, model, "-f"@, wav_file, "-l"@, "es"@];
    if plain_text {
        base + seq!["-np"@, "-nt"@]
    } else {
        base
    }
}

/// The arguments with which the transcriber is run.
pub fn whisper_args(model: &str, wav_file: &str, plain_text: bool) -> (args: Vec<String>)
    ensures
        args@.map_values(|a: String| a@) == whisper_arguments(model@, wav_file@, plain_text),
{
    let mut args: Vec<String> = Vec::new();
    args.push(String::from_str("-m"));
    args.push(String::from_str(model));
    args.push(String::from_str("-f"));
    args.push(String::from_str(wav_file));
    args.push(String::from_str("-l"));
    args.push(String::from_str("es"));
    if plain_text {
        args.push(String::from_str("-np"));
        args.push(String::from_str("-nt"));
    }
    assert(args@.map_values(|a: String| a@) == whisper_arguments(model@, wav_file@, plain_text));
    args
}

/// The transcription from the transcriber's output: its decoded, trimmed
/// standard output when it succeeded; else an error quoting its standard
/// error.
pub open spec fn transcription(success: bool, stdout: Seq<u8>, stderr: Seq<u8>) -> Result<Seq<char>, Seq<char>> {
    if success {
        Ok(trim(lossy_decoding(stdout)))
    } else {
        Err("Whisper terminó con error: "@ + lossy_decoding(stderr))
    }
}

/// The view of a text result.
pub open spec fn result_view(r: Result<String, String>) -> Result<Seq<char>, Seq<char>> {
    match r {
        Ok(t) => Ok(t@),
        Err(e) => Err(e@),
    }
}

/// Reads the transcriber's outcome from its exit status and output.
pub fn transcription_outcome(success: bool, stdout: &[u8], stderr: &[u8]) -> (r: Result<String, String>)
    ensures
        result_view(r) == transcription(success, stdout@, stderr@),
{
    if !success {
        let err = decode_lossy(stderr);
        let mut m = String::from_str("Whisper terminó con error: ");
        m.append(err.as_str());
        return Err(m);
    }
    let out = decode_lossy(stdout);
    Ok(trim_str(out.as_str()))
}

/// The error when the transcriber could not be run at all.
pub fn launch_failure(error: &str) -> (m: String)
    ensures
        m@ == "No se pudo ejecutar Whisper: "@ + error@,
{
    let mut m = String::from_str("No se pudo ejecutar Whisper: ");
    m.append(error);
    m
}


/// The transcriber's outcome is decided by its exit status alone: it is an
/// error exactly when the transcriber failed; when it succeeded the outcome
/// is its decoded, trimmed standard output, whatever it wrote to standard
/// error (the transcriber logs there even when it succeeds).
pub proof fn law_outcome_follows_exit_status(success: bool, stdout: Seq<u8>, stderr: Seq<u8>, other_stderr: Seq<u8>)
    ensures
        transcription(success, stdout, stderr) is Err <==> !success,
        success ==> transcription(success, stdout, stderr) == Ok::<Seq<char>, Seq<char>>(trim(lossy_decoding(stdout))),
        success ==> transcription(success, stdout, stderr) == transcription(success, stdout, other_stderr),
        !success ==> transcription(success, stdout, stderr) == Err::<Seq<char>, Seq<char>>("Whisper terminó con error: "@ + lossy_decoding(stderr)),
{
}

} // verus!
