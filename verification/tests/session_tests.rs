use stt_core::config::SttConfig;
use stt_core::session::{Command, Response, Session, SessionState, Step};

fn test_config(max_seconds: u32) -> SttConfig {
    SttConfig {
        model_path: "ggml-base.bin".to_string(),
        language: "en".to_string(),
        max_recording_seconds: max_seconds,
    }
}

fn new_session(max_seconds: u32) -> Session<u64> {
    Session::new(test_config(max_seconds), 42)
}

#[test]
fn stop_while_idle_returns_empty_text() {
    let mut s = new_session(600);
    let step = s.handle_command(Command::Stop { response_tx: 1u64 });
    match step {
        Step::Resolved(res) => {
            assert_eq!(res.slot, 1);
            assert!(matches!(res.response, Response::Text(t) if t.is_empty()));
        }
        _ => panic!("stop while idle must resolve at once"),
    }
    assert_eq!(s.state, SessionState::Idle);
}

#[test]
fn pending_result_is_returned_exactly_once() {
    let mut s = new_session(1);
    s.handle_command(Command::Start);
    // Reach the cap with no Stop issued, so the transcript has no taker.
    let feed = vec![7u32; 16000];
    assert!(!s.tick(&feed));
    assert!(s.tick(&Vec::new()));
    assert_eq!(s.state, SessionState::Processing);
    let kept = s.finish_processing("kept text".to_string());
    assert!(kept.is_none());
    assert_eq!(s.state, SessionState::Idle);

    // The first late Stop gets the pending result.
    let first = s.handle_command(Command::Stop { response_tx: 2u64 });
    match first {
        Step::Resolved(res) => {
            assert_eq!(res.slot, 2);
            assert!(matches!(res.response, Response::Text(t) if t == "kept text"));
        }
        _ => panic!("stop while idle must resolve at once"),
    }

    // The second immediate Stop gets empty text.
    let second = s.handle_command(Command::Stop { response_tx: 3u64 });
    match second {
        Step::Resolved(res) => {
            assert_eq!(res.slot, 3);
            assert!(matches!(res.response, Response::Text(t) if t.is_empty()));
        }
        _ => panic!("stop while idle must resolve at once"),
    }
}

#[test]
fn cancel_resolves_attached_slot_and_clears_segment() {
    let mut s = new_session(600);
    s.handle_command(Command::Start);
    s.tick(&vec![1u32, 2, 3]);
    let step = s.handle_command(Command::Stop { response_tx: 5u64 });
    assert!(matches!(step, Step::Done));
    assert_eq!(s.state, SessionState::Processing);

    let step = s.handle_command(Command::Cancel);
    match step {
        Step::Resolved(res) => {
            assert_eq!(res.slot, 5);
            assert!(matches!(res.response, Response::Cancelled));
        }
        _ => panic!("cancel must resolve the attached slot"),
    }
    assert_eq!(s.state, SessionState::Idle);
    assert!(s.segment.is_empty());
    assert!(s.pending_result.is_none());
}

#[test]
fn cancel_while_idle_is_a_no_op() {
    let mut s = new_session(600);
    let step = s.handle_command(Command::Cancel);
    assert!(matches!(step, Step::Done));
    assert_eq!(s.state, SessionState::Idle);
}

#[test]
fn second_stop_replaces_first_slot_and_cancels_it() {
    let mut s = new_session(600);
    s.handle_command(Command::Start);
    let first = s.handle_command(Command::Stop { response_tx: 1u64 });
    assert!(matches!(first, Step::Done));
    let second = s.handle_command(Command::Stop { response_tx: 2u64 });
    match second {
        Step::Resolved(res) => {
            assert_eq!(res.slot, 1);
            assert!(matches!(res.response, Response::Cancelled));
        }
        _ => panic!("the replaced slot must be torn down, not dropped"),
    }
    // The last Stop wins the eventual transcript.
    let delivered = s.finish_processing("text".to_string()).expect("a slot is attached");
    assert_eq!(delivered.slot, 2);
    assert!(matches!(delivered.response, Response::Text(t) if t == "text"));
}

#[test]
fn start_twice_equals_start_once() {
    let mut once = new_session(600);
    once.handle_command(Command::Start);

    let mut twice = new_session(600);
    twice.handle_command(Command::Start);
    twice.tick(&vec![9u32; 100]);
    let step = twice.handle_command(Command::Start);
    assert!(matches!(step, Step::Done));

    assert_eq!(twice.state, once.state);
    assert_eq!(twice.segment, once.segment);
    assert!(twice.segment.is_empty());
    assert!(twice.pending_result.is_none());
}

#[test]
fn auto_stop_fires_once_at_the_cap() {
    // One second cap at 16000 samples per second.
    let mut s = new_session(1);
    s.handle_command(Command::Start);
    let feed = vec![3u32; 16000];
    // Below the cap: samples are appended, no auto-stop.
    assert!(!s.tick(&feed));
    assert_eq!(s.segment.len(), 16000);
    assert_eq!(s.state, SessionState::Recording);
    // At the cap: the session force-stops, exactly once.
    assert!(s.tick(&feed));
    assert_eq!(s.state, SessionState::Processing);
    assert_eq!(s.segment.len(), 16000);
    // Further ticks do not fire again.
    assert!(!s.tick(&feed));
    assert_eq!(s.state, SessionState::Processing);

    // The segment is then transcribed and the session returns to idle.
    let job = s.processing_job().expect("a segment awaits processing");
    assert_eq!(job.0.len(), 16000);
    let kept = s.finish_processing("auto".to_string());
    assert!(kept.is_none());
    assert_eq!(s.state, SessionState::Idle);
    assert!(s.segment.is_empty());
}

#[test]
fn one_second_of_audio_is_transcribed_to_the_caller() {
    let mut s = new_session(600);
    s.handle_command(Command::Start);
    // One second at 16 kHz.
    let feed = vec![11u32; 16000];
    assert!(!s.tick(&feed));
    let step = s.handle_command(Command::Stop { response_tx: 7u64 });
    assert!(matches!(step, Step::Done));

    let (samples, language) = s.processing_job().expect("a segment awaits processing");
    assert_eq!(samples.len(), 16000);
    assert_eq!(samples, feed);
    assert_eq!(language, "en");

    // The backend answers; the Stop caller gets exactly that text.
    let res = s.finish_processing("hello world".to_string()).expect("a slot is attached");
    assert_eq!(res.slot, 7);
    assert!(matches!(res.response, Response::Text(t) if t == "hello world"));

    // A subsequent STATUS shows the idle state.
    let step = s.handle_command(Command::GetStatus { response_tx: 8u64 });
    match step {
        Step::Resolved(res) => {
            assert_eq!(res.slot, 8);
            match res.response {
                Response::Status(sr) => {
                    assert!(sr.active);
                    assert_eq!(sr.pid, 42);
                    assert_eq!(sr.model_path, "ggml-base.bin");
                    assert_eq!(sr.language, "en");
                    assert_eq!(sr.max_recording_seconds, 600);
                    assert_eq!(sr.state, "Idle");
                }
                _ => panic!("status request must be answered with a snapshot"),
            }
        }
        _ => panic!("status request must be resolved at once"),
    }
}

#[test]
fn empty_segment_is_not_transcribed() {
    let mut s = new_session(600);
    s.handle_command(Command::Start);
    let step = s.handle_command(Command::Stop { response_tx: 1u64 });
    assert!(matches!(step, Step::Done));
    assert!(s.processing_job().is_none());
    let res = s.finish_processing(String::new()).expect("a slot is attached");
    assert!(matches!(res.response, Response::Text(t) if t.is_empty()));
}

#[test]
fn reload_with_unchanged_model_path_keeps_the_backend() {
    let mut s = new_session(600);
    let mut new_config = test_config(600);
    new_config.language = "de".to_string();
    new_config.max_recording_seconds = 30;
    let step = s.handle_command(Command::ReloadConfig { new_config, response_tx: 9u64 });
    match step {
        Step::BeginReload { new_config, response_tx, rebuild } => {
            assert!(!rebuild);
            let res = s.finish_reload(new_config, response_tx, None);
            assert_eq!(res.slot, 9);
            assert!(matches!(res.response, Response::ReloadOk));
        }
        _ => panic!("reload must hand the snapshot back"),
    }
    assert_eq!(s.config.model_path, "ggml-base.bin");
    assert_eq!(s.config.language, "de");
    assert_eq!(s.config.max_recording_seconds, 30);
}

#[test]
fn failed_reload_leaves_config_untouched() {
    let mut s = new_session(600);
    let mut new_config = test_config(600);
    new_config.model_path = "/nowhere/ggml-huge.bin".to_string();
    let step = s.handle_command(Command::ReloadConfig { new_config, response_tx: 10u64 });
    match step {
        Step::BeginReload { new_config, response_tx, rebuild } => {
            assert!(rebuild);
            let res = s.finish_reload(
                new_config,
                response_tx,
                Some(Err("model file not found".to_string())),
            );
            assert_eq!(res.slot, 10);
            assert!(
                matches!(res.response, Response::ReloadErr(e) if e == "model file not found")
            );
        }
        _ => panic!("reload must hand the snapshot back"),
    }
    assert_eq!(s.config.model_path, "ggml-base.bin");
    assert_eq!(s.config.language, "en");
    assert_eq!(s.config.max_recording_seconds, 600);
}

#[test]
fn samples_are_discarded_while_idle() {
    let mut s = new_session(600);
    assert!(!s.tick(&vec![1u32; 512]));
    assert!(s.segment.is_empty());
    assert_eq!(s.state, SessionState::Idle);
}

#[test]
fn start_keeps_an_attached_slot_for_the_next_transcript() {
    let mut s = new_session(600);
    s.handle_command(Command::Start);
    assert!(matches!(s.handle_command(Command::Stop { response_tx: 4u64 }), Step::Done));
    // A new Start re-arms the recording; the old slot stays attached.
    assert!(matches!(s.handle_command(Command::Start), Step::Done));
    assert_eq!(s.state, SessionState::Recording);
    // Cancel still answers it: nothing dangles.
    let step = s.handle_command(Command::Cancel);
    match step {
        Step::Resolved(res) => {
            assert_eq!(res.slot, 4);
            assert!(matches!(res.response, Response::Cancelled));
        }
        _ => panic!("the surviving slot must be torn down on cancel"),
    }
}
