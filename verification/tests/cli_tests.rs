use background_tasks::cli::after_cleanup;
use background_tasks::cli::bytes_equal;
use background_tasks::cli::decode_command;
use background_tasks::cli::execute;
use background_tasks::cli::find_command;
use background_tasks::cli::socket_path;
use background_tasks::cli::vocabulary;
use background_tasks::cli::CleanupOutcome;
use background_tasks::cli::Command;
use background_tasks::cli::ControlChannel;
use background_tasks::cli::Directive;
use background_tasks::cli::Response;
use background_tasks::cli::StartupError;
use background_tasks::cli::MAX_REQUEST_BYTES;
use background_tasks::task::PausableFuture;
use background_tasks::task::PausableFutureSupervisor;
use background_tasks::task::PausableState;
use std::sync::Arc;
use std::sync::Mutex;
use std::task::Waker;

fn channel() -> (PausableFuture<u32>, Arc<Mutex<PausableState>>, ControlChannel) {
    let (task, state) = PausableFuture::new(0u32);
    let channel = ControlChannel::new(PausableFutureSupervisor::new(&state));
    (task, state, channel)
}

fn step(counter: &mut u32) -> u32 {
    *counter += 1;
    *counter
}

fn answer(directive: Directive) -> &'static str {
    directive.reply_after(true).map(|response| response.as_str()).unwrap_or("")
}

#[test]
fn pause_is_acknowledged_and_unknown_command_is_refused() {
    let (_task, state, mut channel) = channel();
    assert!(state.lock().unwrap().is_running());

    let directive = channel.handle(b"pause");
    assert_eq!(directive, Directive::Reply(Response::Accepted));
    assert_eq!(answer(directive), "ok");
    assert!(state.lock().unwrap().is_pause_pending());

    let directive = channel.handle(b"unknown-cmd");
    assert_eq!(directive, Directive::Reply(Response::Refused));
    assert_eq!(answer(directive), "error");
    assert!(state.lock().unwrap().is_pause_pending());
}

#[test]
fn unknown_command_leaves_a_running_task_running() {
    let (_task, state, mut channel) = channel();
    assert_eq!(answer(channel.handle(b"stop")), "error");
    assert!(state.lock().unwrap().is_running());
}

#[test]
fn pause_then_resume_leaves_a_checked_task_running() {
    let (mut task, state, mut channel) = channel();
    assert_eq!(answer(channel.handle(b"pause")), "ok");
    assert_eq!(task.poll_with(Waker::noop().clone(), step), None);
    assert!(state.lock().unwrap().is_paused());
    assert_eq!(answer(channel.handle(b"resume")), "ok");
    assert!(state.lock().unwrap().is_running());
    assert_eq!(task.poll_with(Waker::noop().clone(), step), Some(1));
}

#[test]
fn pause_then_resume_without_a_check_keeps_the_pause_pending() {
    let (mut task, state, mut channel) = channel();
    assert_eq!(answer(channel.handle(b"pause")), "ok");
    assert_eq!(answer(channel.handle(b"resume")), "ok");
    assert!(state.lock().unwrap().is_pause_pending());
    assert_eq!(task.poll_with(Waker::noop().clone(), step), None);
}

#[test]
fn index_triggers_the_job_and_pauses_the_periodic_one() {
    let (_task, state, mut channel) = channel();
    let directive = channel.handle(b"index");
    assert_eq!(directive, Directive::TriggerIndexing);
    assert_eq!(directive.reply_after(true), Some(Response::Accepted));
    assert_eq!(directive.reply_after(false), Some(Response::Accepted));
    assert!(state.lock().unwrap().is_pause_pending());
}

#[test]
fn reload_config_answers_only_after_a_good_reload() {
    let (_task, state, mut channel) = channel();
    let directive = channel.handle(b"reload_config");
    assert_eq!(directive, Directive::ReloadConfiguration);
    assert_eq!(directive.reply_after(true), Some(Response::Accepted));
    assert_eq!(directive.reply_after(false), None);
    assert!(state.lock().unwrap().is_running());
}

#[test]
fn every_word_of_the_vocabulary_is_decoded() {
    assert_eq!(decode_command(b"index"), Some(Command::Index));
    assert_eq!(decode_command(b"pause"), Some(Command::Pause));
    assert_eq!(decode_command(b"resume"), Some(Command::Resume));
    assert_eq!(decode_command(b"reload_config"), Some(Command::ReloadConfig));
}

#[test]
fn requests_must_match_byte_for_byte() {
    assert_eq!(decode_command(b""), None);
    assert_eq!(decode_command(b"pause\n"), None);
    assert_eq!(decode_command(b" pause"), None);
    assert_eq!(decode_command(b"PAUSE"), None);
    assert_eq!(decode_command(b"paus"), None);
    assert_eq!(decode_command(b"todo"), None);
    assert_eq!(decode_command(&[0xff, 0xfe]), None);
}

#[test]
fn oversized_request_is_refused() {
    assert_eq!(MAX_REQUEST_BYTES, 1024);
    let mut request = b"pause".to_vec();
    request.resize(MAX_REQUEST_BYTES + 1, b' ');
    assert_eq!(decode_command(&request), None);
    let (_task, state, mut channel) = channel();
    assert_eq!(answer(channel.handle(&request)), "error");
    assert!(state.lock().unwrap().is_running());
}

#[test]
fn vocabulary_lists_four_words() {
    let table = vocabulary();
    let names: Vec<&str> = table.iter().map(|entry| entry.name).collect();
    assert_eq!(names, vec!["index", "pause", "resume", "reload_config"]);
    assert_eq!(find_command(&table, b"resume"), Some(Command::Resume));
    assert_eq!(find_command(&table, b"resum"), None);
    assert_eq!(find_command(&Vec::new(), b"resume"), None);
}

#[test]
fn bytes_equal_compares_contents() {
    assert!(bytes_equal(b"", b""));
    assert!(bytes_equal(b"abc", b"abc"));
    assert!(!bytes_equal(b"abc", b"abd"));
    assert!(!bytes_equal(b"abc", b"ab"));
}

#[test]
fn execute_acts_on_a_plain_state() {
    let mut state = PausableState::Running;
    let (directive, woken) = execute(Some(Command::Pause), &mut state);
    assert_eq!(directive, Directive::Reply(Response::Accepted));
    assert!(woken.is_none());
    assert!(state.is_pause_pending());
    assert!(!state.poll(Waker::noop().clone()));
    let (directive, woken) = execute(None, &mut state);
    assert_eq!(directive, Directive::Reply(Response::Refused));
    assert!(woken.is_none());
    assert!(state.is_paused());
    let (directive, woken) = execute(Some(Command::Resume), &mut state);
    assert_eq!(directive, Directive::Reply(Response::Accepted));
    assert!(woken.is_some());
    assert!(state.is_running());
}

#[test]
fn responses_are_ok_and_error() {
    assert_eq!(Response::Accepted.as_str(), "ok");
    assert_eq!(Response::Refused.as_str(), "error");
    assert_eq!(Response::Accepted.as_str().as_bytes(), b"ok");
    assert_eq!(Response::Refused.as_str().as_bytes(), b"error");
}

#[test]
fn startup_errors_are_described() {
    assert_eq!(StartupError::SocketPathMissing.describe(), "cli_unix_socket is not set");
    assert_eq!(StartupError::CleanupFailed.describe(), "cli_unix_socket could not be cleared");
}

#[test]
fn missing_socket_path_stops_the_startup() {
    assert_eq!(socket_path(&None), Err(StartupError::SocketPathMissing));
    let configured = Some(String::from("/tmp/recipe_unix_socket"));
    assert_eq!(socket_path(&configured), Ok(&String::from("/tmp/recipe_unix_socket")));
}

#[test]
fn only_a_failed_cleanup_stops_the_startup() {
    assert_eq!(after_cleanup(CleanupOutcome::Removed), Ok(()));
    assert_eq!(after_cleanup(CleanupOutcome::NotFound), Ok(()));
    assert_eq!(after_cleanup(CleanupOutcome::Failed), Err(StartupError::CleanupFailed));
}
