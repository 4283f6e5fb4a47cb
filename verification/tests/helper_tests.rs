use sp1_helper::errors::ErrorKind;
use sp1_helper::errors::fatal_message;
use sp1_helper::executor::ExecAction;
use sp1_helper::executor::ExecEvent;
use sp1_helper::executor::ExecOutcome;
use sp1_helper::executor::ExecState;
use sp1_helper::executor::WaitOutcome;
use sp1_helper::executor::skip_condition;
use sp1_helper::executor::step;
use sp1_helper::messages::build_notice;
use sp1_helper::messages::display_name;
use sp1_helper::messages::skip_notice;
use sp1_helper::messages::timestamped_build_notice;
use sp1_helper::paths::finish_resolution;
use sp1_helper::paths::join_path;
use sp1_helper::paths::resolution_target;
use sp1_helper::rerun::rerun_directive;
use sp1_helper::rerun::trigger_paths;
use sp1_helper::text::contains_str;

#[test]
fn resolves_relative_location_against_anchor() {
    assert_eq!(resolution_target("/root/ws", "prog"), "/root/ws/prog");
    assert_eq!(resolution_target("/root/ws/", "prog"), "/root/ws/prog");
    assert_eq!(resolution_target("/root/ws", "a/b/c"), "/root/ws/a/b/c");
}

#[test]
fn resolves_absolute_location_as_given() {
    assert_eq!(resolution_target("/root/ws", "/opt/prog"), "/opt/prog");
    assert_eq!(resolution_target("", "/opt/prog"), "/opt/prog");
}

#[test]
fn join_inserts_a_single_separator() {
    assert_eq!(join_path("/a", "b"), "/a/b");
    assert_eq!(join_path("/a/", "b"), "/a/b");
    assert_eq!(join_path("", "b"), "/b");
}

#[test]
fn finish_resolution_passes_the_canonical_path_through() {
    let r = finish_resolution(Some("/real/prog".to_string()));
    assert_eq!(r, Ok("/real/prog".to_string()));
}

#[test]
fn finish_resolution_fails_when_canonicalization_failed() {
    let r = finish_resolution(None);
    assert_eq!(r, Err(ErrorKind::Resolution));
}

#[test]
fn emits_exactly_three_trigger_paths_under_the_directory() {
    let paths = trigger_paths("/w/prog");
    assert_eq!(paths.len(), 3);
    assert_eq!(paths[0], "/w/prog/src");
    assert_eq!(paths[1], "/w/prog/Cargo.toml");
    assert_eq!(paths[2], "/w/prog/Cargo.lock");
    for p in &paths {
        assert!(p.starts_with("/w/prog/"));
        assert!(p.len() > "/w/prog".len());
    }
}

#[test]
fn wraps_paths_in_rerun_directives() {
    assert_eq!(
        rerun_directive("/w/prog/src"),
        "cargo:rerun-if-changed=/w/prog/src"
    );
}

#[test]
fn skip_signal_absent_means_no_skip() {
    assert!(!skip_condition(None));
}

#[test]
fn skip_signal_names_the_substitute_driver() {
    assert!(skip_condition(Some("clippy-driver")));
    assert!(skip_condition(Some("/usr/bin/clippy-driver")));
    assert!(!skip_condition(Some("rustc")));
    assert!(!skip_condition(Some("")));
}

#[test]
fn substring_search_finds_and_misses() {
    assert!(contains_str("abcdef", "cde"));
    assert!(contains_str("abcdef", ""));
    assert!(contains_str("aaab", "aab"));
    assert!(!contains_str("abc", "abcd"));
    assert!(!contains_str("", "a"));
    assert!(contains_str("", ""));
}

#[test]
fn skip_signal_completes_successfully_without_spawning() {
    let (state, action) = step(ExecState::CheckSkip, ExecEvent::SkipSignal(true));
    assert_eq!(state, ExecState::Completed(ExecOutcome::Success));
    assert_eq!(action, Some(ExecAction::EmitSkipNotice));
}

#[test]
fn full_run_with_zero_exit_succeeds() {
    let (s1, a1) = step(ExecState::CheckSkip, ExecEvent::SkipSignal(false));
    assert_eq!(s1, ExecState::Spawning);
    assert_eq!(a1, Some(ExecAction::SpawnTool));
    let (s2, a2) = step(s1, ExecEvent::SpawnResult(true));
    assert_eq!(s2, ExecState::Draining);
    assert_eq!(a2, Some(ExecAction::DrainStreams));
    let (s3, a3) = step(s2, ExecEvent::DrainResult(true));
    assert_eq!(s3, ExecState::Waiting);
    assert_eq!(a3, Some(ExecAction::WaitForExit));
    let (s4, a4) = step(s3, ExecEvent::ExitResult(WaitOutcome::Exited(0)));
    assert_eq!(s4, ExecState::Completed(ExecOutcome::Success));
    assert_eq!(a4, None);
}

#[test]
fn nonzero_exit_fails_the_build() {
    let (state, action) = step(ExecState::Waiting, ExecEvent::ExitResult(WaitOutcome::Exited(101)));
    assert_eq!(
        state,
        ExecState::Completed(ExecOutcome::Failure(ErrorKind::BuildFailed))
    );
    assert_eq!(action, None);
}

#[test]
fn failed_wait_fails_the_build() {
    let (state, _) = step(ExecState::Waiting, ExecEvent::ExitResult(WaitOutcome::WaitFailed));
    assert_eq!(
        state,
        ExecState::Completed(ExecOutcome::Failure(ErrorKind::BuildFailed))
    );
}

#[test]
fn spawn_failure_is_fatal_before_any_draining() {
    let (s1, _) = step(ExecState::CheckSkip, ExecEvent::SkipSignal(false));
    let (s2, a2) = step(s1, ExecEvent::SpawnResult(false));
    assert_eq!(s2, ExecState::Completed(ExecOutcome::Failure(ErrorKind::Spawn)));
    assert_eq!(a2, None);
}

#[test]
fn stream_read_failure_is_fatal() {
    let (state, action) = step(ExecState::Draining, ExecEvent::DrainResult(false));
    assert_eq!(
        state,
        ExecState::Completed(ExecOutcome::Failure(ErrorKind::StreamRead))
    );
    assert_eq!(action, None);
}

#[test]
fn completed_state_absorbs_every_event() {
    let done = ExecState::Completed(ExecOutcome::Success);
    assert_eq!(step(done, ExecEvent::SpawnResult(true)), (done, None));
    assert_eq!(step(done, ExecEvent::SkipSignal(true)), (done, None));
    let failed = ExecState::Completed(ExecOutcome::Failure(ErrorKind::Spawn));
    assert_eq!(step(failed, ExecEvent::DrainResult(true)), (failed, None));
}

#[test]
fn unexpected_events_change_nothing() {
    let s = ExecState::Draining;
    assert_eq!(step(s, ExecEvent::SkipSignal(true)), (s, None));
    assert_eq!(
        step(ExecState::CheckSkip, ExecEvent::SpawnResult(true)),
        (ExecState::CheckSkip, None)
    );
}

#[test]
fn display_name_uses_the_lookup_or_the_placeholder() {
    assert_eq!(display_name(Some("fibonacci".to_string())), "fibonacci");
    assert_eq!(display_name(None), "Program");
}

#[test]
fn build_notice_names_program_and_time() {
    assert_eq!(
        build_notice("fibonacci", "2024-01-02 03:04:05"),
        "cargo:warning=fibonacci built at 2024-01-02 03:04:05"
    );
}

#[test]
fn timestamped_notice_has_the_notice_shape() {
    let n = timestamped_build_notice("fibonacci");
    assert!(n.starts_with("cargo:warning=fibonacci built at "));
    assert!(n.len() > "cargo:warning=fibonacci built at ".len());
}

#[test]
fn skip_notice_text() {
    assert_eq!(
        skip_notice(),
        "cargo:warning=Skipping build due to clippy invocation."
    );
}

#[test]
fn fatal_messages_name_their_subject() {
    assert_eq!(
        fatal_message(ErrorKind::Resolution, "../prog"),
        "Failed to get the absolute path of the program directory `../prog`."
    );
    assert_eq!(
        fatal_message(ErrorKind::Spawn, "fibonacci"),
        "Failed to build `fibonacci`."
    );
    assert_eq!(
        fatal_message(ErrorKind::BuildFailed, "fibonacci"),
        "Failed to build `fibonacci`."
    );
    assert_eq!(
        fatal_message(ErrorKind::StreamRead, "fibonacci"),
        "Failed to relay the build output of `fibonacci`."
    );
}
