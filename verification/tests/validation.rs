use downmix::errors::{ErrorKind, RunError};
use downmix::session::{start, validate_paths, PathStatus, Request, Severity};

fn request(force: bool, quiet: bool) -> Request {
    Request {
        input_path: String::from("movie.mkv"),
        output_path: String::from("movie-stereo.mkv"),
        quiet,
        force,
    }
}

#[test]
fn existing_output_without_force_fails_before_any_tool() {
    let st = PathStatus { input_exists: true, input_is_file: true, output_exists: true };
    let err = start(&request(false, false), &st).unwrap_err();
    assert!(matches!(err, RunError::OutputExists));
    assert_eq!(err.kind(), ErrorKind::PathValidation);
}

#[test]
fn existing_output_with_force_proceeds() {
    let st = PathStatus { input_exists: true, input_is_file: true, output_exists: true };
    let plan = start(&request(true, false), &st).unwrap();
    assert_eq!(plan.program, "ffprobe");
    assert_eq!(plan.args[0], "movie.mkv");
}

#[test]
fn missing_input_fails_validation() {
    let st = PathStatus { input_exists: false, input_is_file: false, output_exists: false };
    let err = validate_paths(&st, false).unwrap_err();
    assert!(matches!(err, RunError::InputMissing));
    assert_eq!(err.kind(), ErrorKind::PathValidation);
}

#[test]
fn directory_input_fails_validation() {
    let st = PathStatus { input_exists: true, input_is_file: false, output_exists: false };
    let err = validate_paths(&st, true).unwrap_err();
    assert!(matches!(err, RunError::InputNotFile));
}

#[test]
fn fresh_paths_pass_validation() {
    let st = PathStatus { input_exists: true, input_is_file: true, output_exists: false };
    assert!(validate_paths(&st, false).is_ok());
}

#[test]
fn start_plans_the_probe_invocation() {
    let st = PathStatus { input_exists: true, input_is_file: true, output_exists: false };
    let plan = start(&request(false, false), &st).unwrap();
    assert_eq!(plan.program, "ffprobe");
    assert_eq!(
        plan.args,
        vec!["movie.mkv", "-show_streams", "-loglevel", "error", "-print_format", "json"]
    );
}

#[test]
fn quiet_mode_suppresses_only_informational_lines() {
    assert!(!downmix::session::should_emit(true, Severity::Info));
    assert!(downmix::session::should_emit(true, Severity::Warning));
    assert!(downmix::session::should_emit(true, Severity::Error));
    assert!(downmix::session::should_emit(false, Severity::Info));
}
