use ffmpeg_cli::cli::{message, parse_arguments, usage};
use ffmpeg_cli::error::Error;
use ffmpeg_cli::invoker::{check_status, tool};

fn list(items: &[&str]) -> Vec<String> {
    items.iter().map(|item| item.to_string()).collect()
}

#[test]
fn parse_arguments_takes_selector_and_path() {
    let request = parse_arguments(&list(&["ffmpeg_cli", "-trim", "movie.mp4"])).ok().unwrap();
    assert_eq!(request.command, "-trim");
    assert_eq!(request.file_path, "movie.mp4");
}

#[test]
fn parse_arguments_ignores_what_follows_the_path() {
    let request =
        parse_arguments(&list(&["ffmpeg_cli", "-trim", "movie.mp4", "extra", "more"])).ok().unwrap();
    assert_eq!(request.command, "-trim");
    assert_eq!(request.file_path, "movie.mp4");
}

#[test]
fn parse_arguments_does_not_judge_the_selector() {
    let request = parse_arguments(&list(&["ffmpeg_cli", "-shrink", "movie"])).ok().unwrap();
    assert_eq!(request.command, "-shrink");
    assert_eq!(request.file_path, "movie");
}

#[test]
fn parse_arguments_rejects_fewer_than_two_arguments() {
    assert_eq!(parse_arguments(&list(&[])).err(), Some(Error::Usage));
    assert_eq!(parse_arguments(&list(&["ffmpeg_cli"])).err(), Some(Error::Usage));
    assert_eq!(parse_arguments(&list(&["ffmpeg_cli", "-trim"])).err(), Some(Error::Usage));
}

#[test]
fn exit_codes() {
    assert_eq!(Error::Usage.exit_code(), 1);
    assert_eq!(Error::InvalidPath.exit_code(), 1);
    assert_eq!(Error::UnknownCommand.exit_code(), 0);
    assert_eq!(Error::ToolFailed.exit_code(), 0);
}

#[test]
fn too_few_arguments_end_with_status_1() {
    for args in [list(&[]), list(&["p"]), list(&["p", "-half_resolution"])] {
        let error = parse_arguments(&args).err().unwrap();
        assert_eq!(error.exit_code(), 1);
    }
}

#[test]
fn check_status_reports_a_failed_run() {
    assert_eq!(check_status(true), Ok(()));
    assert_eq!(check_status(false), Err(Error::ToolFailed));
}

#[test]
fn a_failed_run_leaves_the_exit_status_at_0() {
    assert_eq!(check_status(false).err().unwrap().exit_code(), 0);
}

#[test]
fn the_transcoder_is_ffmpeg() {
    assert_eq!(tool(), "ffmpeg");
}

#[test]
fn usage_lists_every_operation() {
    let expected = "Usage:\n\
        \t-half_resolution <file_path>\n\t\tRe-encode video to mp4 and half the resolution.\n\
        \t-strip_audio <file_path>\n\t\tStrip audio\n\
        \t-re_encode <file_path>\n\t\tRe encode the video to mp4\n\
        \t-trim <file_path>\n\t\tTrim the video to a start and end time\n\
        \t-specify_resolution <file_path>\n\t\tSpecify the width and height\n\
        \t-convert_to_gif <file_path>\n\t\tMake a gif specifying the scale and fps\n\
        \t-change_file_type <file_path>\n\t\tChange video type ex from .mp4 to .mov";
    assert_eq!(usage(), expected);
}

#[test]
fn message_of_each_error() {
    assert_eq!(message(Error::Usage, "", ""), usage());
    assert_eq!(message(Error::Usage, "-trim", "movie.mp4"), usage());
    assert_eq!(message(Error::UnknownCommand, "-shrink", "movie.mp4"), "Unknown command: -shrink");
    assert_eq!(message(Error::InvalidPath, "-trim", "movie"), "Invalid file path: movie");
    assert_eq!(message(Error::ToolFailed, "-trim", "movie.mp4"), "Failed to halve resolution of file!");
}
