use ffmpeg_cli::error::Error;
use ffmpeg_cli::handlers::{
    answer_or, change_file_type, convert_to_gif, half_resolution, re_encode, specify_resolution,
    strip_audio, trim, with_leading_dot,
};

fn list(items: &[&str]) -> Vec<String> {
    items.iter().map(|item| item.to_string()).collect()
}

#[test]
fn half_resolution_of_movie_mp4() {
    assert_eq!(
        half_resolution("movie.mp4"),
        Ok(list(&["-i", "movie.mp4", "-vf", "scale=iw/2:ih/2", "movie_half.mp4"]))
    );
}

#[test]
fn half_resolution_keeps_directory_and_inner_separators() {
    assert_eq!(
        half_resolution("clips/holiday.2024.mkv"),
        Ok(list(&[
            "-i",
            "clips/holiday.2024.mkv",
            "-vf",
            "scale=iw/2:ih/2",
            "clips/holiday.2024_half.mkv"
        ]))
    );
}

#[test]
fn strip_audio_of_movie_mp4() {
    assert_eq!(
        strip_audio("movie.mp4"),
        Ok(list(&["-i", "movie.mp4", "-an", "movie_no_audio.mp4"]))
    );
}

#[test]
fn re_encode_of_movie_mp4() {
    assert_eq!(re_encode("movie.mp4"), Ok(list(&["-i", "movie.mp4", "movie_simple.mp4"])));
}

#[test]
fn specify_resolution_with_blank_answers_uses_1920_by_1080() {
    assert_eq!(
        specify_resolution("movie.mp4", "", ""),
        Ok(list(&["-i", "movie.mp4", "-vf", "scale=1920:1080", "movie_res.mp4"]))
    );
}

#[test]
fn specify_resolution_with_both_values() {
    assert_eq!(
        specify_resolution("movie.mp4", "640", "480"),
        Ok(list(&["-i", "movie.mp4", "-vf", "scale=640:480", "movie_res.mp4"]))
    );
}

#[test]
fn specify_resolution_defaults_each_value_on_its_own() {
    assert_eq!(specify_resolution("m.mp4", "640", "").unwrap()[3], "scale=640:1080");
    assert_eq!(specify_resolution("m.mp4", "", "480").unwrap()[3], "scale=1920:480");
}

#[test]
fn specify_resolution_passes_values_through_unchecked() {
    assert_eq!(specify_resolution("m.mp4", "-1", "iw/3").unwrap()[3], "scale=-1:iw/3");
}

#[test]
fn trim_with_blank_times_has_neither_flag() {
    assert_eq!(
        trim("movie.mp4", "", ""),
        Ok(list(&["-i", "movie.mp4", "movie_trimmed.mp4"]))
    );
}

#[test]
fn trim_with_end_time_only_has_to_and_no_ss() {
    let args = trim("movie.mp4", "", "00:01:30").unwrap();
    assert_eq!(args, list(&["-i", "movie.mp4", "-to", "00:01:30", "movie_trimmed.mp4"]));
    assert!(!args.contains(&"-ss".to_string()));
}

#[test]
fn trim_with_start_time_only_has_ss_and_no_to() {
    let args = trim("movie.mp4", "15", "").unwrap();
    assert_eq!(args, list(&["-i", "movie.mp4", "-ss", "15", "movie_trimmed.mp4"]));
    assert!(!args.contains(&"-to".to_string()));
}

#[test]
fn trim_with_both_times_puts_start_before_end() {
    assert_eq!(
        trim("movie.mp4", "00:00:05", "00:00:10"),
        Ok(list(&[
            "-i",
            "movie.mp4",
            "-ss",
            "00:00:05",
            "-to",
            "00:00:10",
            "movie_trimmed.mp4"
        ]))
    );
}

#[test]
fn convert_to_gif_with_blank_answers_uses_10_and_320() {
    assert_eq!(
        convert_to_gif("movie.mp4", "", ""),
        Ok(list(&[
            "-i",
            "movie.mp4",
            "-vf",
            "fps=10,scale=320:-1",
            "-gifflags",
            "+transdiff",
            "-y",
            "movie.gif"
        ]))
    );
}

#[test]
fn convert_to_gif_with_fps_24() {
    assert_eq!(convert_to_gif("movie.mp4", "24", "").unwrap()[3], "fps=24,scale=320:-1");
}

#[test]
fn convert_to_gif_with_scale_or_both() {
    assert_eq!(convert_to_gif("movie.mp4", "", "480").unwrap()[3], "fps=10,scale=480:-1");
    assert_eq!(convert_to_gif("movie.mp4", "15", "640").unwrap()[3], "fps=15,scale=640:-1");
}

#[test]
fn convert_to_gif_drops_the_extension() {
    assert_eq!(convert_to_gif("a.b.webm", "", "").unwrap()[7], "a.b.gif");
}

#[test]
fn change_file_type_adds_the_missing_dot() {
    assert_eq!(
        change_file_type("movie.mp4", "mp3"),
        Ok(list(&["-i", "movie.mp4", "movie_mp4_to_.mp3"]))
    );
}

#[test]
fn change_file_type_keeps_a_dot_that_is_there() {
    assert_eq!(
        change_file_type("movie.mp4", ".mp3"),
        Ok(list(&["-i", "movie.mp4", "movie_mp4_to_.mp3"]))
    );
    assert_eq!(change_file_type("movie.mp4", ".mp3"), change_file_type("movie.mp4", "mp3"));
}

#[test]
fn change_file_type_with_blank_extension_ends_in_a_bare_dot() {
    assert_eq!(
        change_file_type("movie.mp4", ""),
        Ok(list(&["-i", "movie.mp4", "movie_mp4_to_."]))
    );
}

#[test]
fn with_leading_dot_is_idempotent() {
    for extension in ["mp3", ".mp3", "", ".", "..mov", "tar.gz", "é"] {
        let once = with_leading_dot(extension);
        assert!(once.starts_with('.'));
        assert_eq!(with_leading_dot(&once), once);
    }
    assert_eq!(with_leading_dot("mov"), ".mov");
    assert_eq!(with_leading_dot(".mov"), ".mov");
    assert_eq!(with_leading_dot(""), ".");
    assert_eq!(with_leading_dot("..mov"), "..mov");
}

#[test]
fn answer_or_picks_the_default_for_a_blank_answer_only() {
    assert_eq!(answer_or("", "1920"), "1920");
    assert_eq!(answer_or("640", "1920"), "640");
    assert_eq!(answer_or(" ", "1920"), " ");
}

#[test]
fn every_handler_rejects_a_path_without_separator() {
    assert_eq!(half_resolution("movie"), Err(Error::InvalidPath));
    assert_eq!(strip_audio("movie"), Err(Error::InvalidPath));
    assert_eq!(re_encode("movie"), Err(Error::InvalidPath));
    assert_eq!(specify_resolution("movie", "640", "480"), Err(Error::InvalidPath));
    assert_eq!(trim("movie", "1", "2"), Err(Error::InvalidPath));
    assert_eq!(convert_to_gif("movie", "", ""), Err(Error::InvalidPath));
    assert_eq!(change_file_type("movie", "mp3"), Err(Error::InvalidPath));
    assert_eq!(half_resolution(""), Err(Error::InvalidPath));
}

#[test]
fn every_argument_list_begins_with_the_input_and_ends_with_the_output() {
    let path = "dir/movie.mp4";
    let lists = [
        (half_resolution(path).unwrap(), "dir/movie_half.mp4"),
        (strip_audio(path).unwrap(), "dir/movie_no_audio.mp4"),
        (re_encode(path).unwrap(), "dir/movie_simple.mp4"),
        (specify_resolution(path, "1", "2").unwrap(), "dir/movie_res.mp4"),
        (trim(path, "1", "2").unwrap(), "dir/movie_trimmed.mp4"),
        (convert_to_gif(path, "1", "2").unwrap(), "dir/movie.gif"),
        (change_file_type(path, "mov").unwrap(), "dir/movie_mp4_to_.mov"),
    ];
    for (args, output) in lists {
        assert_eq!(args[0], "-i");
        assert_eq!(args[1], path);
        assert_eq!(args[args.len() - 1], output);
        assert_eq!(args.iter().filter(|arg| arg.as_str() == output).count(), 1);
    }
}

#[test]
fn handlers_count_characters_not_bytes() {
    assert_eq!(
        half_resolution("vidéo.mp4"),
        Ok(list(&["-i", "vidéo.mp4", "-vf", "scale=iw/2:ih/2", "vidéo_half.mp4"]))
    );
    assert_eq!(change_file_type("vidéo.mp4", "é").unwrap()[2], "vidéo_mp4_to_.é");
}
