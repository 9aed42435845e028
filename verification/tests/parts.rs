use ffmpeg_cli::error::Error;
use ffmpeg_cli::parts::get_file_parts;

fn split(path: &str) -> (String, String) {
    let parts = get_file_parts(path).expect("the path holds a separator");
    (parts.stem, parts.extension)
}

#[test]
fn splits_a_plain_file_name() {
    assert_eq!(split("movie.mp4"), ("movie".to_string(), "mp4".to_string()));
}

#[test]
fn splits_at_the_last_separator_only() {
    assert_eq!(split("archive.tar.gz"), ("archive.tar".to_string(), "gz".to_string()));
    assert_eq!(split("a.b.c.d"), ("a.b.c".to_string(), "d".to_string()));
}

#[test]
fn keeps_the_directory_prefix_in_the_stem() {
    assert_eq!(split("/home/me/clips/movie.mov"), ("/home/me/clips/movie".to_string(), "mov".to_string()));
    assert_eq!(split("./movie.mkv"), ("./movie".to_string(), "mkv".to_string()));
}

#[test]
fn a_separator_in_a_directory_name_counts_when_it_is_the_last() {
    assert_eq!(split("clips.d/movie"), ("clips".to_string(), "d/movie".to_string()));
}

#[test]
fn accepts_an_empty_stem_or_an_empty_extension() {
    assert_eq!(split(".bashrc"), ("".to_string(), "bashrc".to_string()));
    assert_eq!(split("movie."), ("movie".to_string(), "".to_string()));
    assert_eq!(split("."), ("".to_string(), "".to_string()));
    assert_eq!(split(".."), (".".to_string(), "".to_string()));
}

#[test]
fn counts_characters_not_bytes() {
    assert_eq!(split("vidéo.mp4"), ("vidéo".to_string(), "mp4".to_string()));
    assert_eq!(split("映画.ムービー"), ("映画".to_string(), "ムービー".to_string()));
    assert_eq!(split("a.é"), ("a".to_string(), "é".to_string()));
}

#[test]
fn rejects_a_path_without_separator() {
    assert_eq!(get_file_parts("movie").err(), Some(Error::InvalidPath));
    assert_eq!(get_file_parts("").err(), Some(Error::InvalidPath));
    assert_eq!(get_file_parts("/home/me/movie").err(), Some(Error::InvalidPath));
    assert_eq!(get_file_parts("vidéo").err(), Some(Error::InvalidPath));
}

#[test]
fn stem_separator_and_extension_rejoin_to_the_path() {
    for path in ["movie.mp4", "a.b.c", ".x", "x.", "clips.d/movie", "vidéo.final.mp4", "."] {
        let (stem, extension) = split(path);
        assert_eq!(format!("{}.{}", stem, extension), path);
        assert!(!extension.contains('.'));
    }
}

#[test]
fn splits_a_long_path() {
    let stem = "x".repeat(2000);
    let path = format!("{}.mp4", stem);
    assert_eq!(split(&path), (stem, "mp4".to_string()));
}
