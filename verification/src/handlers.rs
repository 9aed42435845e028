//! The seven operations: for each, the name of the file it writes and the
//! ordered argument list that makes `ffmpeg` write it.
//!
//! A handler takes the input path and the values the user settled on. It
//! uses a value as it stands: the white space around a typed line is removed
//! on the way here, by [`crate::dispatch::answer_at`]. An empty value stands
//! for an answer left blank. Every handler fails with [`Error::InvalidPath`]
//! exactly when the path cannot be split, and builds nothing in that case.

use vstd::prelude::*;

use crate::error::Error;
use crate::parts::{extension_of, get_file_parts, has_separator, stem_of};
use crate::text::{join3, push_text};

verus! {

/// `answer`, or `default` where the answer was left blank.
pub open spec fn or_default(answer: Seq<char>, default: Seq<char>) -> Seq<char> {
    if answer.len() == 0 {
        default
    } else {
        answer
    }
}

/// Picks `default` where `answer` is blank.
pub fn answer_or<'a>(answer: &'a str, default: &'a str) -> (result: &'a str)
    ensures
        result@ == or_default(answer@, default@),
{
    if answer.is_empty() {
        default
    } else {
        answer
    }
}

/// The output name of the operations that keep the extension: the stem, a
/// tag that ends in `.`, and the extension.
pub open spec fn tagged_name(path: Seq<char>, tag: Seq<char>) -> Seq<char> {
    stem_of(path) + tag + extension_of(path)
}

/// Output name of `half_resolution`: `<stem>_half.<ext>`.
pub open spec fn half_resolution_output(path: Seq<char>) -> Seq<char> {
    tagged_name(path, "_half."@)
}

/// Arguments of `half_resolution`: `-i <in> -vf scale=iw/2:ih/2 <out>`.
pub open spec fn half_resolution_args(path: Seq<char>) -> Seq<Seq<char>> {
    seq!["-i"@, path, "-vf"@, "scale=iw/2:ih/2"@, half_resolution_output(path)]
}

/// Re-encodes the video at half its width and height.
pub fn half_resolution(file_path: &str) -> (result: Result<Vec<String>, Error>)
    ensures
        result is Ok <==> has_separator(file_path@),
        result matches Ok(args) ==> args.deep_view() == half_resolution_args(file_path@),
        result matches Err(e) ==> e == Error::InvalidPath,
{
    match get_file_parts(file_path) {
        Err(e) => Err(e),
        Ok(parts) => {
            let output_file = join3(parts.stem.as_str(), "_half.", parts.extension.as_str());
            let mut args: Vec<String> = Vec::new();
            push_text(&mut args, "-i");
            push_text(&mut args, file_path);
            push_text(&mut args, "-vf");
            push_text(&mut args, "scale=iw/2:ih/2");
            push_text(&mut args, output_file.as_str());
            assert(args.deep_view() =~= half_resolution_args(file_path@));
            Ok(args)
        },
    }
}

/// Output name of `strip_audio`: `<stem>_no_audio.<ext>`.
pub open spec fn strip_audio_output(path: Seq<char>) -> Seq<char> {
    tagged_name(path, "_no_audio."@)
}

/// Arguments of `strip_audio`: `-i <in> -an <out>`.
pub open spec fn strip_audio_args(path: Seq<char>) -> Seq<Seq<char>> {
    seq!["-i"@, path, "-an"@, strip_audio_output(path)]
}

/// Copies the video without its audio track.
pub fn strip_audio(file_path: &str) -> (result: Result<Vec<String>, Error>)
    ensures
        result is Ok <==> has_separator(file_path@),
        result matches Ok(args) ==> args.deep_view() == strip_audio_args(file_path@),
        result matches Err(e) ==> e == Error::InvalidPath,
{
    match get_file_parts(file_path) {
        Err(e) => Err(e),
        Ok(parts) => {
            let output_file = join3(parts.stem.as_str(), "_no_audio.", parts.extension.as_str());
            let mut args: Vec<String> = Vec::new();
            push_text(&mut args, "-i");
            push_text(&mut args, file_path);
            push_text(&mut args, "-an");
            push_text(&mut args, output_file.as_str());
            assert(args.deep_view() =~= strip_audio_args(file_path@));
            Ok(args)
        },
    }
}

/// Output name of `re_encode`: `<stem>_simple.<ext>`.
pub open spec fn re_encode_output(path: Seq<char>) -> Seq<char> {
    tagged_name(path, "_simple."@)
}

/// Arguments of `re_encode`: `-i <in> <out>`.
pub open spec fn re_encode_args(path: Seq<char>) -> Seq<Seq<char>> {
    seq!["-i"@, path, re_encode_output(path)]
}

/// Re-encodes the video with the transcoder's own defaults.
pub fn re_encode(file_path: &str) -> (result: Result<Vec<String>, Error>)
    ensures
        result is Ok <==> has_separator(file_path@),
        result matches Ok(args) ==> args.deep_view() == re_encode_args(file_path@),
        result matches Err(e) ==> e == Error::InvalidPath,
{
    match get_file_parts(file_path) {
        Err(e) => Err(e),
        Ok(parts) => {
            let output_file = join3(parts.stem.as_str(), "_simple.", parts.extension.as_str());
            let mut args: Vec<String> = Vec::new();
            push_text(&mut args, "-i");
            push_text(&mut args, file_path);
            push_text(&mut args, output_file.as_str());
            assert(args.deep_view() =~= re_encode_args(file_path@));
            Ok(args)
        },
    }
}

/// Output name of `specify_resolution`: `<stem>_res.<ext>`.
pub open spec fn specify_resolution_output(path: Seq<char>) -> Seq<char> {
    tagged_name(path, "_res."@)
}

/// The scaling filter `scale=<width>:<height>`, with 1920 and 1080 in place
/// of a blank width and height.
pub open spec fn resolution_filter(width: Seq<char>, height: Seq<char>) -> Seq<char> {
    "scale="@ + or_default(width, "1920"@) + ":"@ + or_default(height, "1080"@)
}

/// Arguments of `specify_resolution`: `-i <in> -vf scale=<w>:<h> <out>`.
pub open spec fn specify_resolution_args(
    path: Seq<char>,
    width: Seq<char>,
    height: Seq<char>,
) -> Seq<Seq<char>> {
    seq!["-i"@, path, "-vf"@, resolution_filter(width, height), specify_resolution_output(path)]
}

/// Scales the video to `width` by `height`. A blank width means 1920, a
/// blank height 1080.
pub fn specify_resolution(file_path: &str, width: &str, height: &str) -> (result: Result<
    Vec<String>,
    Error,
>)
    ensures
        result is Ok <==> has_separator(file_path@),
        result matches Ok(args) ==> args.deep_view() == specify_resolution_args(
            file_path@,
            width@,
            height@,
        ),
        result matches Err(e) ==> e == Error::InvalidPath,
{
    match get_file_parts(file_path) {
        Err(e) => Err(e),
        Ok(parts) => {
            let output_file = join3(parts.stem.as_str(), "_res.", parts.extension.as_str());
            let mut filter = join3("scale=", answer_or(width, "1920"), ":");
            filter.append(answer_or(height, "1080"));
            let mut args: Vec<String> = Vec::new();
            push_text(&mut args, "-i");
            push_text(&mut args, file_path);
            push_text(&mut args, "-vf");
            push_text(&mut args, filter.as_str());
            push_text(&mut args, output_file.as_str());
            assert(args.deep_view() =~= specify_resolution_args(file_path@, width@, height@));
            Ok(args)
        },
    }
}

/// Output name of `trim`: `<stem>_trimmed.<ext>`.
pub open spec fn trim_output(path: Seq<char>) -> Seq<char> {
    tagged_name(path, "_trimmed."@)
}

/// A flag with its time, or nothing at all where the time was left blank.
pub open spec fn time_option(flag: Seq<char>, time: Seq<char>) -> Seq<Seq<char>> {
    if time.len() == 0 {
        seq![]
    } else {
        seq![flag, time]
    }
}

/// Arguments of `trim`: `-i <in> [-ss <start>] [-to <end>] <out>`.
pub open spec fn trim_args(path: Seq<char>, start_time: Seq<char>, end_time: Seq<char>) -> Seq<
    Seq<char>,
> {
    seq!["-i"@, path] + time_option("-ss"@, start_time) + time_option("-to"@, end_time)
        + seq![trim_output(path)]
}

/// Cuts the video down to the span from `start_time` to `end_time`. A blank
/// time leaves that end of the video as it is, and its flag out.
pub fn trim(file_path: &str, start_time: &str, end_time: &str) -> (result: Result<
    Vec<String>,
    Error,
>)
    ensures
        result is Ok <==> has_separator(file_path@),
        result matches Ok(args) ==> args.deep_view() == trim_args(
            file_path@,
            start_time@,
            end_time@,
        ),
        result matches Err(e) ==> e == Error::InvalidPath,
{
    match get_file_parts(file_path) {
        Err(e) => Err(e),
        Ok(parts) => {
            let output_file = join3(parts.stem.as_str(), "_trimmed.", parts.extension.as_str());
            let mut args: Vec<String> = Vec::new();
            push_text(&mut args, "-i");
            push_text(&mut args, file_path);
            if !start_time.is_empty() {
                push_text(&mut args, "-ss");
                push_text(&mut args, start_time);
            }
            if !end_time.is_empty() {
                push_text(&mut args, "-to");
                push_text(&mut args, end_time);
            }
            push_text(&mut args, output_file.as_str());
            assert(args.deep_view() =~= trim_args(file_path@, start_time@, end_time@));
            Ok(args)
        },
    }
}

/// Output name of `convert_to_gif`: `<stem>.gif`.
pub open spec fn convert_to_gif_output(path: Seq<char>) -> Seq<char> {
    stem_of(path) + ".gif"@
}

/// The filter `fps=<fps>,scale=<scale>:-1`, with 10 and 320 in place of a
/// blank frame rate and scale.
pub open spec fn gif_filter(fps: Seq<char>, scale: Seq<char>) -> Seq<char> {
    "fps="@ + or_default(fps, "10"@) + ",scale="@ + or_default(scale, "320"@) + ":-1"@
}

/// Arguments of `convert_to_gif`:
/// `-i <in> -vf fps=<fps>,scale=<scale>:-1 -gifflags +transdiff -y <out>`.
pub open spec fn convert_to_gif_args(path: Seq<char>, fps: Seq<char>, scale: Seq<char>) -> Seq<
    Seq<char>,
> {
    seq![
        "-i"@,
        path,
        "-vf"@,
        gif_filter(fps, scale),
        "-gifflags"@,
        "+transdiff"@,
        "-y"@,
        convert_to_gif_output(path),
    ]
}

/// Turns the video into an animated GIF of `fps` frames a second, `scale`
/// pixels wide. A blank frame rate means 10, a blank scale 320.
pub fn convert_to_gif(file_path: &str, fps: &str, scale: &str) -> (result: Result<
    Vec<String>,
    Error,
>)
    ensures
        result is Ok <==> has_separator(file_path@),
        result matches Ok(args) ==> args.deep_view() == convert_to_gif_args(
            file_path@,
            fps@,
            scale@,
        ),
        result matches Err(e) ==> e == Error::InvalidPath,
{
    match get_file_parts(file_path) {
        Err(e) => Err(e),
        Ok(parts) => {
            let mut output_file = String::from_str(parts.stem.as_str());
            output_file.append(".gif");
            let mut filter = join3("fps=", answer_or(fps, "10"), ",scale=");
            filter.append(answer_or(scale, "320"));
            filter.append(":-1");
            let mut args: Vec<String> = Vec::new();
            push_text(&mut args, "-i");
            push_text(&mut args, file_path);
            push_text(&mut args, "-vf");
            push_text(&mut args, filter.as_str());
            push_text(&mut args, "-gifflags");
            push_text(&mut args, "+transdiff");
            push_text(&mut args, "-y");
            push_text(&mut args, output_file.as_str());
            assert(args.deep_view() =~= convert_to_gif_args(file_path@, fps@, scale@));
            Ok(args)
        },
    }
}

/// `extension` with a `.` in front, unless it begins with one already.
pub open spec fn dotted(extension: Seq<char>) -> Seq<char> {
    if extension.len() > 0 && extension.first() == '.' {
        extension
    } else {
        "."@ + extension
    }
}

/// Output name of `change_file_type`: `<stem>_<ext>_to_<.new>`, where
/// `<.new>` is the target extension with its leading `.`.
pub open spec fn change_file_type_output(path: Seq<char>, extension: Seq<char>) -> Seq<char> {
    stem_of(path) + "_"@ + extension_of(path) + "_to_"@ + dotted(extension)
}

/// Arguments of `change_file_type`: `-i <in> <out>`.
pub open spec fn change_file_type_args(path: Seq<char>, extension: Seq<char>) -> Seq<Seq<char>> {
    seq!["-i"@, path, change_file_type_output(path, extension)]
}

/// Puts a `.` in front of `extension` unless it begins with one.
pub fn with_leading_dot(extension: &str) -> (result: String)
    ensures
        result@ == dotted(extension@),
{
    if !extension.is_empty() && extension.get_char(0) == '.' {
        String::from_str(extension)
    } else {
        let mut result = String::from_str(".");
        result.append(extension);
        result
    }
}

/// Converts the file to the container that `extension` names. The
/// extension may be given with or without its leading `.`; a blank one is
/// not replaced by anything, and the output name then ends in a bare `.`.
pub fn change_file_type(file_path: &str, extension: &str) -> (result: Result<Vec<String>, Error>)
    ensures
        result is Ok <==> has_separator(file_path@),
        result matches Ok(args) ==> args.deep_view() == change_file_type_args(
            file_path@,
            extension@,
        ),
        result matches Err(e) ==> e == Error::InvalidPath,
{
    match get_file_parts(file_path) {
        Err(e) => Err(e),
        Ok(parts) => {
            let target = with_leading_dot(extension);
            let mut output_file = join3(parts.stem.as_str(), "_", parts.extension.as_str());
            output_file.append("_to_");
            output_file.append(target.as_str());
            let mut args: Vec<String> = Vec::new();
            push_text(&mut args, "-i");
            push_text(&mut args, file_path);
            push_text(&mut args, output_file.as_str());
            assert(args.deep_view() =~= change_file_type_args(file_path@, extension@));
            Ok(args)
        },
    }
}

/// With width and height both left blank the filter asks for 1920 by 1080;
/// a value that was given stands in the filter as it is.
pub proof fn lemma_resolution_defaults(width: Seq<char>, height: Seq<char>)
    ensures
        resolution_filter(Seq::empty(), Seq::empty()) == "scale=1920:1080"@,
        width.len() > 0 && height.len() > 0 ==> resolution_filter(width, height) == "scale="@
            + width + ":"@ + height,
{
    reveal_strlit("scale=");
    reveal_strlit("1920");
    reveal_strlit(":");
    reveal_strlit("1080");
    reveal_strlit("scale=1920:1080");
    assert(resolution_filter(Seq::empty(), Seq::empty()) =~= "scale=1920:1080"@);
}

/// With frame rate and scale both left blank the filter asks for 10 frames
/// a second at 320 pixels; a frame rate given alone changes nothing but the
/// frame rate.
pub proof fn lemma_gif_defaults(fps: Seq<char>)
    ensures
        gif_filter(Seq::empty(), Seq::empty()) == "fps=10,scale=320:-1"@,
        fps.len() > 0 ==> gif_filter(fps, Seq::empty()) == "fps="@ + fps + ",scale=320:-1"@,
{
    reveal_strlit("fps=");
    reveal_strlit("10");
    reveal_strlit(",scale=");
    reveal_strlit("320");
    reveal_strlit(":-1");
    reveal_strlit("fps=10,scale=320:-1");
    reveal_strlit(",scale=320:-1");
    assert(gif_filter(Seq::empty(), Seq::empty()) =~= "fps=10,scale=320:-1"@);
    assert(gif_filter(fps, Seq::empty()) =~= "fps="@ + or_default(fps, "10"@)
        + ",scale=320:-1"@);
}

/// A time left blank leaves its flag out altogether: with both blank the
/// list is input and output alone, with an end time alone it holds `-to`
/// and that time and no `-ss`.
pub proof fn lemma_blank_times_are_omitted(path: Seq<char>, end_time: Seq<char>)
    ensures
        trim_args(path, Seq::empty(), Seq::empty()) == seq!["-i"@, path, trim_output(path)],
        end_time.len() > 0 ==> trim_args(path, Seq::empty(), end_time) == seq![
            "-i"@,
            path,
            "-to"@,
            end_time,
            trim_output(path),
        ],
{
    assert(trim_args(path, Seq::empty(), Seq::empty()) =~= seq!["-i"@, path, trim_output(path)]);
    if end_time.len() > 0 {
        assert(trim_args(path, Seq::empty(), end_time) =~= seq![
            "-i"@,
            path,
            "-to"@,
            end_time,
            trim_output(path),
        ]);
    }
}

/// Putting the `.` in front is idempotent: the result begins with a `.`,
/// and doing it again changes nothing.
pub proof fn lemma_dotted_is_idempotent(extension: Seq<char>)
    ensures
        dotted(extension).len() > 0,
        dotted(extension).first() == '.',
        dotted(dotted(extension)) == dotted(extension),
{
    reveal_strlit(".");
}

/// An extension names the same target with or without its `.`: for one
/// that comes without, `change_file_type` builds what it builds for the
/// same extension with the `.` in front.
pub proof fn lemma_leading_dot_is_optional(path: Seq<char>, extension: Seq<char>)
    requires
        extension.len() == 0 || extension.first() != '.',
    ensures
        dotted("."@ + extension) == dotted(extension),
        change_file_type_args(path, "."@ + extension) == change_file_type_args(path, extension),
{
    reveal_strlit(".");
}

} // verus!
