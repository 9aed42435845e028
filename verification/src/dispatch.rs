//! From an operation selector to the handler it names.
//!
//! An operation is selected by exact match of its flag. Some operations ask
//! the user for values first; the answers come in as the lines that were
//! typed, in the order of the questions. An answer that is missing counts as
//! blank, as a line does that was cut off by the end of the input.

use vstd::prelude::*;

use crate::error::Error;
use crate::handlers::{
    change_file_type, change_file_type_args, change_file_type_output, convert_to_gif,
    convert_to_gif_args, convert_to_gif_output, half_resolution, half_resolution_args,
    half_resolution_output, lemma_blank_times_are_omitted, lemma_gif_defaults,
    lemma_resolution_defaults, re_encode, re_encode_args, re_encode_output, specify_resolution,
    specify_resolution_args, specify_resolution_output, strip_audio, strip_audio_args,
    strip_audio_output, trim, trim_args, trim_output,
};
use crate::operation::{select, selected, Operation};
use crate::parts::{get_file_parts, has_separator};
use crate::text::{is_blank, trim_whitespace, trimmed};

verus! {

/// The value settled by the answer to question `index`: the line that was
/// typed, trimmed, or nothing where no such line came.
pub open spec fn answer(answers: Seq<Seq<char>>, index: int) -> Seq<char> {
    if 0 <= index < answers.len() {
        trimmed(answers[index])
    } else {
        Seq::empty()
    }
}

/// The argument list of `operation` on a path that splits.
pub open spec fn arguments(operation: Operation, path: Seq<char>, answers: Seq<Seq<char>>) -> Seq<
    Seq<char>,
> {
    match operation {
        Operation::HalfResolution => half_resolution_args(path),
        Operation::StripAudio => strip_audio_args(path),
        Operation::ReEncode => re_encode_args(path),
        Operation::Trim => trim_args(path, answer(answers, 0), answer(answers, 1)),
        Operation::SpecifyResolution => specify_resolution_args(
            path,
            answer(answers, 0),
            answer(answers, 1),
        ),
        Operation::ConvertToGif => convert_to_gif_args(
            path,
            answer(answers, 0),
            answer(answers, 1),
        ),
        Operation::ChangeFileType => change_file_type_args(path, answer(answers, 0)),
    }
}

/// The name of the file that `operation` writes for a path that splits.
pub open spec fn output_file(operation: Operation, path: Seq<char>, answers: Seq<Seq<char>>) -> Seq<
    char,
> {
    match operation {
        Operation::HalfResolution => half_resolution_output(path),
        Operation::StripAudio => strip_audio_output(path),
        Operation::ReEncode => re_encode_output(path),
        Operation::Trim => trim_output(path),
        Operation::SpecifyResolution => specify_resolution_output(path),
        Operation::ConvertToGif => convert_to_gif_output(path),
        Operation::ChangeFileType => change_file_type_output(path, answer(answers, 0)),
    }
}

/// Why a request is turned down before anything is asked or built, if it
/// is. An unknown selector is found before the path is looked at.
pub open spec fn refusal(command: Seq<char>, path: Seq<char>) -> Option<Error> {
    if selected(command) is None {
        Some(Error::UnknownCommand)
    } else if !has_separator(path) {
        Some(Error::InvalidPath)
    } else {
        None
    }
}

/// Whatever the operation and the answers, the argument list begins with
/// `-i` and the input path and ends with the operation's output file.
pub proof fn lemma_arguments_frame(operation: Operation, path: Seq<char>, answers: Seq<Seq<char>>)
    ensures
        arguments(operation, path, answers).len() >= 3,
        arguments(operation, path, answers)[0] == "-i"@,
        arguments(operation, path, answers)[1] == path,
        arguments(operation, path, answers).last() == output_file(operation, path, answers),
{
}

/// Where every answer is blank or missing, each operation falls back on its
/// defaults: 1920 by 1080, 10 frames a second at 320 pixels, and no time
/// flags at all.
pub proof fn lemma_blank_answers_take_defaults(path: Seq<char>, answers: Seq<Seq<char>>)
    requires
        forall|i: int| 0 <= i < answers.len() ==> is_blank(#[trigger] answers[i]),
    ensures
        arguments(Operation::SpecifyResolution, path, answers)[3] == "scale=1920:1080"@,
        arguments(Operation::ConvertToGif, path, answers)[3] == "fps=10,scale=320:-1"@,
        arguments(Operation::Trim, path, answers) == seq!["-i"@, path, trim_output(path)],
{
    assert(answer(answers, 0) =~= Seq::<char>::empty());
    assert(answer(answers, 1) =~= Seq::<char>::empty());
    lemma_resolution_defaults(Seq::empty(), Seq::empty());
    lemma_gif_defaults(Seq::empty());
    lemma_blank_times_are_omitted(path, Seq::empty());
}

/// An operation reads as many answers as it asks questions: answers that
/// agree on those give the same argument list, whatever else they hold.
pub proof fn lemma_answers_follow_prompts(
    operation: Operation,
    path: Seq<char>,
    answers: Seq<Seq<char>>,
    others: Seq<Seq<char>>,
)
    requires
        forall|i: int|
            0 <= i < operation.prompt_texts().len() ==> answer(answers, i) == answer(others, i),
    ensures
        arguments(operation, path, answers) == arguments(operation, path, others),
{
}

/// A path without a `.` stops every known operation before anything is
/// asked or built, with the error that ends the program with status 1.
pub proof fn lemma_unsplittable_path_stops(command: Seq<char>, path: Seq<char>)
    requires
        selected(command) is Some,
        !has_separator(path),
    ensures
        refusal(command, path) == Some(Error::InvalidPath),
        Error::InvalidPath.exit_status() == 1,
{
}

/// The answer to question `index`, trimmed; blank where `answers` is too short.
pub fn answer_at(answers: &Vec<String>, index: usize) -> (result: &str)
    ensures
        result@ == answer(answers.deep_view(), index as int),
{
    if index < answers.len() {
        trim_whitespace(answers[index].as_str())
    } else {
        proof {
            reveal_strlit("");
        }
        assert(""@ =~= Seq::<char>::empty());
        ""
    }
}

/// Runs the handler of `operation` on `file_path` with the answers given.
pub fn dispatch(operation: Operation, file_path: &str, answers: &Vec<String>) -> (result: Result<
    Vec<String>,
    Error,
>)
    ensures
        result is Ok <==> has_separator(file_path@),
        result matches Ok(args) ==> args.deep_view() == arguments(
            operation,
            file_path@,
            answers.deep_view(),
        ),
        result matches Err(e) ==> e == Error::InvalidPath,
{
    match operation {
        Operation::HalfResolution => half_resolution(file_path),
        Operation::StripAudio => strip_audio(file_path),
        Operation::ReEncode => re_encode(file_path),
        Operation::Trim => trim(file_path, answer_at(answers, 0), answer_at(answers, 1)),
        Operation::SpecifyResolution => specify_resolution(
            file_path,
            answer_at(answers, 0),
            answer_at(answers, 1),
        ),
        Operation::ConvertToGif => convert_to_gif(
            file_path,
            answer_at(answers, 0),
            answer_at(answers, 1),
        ),
        Operation::ChangeFileType => change_file_type(file_path, answer_at(answers, 0)),
    }
}

/// Dispatches `cmd` to its handler.
///
/// Fails with [`Error::UnknownCommand`] when `cmd` is no selector, and with
/// [`Error::InvalidPath`] when it is one and `file_path` cannot be split;
/// succeeds in every other case, with the handler's argument list.
pub fn map_command(cmd: &str, file_path: &str, answers: &Vec<String>) -> (result: Result<
    Vec<String>,
    Error,
>)
    ensures
        result is Ok <==> refusal(cmd@, file_path@) is None,
        result matches Ok(args) ==> args.deep_view() == arguments(
            selected(cmd@).unwrap(),
            file_path@,
            answers.deep_view(),
        ),
        result matches Err(e) ==> refusal(cmd@, file_path@) == Some(e),
{
    match select(cmd) {
        None => Err(Error::UnknownCommand),
        Some(operation) => dispatch(operation, file_path, answers),
    }
}

/// What has to be asked before `cmd` can run on `file_path`.
///
/// Fails exactly as [`map_command`] does, so that nothing is asked for a
/// request that cannot succeed.
pub fn prompts_for(cmd: &str, file_path: &str) -> (result: Result<Vec<String>, Error>)
    ensures
        result is Ok <==> refusal(cmd@, file_path@) is None,
        result matches Ok(prompts) ==> prompts.deep_view() == selected(
            cmd@,
        ).unwrap().prompt_texts(),
        result matches Err(e) ==> refusal(cmd@, file_path@) == Some(e),
{
    match select(cmd) {
        None => Err(Error::UnknownCommand),
        Some(operation) => match get_file_parts(file_path) {
            Err(e) => Err(e),
            Ok(_) => Ok(operation.prompts()),
        },
    }
}

} // verus!
