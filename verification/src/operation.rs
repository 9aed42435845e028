//! The operations on offer: how each is named on the command line, what it
//! does in a line of help, and what it asks of the user before it runs.

use vstd::prelude::*;

use crate::text::{push_text, same_text};

verus! {

/// The supported operations, in the order in which the usage text lists them.
#[derive(Clone, Copy, Debug, PartialEq, Eq, Structural)]
pub enum Operation {
    HalfResolution,
    StripAudio,
    ReEncode,
    Trim,
    SpecifyResolution,
    ConvertToGif,
    ChangeFileType,
}

impl Operation {
    /// The selector that names this operation on the command line.
    pub open spec fn flag_text(self) -> Seq<char> {
        match self {
            Operation::HalfResolution => "-half_resolution"@,
            Operation::StripAudio => "-strip_audio"@,
            Operation::ReEncode => "-re_encode"@,
            Operation::Trim => "-trim"@,
            Operation::SpecifyResolution => "-specify_resolution"@,
            Operation::ConvertToGif => "-convert_to_gif"@,
            Operation::ChangeFileType => "-change_file_type"@,
        }
    }

    /// One line of help on what this operation does.
    pub open spec fn description_text(self) -> Seq<char> {
        match self {
            Operation::HalfResolution => "Re-encode video to mp4 and half the resolution."@,
            Operation::StripAudio => "Strip audio"@,
            Operation::ReEncode => "Re encode the video to mp4"@,
            Operation::Trim => "Trim the video to a start and end time"@,
            Operation::SpecifyResolution => "Specify the width and height"@,
            Operation::ConvertToGif => "Make a gif specifying the scale and fps"@,
            Operation::ChangeFileType => "Change video type ex from .mp4 to .mov"@,
        }
    }

    /// The questions put to the user before this operation runs, in order.
    pub open spec fn prompt_texts(self) -> Seq<Seq<char>> {
        match self {
            Operation::Trim => seq![
                "Enter start time (hh:mm:ss or seconds or press enter to skip): "@,
                "Enter end time (hh:mm:ss or seconds or press enter to skip): "@,
            ],
            Operation::SpecifyResolution => seq![
                "Enter a width (press enter for 1920): "@,
                "Enter a height (press enter for 1080): "@,
            ],
            Operation::ConvertToGif => seq![
                "Enter fps (press enter for 10): "@,
                "Enter scale (press enter for 320): "@,
            ],
            Operation::ChangeFileType => seq![
                "Enter a valid video or audio extension (EX: .mp3): "@,
            ],
            _ => seq![],
        }
    }

    /// The selector that names this operation on the command line.
    pub fn flag(self) -> (result: &'static str)
        ensures
            result@ == self.flag_text(),
    {
        match self {
            Operation::HalfResolution => "-half_resolution",
            Operation::StripAudio => "-strip_audio",
            Operation::ReEncode => "-re_encode",
            Operation::Trim => "-trim",
            Operation::SpecifyResolution => "-specify_resolution",
            Operation::ConvertToGif => "-convert_to_gif",
            Operation::ChangeFileType => "-change_file_type",
        }
    }

    /// One line of help on what this operation does.
    pub fn description(self) -> (result: &'static str)
        ensures
            result@ == self.description_text(),
    {
        match self {
            Operation::HalfResolution => "Re-encode video to mp4 and half the resolution.",
            Operation::StripAudio => "Strip audio",
            Operation::ReEncode => "Re encode the video to mp4",
            Operation::Trim => "Trim the video to a start and end time",
            Operation::SpecifyResolution => "Specify the width and height",
            Operation::ConvertToGif => "Make a gif specifying the scale and fps",
            Operation::ChangeFileType => "Change video type ex from .mp4 to .mov",
        }
    }

    /// The questions to put to the user before this operation runs, in order.
    pub fn prompts(self) -> (result: Vec<String>)
        ensures
            result.deep_view() == self.prompt_texts(),
    {
        let mut result: Vec<String> = Vec::new();
        match self {
            Operation::Trim => {
                push_text(
                    &mut result,
                    "Enter start time (hh:mm:ss or seconds or press enter to skip): ",
                );
                push_text(
                    &mut result,
                    "Enter end time (hh:mm:ss or seconds or press enter to skip): ",
                );
            },
            Operation::SpecifyResolution => {
                push_text(&mut result, "Enter a width (press enter for 1920): ");
                push_text(&mut result, "Enter a height (press enter for 1080): ");
            },
            Operation::ConvertToGif => {
                push_text(&mut result, "Enter fps (press enter for 10): ");
                push_text(&mut result, "Enter scale (press enter for 320): ");
            },
            Operation::ChangeFileType => {
                push_text(&mut result, "Enter a valid video or audio extension (EX: .mp3): ");
            },
            _ => {},
        }
        assert(result.deep_view() =~= self.prompt_texts());
        result
    }
}

/// All operations, in the order of the usage text.
pub open spec fn catalogue() -> Seq<Operation> {
    seq![
        Operation::HalfResolution,
        Operation::StripAudio,
        Operation::ReEncode,
        Operation::Trim,
        Operation::SpecifyResolution,
        Operation::ConvertToGif,
        Operation::ChangeFileType,
    ]
}

/// All operations, in the order of the usage text.
pub fn operations() -> (result: Vec<Operation>)
    ensures
        result@ == catalogue(),
{
    let mut result: Vec<Operation> = Vec::new();
    result.push(Operation::HalfResolution);
    result.push(Operation::StripAudio);
    result.push(Operation::ReEncode);
    result.push(Operation::Trim);
    result.push(Operation::SpecifyResolution);
    result.push(Operation::ConvertToGif);
    result.push(Operation::ChangeFileType);
    assert(result@ =~= catalogue());
    result
}

/// The operation that `command` names, if it names one.
pub open spec fn selected(command: Seq<char>) -> Option<Operation> {
    if command == Operation::HalfResolution.flag_text() {
        Some(Operation::HalfResolution)
    } else if command == Operation::StripAudio.flag_text() {
        Some(Operation::StripAudio)
    } else if command == Operation::ReEncode.flag_text() {
        Some(Operation::ReEncode)
    } else if command == Operation::Trim.flag_text() {
        Some(Operation::Trim)
    } else if command == Operation::SpecifyResolution.flag_text() {
        Some(Operation::SpecifyResolution)
    } else if command == Operation::ConvertToGif.flag_text() {
        Some(Operation::ConvertToGif)
    } else if command == Operation::ChangeFileType.flag_text() {
        Some(Operation::ChangeFileType)
    } else {
        None
    }
}

/// Looks `command` up among the selectors. The match is exact: no prefix,
/// no other case, no surrounding white space is accepted.
pub fn select(command: &str) -> (result: Option<Operation>)
    ensures
        result == selected(command@),
{
    if same_text(command, Operation::HalfResolution.flag()) {
        Some(Operation::HalfResolution)
    } else if same_text(command, Operation::StripAudio.flag()) {
        Some(Operation::StripAudio)
    } else if same_text(command, Operation::ReEncode.flag()) {
        Some(Operation::ReEncode)
    } else if same_text(command, Operation::Trim.flag()) {
        Some(Operation::Trim)
    } else if same_text(command, Operation::SpecifyResolution.flag()) {
        Some(Operation::SpecifyResolution)
    } else if same_text(command, Operation::ConvertToGif.flag()) {
        Some(Operation::ConvertToGif)
    } else if same_text(command, Operation::ChangeFileType.flag()) {
        Some(Operation::ChangeFileType)
    } else {
        None
    }
}

/// A selector names an operation exactly when it is that operation's flag,
/// letter for letter; no two operations share a flag.
pub proof fn lemma_selection_is_exact(command: Seq<char>, operation: Operation)
    ensures
        selected(command) == Some(operation) <==> command == operation.flag_text(),
        selected(operation.flag_text()) == Some(operation),
{
    reveal_strlit("-half_resolution");
    reveal_strlit("-strip_audio");
    reveal_strlit("-re_encode");
    reveal_strlit("-trim");
    reveal_strlit("-specify_resolution");
    reveal_strlit("-convert_to_gif");
    reveal_strlit("-change_file_type");
    assert(Operation::HalfResolution.flag_text().len() == 16);
    assert(Operation::StripAudio.flag_text().len() == 12);
    assert(Operation::ReEncode.flag_text().len() == 10);
    assert(Operation::Trim.flag_text().len() == 5);
    assert(Operation::SpecifyResolution.flag_text().len() == 19);
    assert(Operation::ConvertToGif.flag_text().len() == 15);
    assert(Operation::ChangeFileType.flag_text().len() == 17);
}

} // verus!
