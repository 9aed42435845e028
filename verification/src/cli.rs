//! The command line: which arguments make a request, and the text shown for
//! each failure.

use vstd::prelude::*;

use crate::error::Error;
use crate::operation::{catalogue, operations, Operation};

verus! {

/// An operation selector and the file it is to work on, as they were given.
pub struct Request {
    pub command: String,
    pub file_path: String,
}

impl Request {
    /// The request as sequences of characters: `(command, file_path)`.
    pub open spec fn view(&self) -> (Seq<char>, Seq<char>) {
        (self.command@, self.file_path@)
    }
}

/// The request that an argument vector makes. The vector begins with the
/// program's own name; the selector and the path follow, and anything after
/// them is ignored.
pub open spec fn requested(args: Seq<Seq<char>>) -> Result<(Seq<char>, Seq<char>), Error> {
    if args.len() < 3 {
        Err(Error::Usage)
    } else {
        Ok((args[1], args[2]))
    }
}

/// Reads the selector and the file path out of the process's argument vector.
///
/// Fails with [`Error::Usage`] exactly when one of the two is missing.
pub fn parse_arguments(args: &Vec<String>) -> (result: Result<Request, Error>)
    ensures
        result is Ok <==> args.len() >= 3,
        result matches Ok(request) ==> requested(args.deep_view()) == Ok::<
            (Seq<char>, Seq<char>),
            Error,
        >(request@),
        result matches Err(e) ==> requested(args.deep_view()) == Err::<
            (Seq<char>, Seq<char>),
            Error,
        >(e),
{
    if args.len() < 3 {
        Err(Error::Usage)
    } else {
        Ok(Request { command: args[1].clone(), file_path: args[2].clone() })
    }
}

/// An argument vector that lacks the selector or the path makes no
/// request, and the error it gives ends the program with status 1.
pub proof fn lemma_too_few_arguments(args: Seq<Seq<char>>)
    requires
        args.len() < 3,
    ensures
        requested(args) == Err::<(Seq<char>, Seq<char>), Error>(Error::Usage),
        Error::Usage.exit_status() == 1,
{
}

/// The usage entry of `operation`: its selector with the file path it
/// takes, and below that, further indented, its description.
pub open spec fn usage_entry(operation: Operation) -> Seq<char> {
    "\t"@ + operation.flag_text() + " <file_path>\n\t\t"@ + operation.description_text()
}

/// The usage entries of `operations`, each on a new line.
pub open spec fn usage_entries(operations: Seq<Operation>) -> Seq<char>
    decreases operations.len(),
{
    if operations.len() == 0 {
        Seq::empty()
    } else {
        usage_entries(operations.drop_last()) + "\n"@ + usage_entry(operations.last())
    }
}

/// The usage text: a heading and the entry of every operation.
pub open spec fn usage_text() -> Seq<char> {
    "Usage:"@ + usage_entries(catalogue())
}

/// The usage text, without a line break at its end.
pub fn usage() -> (result: String)
    ensures
        result@ == usage_text(),
{
    let all = operations();
    let mut result = String::from_str("Usage:");
    let mut i: usize = 0;
    while i < all.len()
        invariant
            i <= all.len(),
            result@ == "Usage:"@ + usage_entries(all@.take(i as int)),
        decreases all.len() - i,
    {
        let operation = all[i];
        result.append("\n");
        result.append("\t");
        result.append(operation.flag());
        result.append(" <file_path>\n\t\t");
        result.append(operation.description());
        proof {
            let next = all@.take(i + 1);
            assert(next.drop_last() =~= all@.take(i as int));
            assert(result@ =~= "Usage:"@ + usage_entries(next));
        }
        i = i + 1;
    }
    assert(all@.take(all.len() as int) =~= all@);
    result
}

/// What is shown on standard error for `error`, on a request for `command`
/// on the file `path`.
pub open spec fn message_text(error: Error, command: Seq<char>, path: Seq<char>) -> Seq<char> {
    match error {
        Error::Usage => usage_text(),
        Error::UnknownCommand => "Unknown command: "@ + command,
        Error::InvalidPath => "Invalid file path: "@ + path,
        Error::ToolFailed => "Failed to halve resolution of file!"@,
    }
}

/// The text to show on standard error for `error`, without a line break
/// at its end.
pub fn message(error: Error, command: &str, file_path: &str) -> (result: String)
    ensures
        result@ == message_text(error, command@, file_path@),
{
    match error {
        Error::Usage => usage(),
        Error::UnknownCommand => String::from_str("Unknown command: ").concat(command),
        Error::InvalidPath => String::from_str("Invalid file path: ").concat(file_path),
        Error::ToolFailed => String::from_str("Failed to halve resolution of file!"),
    }
}

} // verus!
