//! Splitting a file path at its last `.` into stem and extension.

use vstd::prelude::*;

use crate::error::Error;

verus! {

/// The character that parts the stem from the extension.
pub open spec fn separator() -> char {
    '.'
}

/// Whether `path` can be split at all: it holds at least one `.`.
pub open spec fn has_separator(path: Seq<char>) -> bool {
    path.contains(separator())
}

/// `stem` and `extension` are the two sides of the last `.` of `path`:
/// joined by a `.` they give `path` back, and `extension` holds no `.`.
pub open spec fn splits(path: Seq<char>, stem: Seq<char>, extension: Seq<char>) -> bool {
    &&& path == stem + seq![separator()] + extension
    &&& !extension.contains(separator())
}

/// Index of the last `.` of `path`, or `-1` where there is none.
pub open spec fn last_separator(path: Seq<char>) -> int
    decreases path.len(),
{
    if path.len() == 0 {
        -1
    } else if path.last() == separator() {
        path.len() - 1
    } else {
        last_separator(path.drop_last())
    }
}

/// Everything before the last `.` of `path`, directories included.
pub open spec fn stem_of(path: Seq<char>) -> Seq<char> {
    path.subrange(0, last_separator(path))
}

/// Everything after the last `.` of `path`.
pub open spec fn extension_of(path: Seq<char>) -> Seq<char> {
    path.subrange(last_separator(path) + 1, path.len() as int)
}

/// `last_separator` finds a `.` exactly where there is one, and no `.` follows it.
pub proof fn lemma_last_separator(path: Seq<char>)
    ensures
        -1 <= last_separator(path) < path.len(),
        has_separator(path) <==> last_separator(path) >= 0,
        last_separator(path) >= 0 ==> path[last_separator(path)] == separator(),
        forall|j: int| last_separator(path) < j < path.len() ==> path[j] != separator(),
    decreases path.len(),
{
    if path.len() == 0 {
    } else if path.last() == separator() {
    } else {
        let front = path.drop_last();
        lemma_last_separator(front);
        if has_separator(path) {
            let i = choose|i: int| 0 <= i < path.len() && path[i] == separator();
            assert(front[i] == separator());
        }
        assert forall|j: int| last_separator(path) < j < path.len() implies path[j]
            != separator() by {
            if j < front.len() {
                assert(front[j] != separator());
            }
        }
    }
}

/// A path that holds a `.` is its stem, a `.` and its extension, and the
/// extension holds no further `.`.
pub proof fn lemma_parts_rejoin(path: Seq<char>)
    requires
        has_separator(path),
    ensures
        splits(path, stem_of(path), extension_of(path)),
{
    lemma_last_separator(path);
    assert(path =~= stem_of(path) + seq![separator()] + extension_of(path));
}

/// There is one way only to split a path at its last `.`: whatever stem
/// and extension rejoin to the path, with no `.` in the extension, are the
/// ones that `stem_of` and `extension_of` give.
pub proof fn lemma_split_is_unique(path: Seq<char>, stem: Seq<char>, extension: Seq<char>)
    requires
        splits(path, stem, extension),
    ensures
        has_separator(path),
        stem == stem_of(path),
        extension == extension_of(path),
{
    let at = stem.len() as int;
    assert(path[at] == separator());
    lemma_last_separator(path);
    if last_separator(path) < at {
    } else if last_separator(path) > at {
        let k = last_separator(path) - at - 1;
        assert(extension[k] == path[last_separator(path)]);
    }
    assert(stem =~= stem_of(path));
    assert(extension =~= extension_of(path));
}

/// The two sides of a file path's last `.`.
pub struct FileParts {
    /// Everything after the last `.`, without the `.` itself.
    pub extension: String,
    /// Everything before the last `.`, any directory prefix included.
    pub stem: String,
}

impl FileParts {
    /// The parts as sequences of characters: `(extension, stem)`.
    pub open spec fn view(&self) -> (Seq<char>, Seq<char>) {
        (self.extension@, self.stem@)
    }
}

/// Splits `file_path` at its last `.`.
///
/// Fails with [`Error::InvalidPath`] exactly when the path holds no `.`.
pub fn get_file_parts(file_path: &str) -> (result: Result<FileParts, Error>)
    ensures
        result is Ok <==> has_separator(file_path@),
        result matches Ok(parts) ==> {
            &&& parts@ == (extension_of(file_path@), stem_of(file_path@))
            &&& splits(file_path@, parts.stem@, parts.extension@)
        },
        result matches Err(e) ==> e == Error::InvalidPath,
{
    let len: usize = file_path.unicode_len();
    let mut last: Option<usize> = None;
    let mut at: usize = 0;
    for c in it: file_path.chars()
        invariant
            it.seq() == file_path@,
            len == file_path@.len(),
            at == it.index(),
            at <= len,
            last matches Some(found) ==> found == last_separator(file_path@.take(at as int)),
            last is None ==> last_separator(file_path@.take(at as int)) == -1,
    {
        proof {
            let seen = file_path@.take(at + 1);
            assert(seen.drop_last() =~= file_path@.take(at as int));
        }
        if c == '.' {
            last = Some(at);
        }
        at = at + 1;
    }
    proof {
        assert(file_path@.take(len as int) =~= file_path@);
        lemma_last_separator(file_path@);
    }
    match last {
        None => Err(Error::InvalidPath),
        Some(found) => {
            let stem = file_path.substring_char(0, found);
            let extension = file_path.substring_char(found + 1, len);
            proof {
                lemma_parts_rejoin(file_path@);
            }
            Ok(FileParts { extension: String::from_str(extension), stem: String::from_str(stem) })
        },
    }
}

} // verus!
