//! The decisions of the command-line tool: what a list of arguments asks
//! for, whether a path may be loaded, and under which name a decoded image
//! is written.

use vstd::prelude::*;
use vstd::string::*;
use crate::error::StegoError;

verus! {

/// What one invocation is asked to do.
#[derive(Debug, PartialEq, Eq)]
pub enum Command {
    /// Recover the image hidden in the file at `encoded_path`.
    Decode { encoded_path: String },
    /// Hide the image at `secret_path` in the one at `decoy_path` and write
    /// the result to `output_path`.
    Encode { secret_path: String, decoy_path: String, output_path: String },
}

/// The command that a list of arguments stands for. The first argument is
/// the program's own name. One path asks for decoding, three paths ask for
/// encoding, and every other count is a usage error: too few if no path was
/// given, else too many.
pub open spec fn command_for(args: Seq<String>) -> Result<Command, StegoError> {
    if args.len() == 2 {
        Ok(Command::Decode { encoded_path: args[1] })
    } else if args.len() == 4 {
        Ok(Command::Encode { secret_path: args[1], decoy_path: args[2], output_path: args[3] })
    } else {
        Err(StegoError::UsageError { too_few: args.len() < 2 })
    }
}

/// `extension` stands in `path` directly behind a dot.
pub open spec fn follows_a_dot(path: Seq<char>, extension: Seq<char>) -> bool {
    exists|start: int|
        0 < start && start + extension.len() <= path.len() && path[start - 1] == '.'
            && #[trigger] path.subrange(start, start + extension.len()) == extension
}

/// What `std::path::Path::extension` returns for a path, as characters. It
/// reads nothing but the path.
pub uninterp spec fn path_extension_of(file_path: Seq<char>) -> Option<Seq<char>>;

/// The characters of a string that may be absent.
pub open spec fn text_of(found: Option<String>) -> Option<Seq<char>> {
    match found {
        Some(text) => Some(text@),
        None => None,
    }
}

/// A path that is one name under every path syntax: it holds no separator
/// and no colon of a drive or a scheme.
pub open spec fn is_plain_name(path: Seq<char>) -> bool {
    !path.contains('/') && !path.contains('\\') && !path.contains(':')
}

/// The index of the last dot in `name`, or -1 if it holds none.
pub open spec fn last_dot(name: Seq<char>) -> int
    decreases name.len(),
{
    if name.len() == 0 {
        -1
    } else if name.last() == '.' {
        name.len() - 1
    } else {
        last_dot(name.drop_last())
    }
}

/// The extension of a file name: what follows its last dot. A name without
/// a dot has none, nor has one whose only dot is its first character, nor
/// has the name `..`.
pub open spec fn file_name_extension(name: Seq<char>) -> Option<Seq<char>> {
    if last_dot(name) <= 0 || name == seq!['.', '.'] {
        None
    } else {
        Some(name.skip(last_dot(name) + 1))
    }
}

/// The extension to write with: the one that was found, or `png`.
pub open spec fn extension_or_default_spec(found: Option<Seq<char>>) -> Seq<char> {
    match found {
        Some(extension) => extension,
        None => "png"@,
    }
}

/// Reads the arguments of an invocation, the program's name first.
pub fn parse_arguments(args: &Vec<String>) -> (result: Result<Command, StegoError>)
    ensures
        result == command_for(args@),
{
    if args.len() == 2 {
        Ok(Command::Decode { encoded_path: args[1].clone() })
    } else if args.len() == 4 {
        Ok(
            Command::Encode {
                secret_path: args[1].clone(),
                decoy_path: args[2].clone(),
                output_path: args[3].clone(),
            },
        )
    } else {
        Err(StegoError::UsageError { too_few: args.len() < 2 })
    }
}

/// Lets a path through if it names a regular file, and refuses it by name
/// if it does not. Whether it does is for the caller to find out.
pub fn ensure_is_file(path: &str, is_file: bool) -> (result: Result<(), StegoError>)
    ensures
        is_file ==> result is Ok,
        !is_file ==> (result matches Err(StegoError::NotAFile { path: refused }) && refused@
            == path@),
{
    if is_file {
        Ok(())
    } else {
        Err(StegoError::NotAFile { path: String::from_str(path) })
    }
}

/// `std::path::Path::extension` of `file_path`, as a `String`. It reads
/// nothing but the path, so its result has a name, `path_extension_of`.
///
/// The standard library documents the extension as the portion of the
/// path's file name after its final dot, and as absent where there is no
/// file name, where the file name has no dot, and where its only dot is its
/// first character. So an extension that is found holds no dot and stands
/// in the path directly behind one, and a path without any dot has none.
/// The file name is the last component of the path, and `..` is none. A
/// path without a separator and without a colon has no component but
/// itself, so there the result is `file_name_extension` of the whole path.
/// For other paths the file name depends on the platform's path syntax, and
/// no more is claimed than the name.
#[verifier::external_body]
fn path_extension(file_path: &str) -> (found: Option<String>)
    ensures
        text_of(found) == path_extension_of(file_path@),
        found matches Some(extension) ==> !extension@.contains('.') && follows_a_dot(
            file_path@,
            extension@,
        ),
        !file_path@.contains('.') ==> found is None,
        is_plain_name(file_path@) ==> text_of(found) == file_name_extension(file_path@),
{
    std::path::Path::new(file_path).extension().and_then(|found| found.to_str()).map(
        |found| found.to_string(),
    )
}

/// The extension to write with, given what was found in a path.
pub fn extension_or_default(found: Option<String>) -> (extension: String)
    ensures
        extension@ == extension_or_default_spec(text_of(found)),
{
    match found {
        Some(extension) => extension,
        None => String::from_str("png"),
    }
}

/// The extension of `file_path` as `std::path::Path::extension` finds it,
/// or `png` if it finds none. For a path that is one plain name this is
/// what follows the last dot, or `png` for a name without a dot, for one
/// whose only dot is its first character, and for `..`. Whatever the path,
/// one without a dot gives `png`, and an extension that is found holds no
/// dot and stands in the path directly behind one.
pub fn get_file_extension(file_path: &str) -> (extension: String)
    ensures
        extension@ == extension_or_default_spec(path_extension_of(file_path@)),
        is_plain_name(file_path@) ==> extension@ == extension_or_default_spec(
            file_name_extension(file_path@),
        ),
        !file_path@.contains('.') ==> extension@ == "png"@,
        extension@ == "png"@ || (!extension@.contains('.') && follows_a_dot(
            file_path@,
            extension@,
        )),
{
    extension_or_default(path_extension(file_path))
}

/// The name under which a decoded image is written: `decoded_output`, a
/// dot, and the extension.
pub fn decoded_output_name(extension: &str) -> (name: String)
    ensures
        name@ == "decoded_output."@ + extension@,
{
    String::from_str("decoded_output.").concat(extension)
}

/// `last_dot` is the index of a dot behind which no dot follows, and is -1
/// exactly when there is no dot.
pub proof fn lemma_last_dot(name: Seq<char>)
    ensures
        -1 <= last_dot(name) < name.len(),
        last_dot(name) == -1 <==> !name.contains('.'),
        last_dot(name) >= 0 ==> name[last_dot(name)] == '.',
        forall|i: int| last_dot(name) < i < name.len() ==> name[i] != '.',
    decreases name.len(),
{
    if name.len() > 0 && name.last() != '.' {
        let front = name.drop_last();
        lemma_last_dot(front);
        assert forall|i: int| last_dot(name) < i < name.len() implies name[i] != '.' by {
            if i < front.len() {
                assert(front[i] == name[i]);
            }
        }
        if last_dot(front) >= 0 {
            assert(name[last_dot(front)] == front[last_dot(front)]);
        }
        if name.contains('.') {
            let i = choose|i: int| 0 <= i < name.len() && name[i] == '.';
            assert(front[i] == '.');
        }
    }
}

/// A dot behind which no dot follows is the last dot.
pub proof fn lemma_last_dot_is(name: Seq<char>, dot: int)
    requires
        0 <= dot < name.len(),
        name[dot] == '.',
        forall|i: int| dot < i < name.len() ==> name[i] != '.',
    ensures
        last_dot(name) == dot,
{
    lemma_last_dot(name);
}

} // verus!
