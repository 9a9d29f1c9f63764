//! Launching scripts: the command that runs each one and what is made of
//! what it prints.

pub mod commands;
pub mod execute;

use vstd::prelude::*;

verus! {

/// The views of a sequence of strings.
pub open spec fn strings_view(v: Seq<String>) -> Seq<Seq<char>> {
    v.map_values(|s: String| s@)
}

/// The view of an optional vector of strings.
pub open spec fn opt_strings_view(v: Option<Vec<String>>) -> Option<Seq<Seq<char>>> {
    match v {
        Some(words) => Some(strings_view(words@)),
        None => None,
    }
}

/// The words into which `shlex::split` cuts `line` by the quoting rules of a
/// POSIX shell, or `None` where `line` is not well formed (an unclosed quote,
/// a trailing backslash).
pub uninterp spec fn shell_words(line: Seq<char>) -> Option<Seq<Seq<char>>>;

/// The text that `String::from_utf8_lossy` decodes from `bytes`, where each
/// ill-formed sequence becomes U+FFFD.
pub uninterp spec fn lossy_utf8(bytes: Seq<u8>) -> Seq<char>;

/// Calls `shlex::split`. Its result depends on `line` alone and is given
/// the name [`shell_words`]; nothing more of the shell grammar is stated.
#[verifier::external_body]
fn split_shell_words(line: &str) -> (r: Option<Vec<String>>)
    ensures
        opt_strings_view(r) == shell_words(line@),
{
    shlex::split(line)
}

/// Calls `String::from_utf8_lossy` and takes the text it gives. The result
/// depends on `bytes` alone and is given the name [`lossy_utf8`].
#[verifier::external_body]
pub(crate) fn decode_lossy(bytes: &[u8]) -> (r: String)
    ensures
        r@ == lossy_utf8(bytes@),
{
    String::from_utf8_lossy(bytes).into_owned()
}

/// The arguments a script is launched with: the shell words of its argument
/// line, or a single empty argument where that line is not well formed.
pub open spec fn parsed_args(line: Seq<char>) -> Seq<Seq<char>> {
    match shell_words(line) {
        Some(words) => words,
        None => seq![Seq::<char>::empty()],
    }
}

/// A well-formed argument line is passed on word for word; one that is not
/// well formed is passed on as a single empty argument.
pub proof fn lemma_parsed_args(line: Seq<char>)
    ensures
        shell_words(line) matches Some(words) ==> parsed_args(line) == words,
        shell_words(line) is None ==> parsed_args(line).len() == 1 && parsed_args(line)[0].len() == 0,
{
}

/// Turns the result of splitting an argument line into the arguments that
/// are passed on: the words themselves, or a single empty argument where
/// the split failed.
pub fn words_or_blank(parsed: Option<Vec<String>>) -> (r: Vec<String>)
    ensures
        strings_view(r@) == (match opt_strings_view(parsed) {
            Some(words) => words,
            None => seq![Seq::<char>::empty()],
        }),
{
    match parsed {
        Some(words) => words,
        None => {
            let mut blank: Vec<String> = Vec::new();
            blank.push(String::new());
            proof {
                assert(strings_view(blank@) =~= seq![Seq::<char>::empty()]);
            }
            blank
        },
    }
}

/// The last component of `path` as `std::path::Path::file_name` reads it,
/// or `None` where the path ends in `..` or is a root or empty.
pub uninterp spec fn path_file_name(path: Seq<char>) -> Option<Seq<char>>;

/// Calls `std::path::Path::file_name` on `path` and takes the name as text.
/// A name cut from UTF-8 text is UTF-8, so the conversion loses nothing. The
/// result depends on `path` alone and is given the name [`path_file_name`].
#[verifier::external_body]
fn file_name_of(path: &str) -> (r: Option<String>)
    ensures
        match r {
            Some(name) => path_file_name(path@) == Some(name@),
            None => path_file_name(path@) is None,
        },
{
    match std::path::Path::new(path).file_name() {
        Some(name) => Some(name.to_string_lossy().into_owned()),
        None => None,
    }
}

/// What the board keeps of a file the user picked: its file name (empty
/// where the path has none) and its whole path; nothing where no file was
/// picked.
pub fn select_script(picked: Option<String>) -> (r: Option<(String, String)>)
    ensures
        r is Some <==> picked is Some,
        r matches Some((name, path)) ==> {
            &&& path@ == picked->0@
            &&& name@ == (match path_file_name(picked->0@) {
                Some(n) => n,
                None => Seq::<char>::empty(),
            })
        },
{
    match picked {
        Some(path) => {
            let name = match file_name_of(path.as_str()) {
                Some(n) => n,
                None => String::new(),
            };
            Some((name, path))
        },
        None => None,
    }
}

/// Splits a script's argument line as a POSIX shell would.
pub fn parse_args(args: &str) -> (r: Vec<String>)
    ensures
        strings_view(r@) == parsed_args(args@),
{
    words_or_blank(split_shell_words(args))
}

} // verus!
