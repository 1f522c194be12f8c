use vstd::prelude::*;

verus! {

/// What `console::strip_ansi_codes` returns for a text: the text without the
/// ANSI escape sequences that the `console` crate recognises in it.
pub uninterp spec fn ansi_stripped(s: Seq<char>) -> Seq<char>;

/// What `std::path::Path::strip_prefix` returns for a path and a base, both
/// given as text: the rest of the path after the base, or `None` when the
/// base is not a prefix of the path by the path rules of the platform.
pub uninterp spec fn path_without_prefix(path: Seq<char>, base: Seq<char>) -> Option<Seq<char>>;

/// Whether the class `\w` of the `regex` crate holds a character.
pub uninterp spec fn regex_word(c: char) -> bool;

/// No character of `s` can start an escape sequence.
pub open spec fn no_escape_start(s: Seq<char>) -> bool {
    forall|i: int| 0 <= i < s.len() ==> s[i] != '\u{1b}' && s[i] != '\u{9b}'
}

/// Calls `console::strip_ansi_codes`. Nothing is proved of it. The contract
/// gives the result its name, and states what the crate's source shows: an
/// escape sequence starts at ESC or at the one-character CSI, so a text
/// without both is returned as it is.
#[verifier::external_body]
pub(crate) fn strip_ansi(s: &str) -> (out: String)
    ensures
        out@ == ansi_stripped(s@),
        no_escape_start(s@) ==> out@ == s@,
{
    console::strip_ansi_codes(s).into_owned()
}

/// Calls `std::path::Path::strip_prefix` on a path and a base given as text,
/// and hands the rest back as text. Nothing is proved of it: the contract
/// only gives the result its name.
#[verifier::external_body]
pub(crate) fn strip_path_prefix(path: &str, base: &str) -> (out: Option<String>)
    ensures
        path_without_prefix(path@, base@) == match out {
            Some(rest) => Some(rest@),
            None => None,
        },
{
    match std::path::Path::new(path).strip_prefix(std::path::Path::new(base)) {
        Ok(rest) => Some(rest.display().to_string()),
        Err(_) => None,
    }
}

/// Asks the `regex` crate, as `lazy_regex` hands it on, of each character
/// whether a pattern that is one `\w` from start to end matches it alone.
/// Nothing is proved of it: the contract only gives each answer its name.
#[verifier::external_body]
pub(crate) fn word_chars(chars: &Vec<char>) -> (out: Vec<bool>)
    ensures
        out@.len() == chars@.len(),
        forall|i: int| 0 <= i < chars@.len() ==> out@[i] == regex_word(#[trigger] chars@[i]),
{
    match lazy_regex::Regex::new("^\\w$") {
        Ok(re) => chars.iter().map(|c| re.is_match(c.encode_utf8(&mut [0u8; 4]))).collect(),
        Err(_) => chars.iter().map(|_| false).collect(),
    }
}

/// Calls `rand::seq::IndexedRandom::choose` on the texts, with the random
/// number generator of the thread. Nothing is proved of it. The contract
/// states what the crate's source shows of every outcome: one of the texts
/// is handed back, or nothing where there are none.
#[verifier::external_body]
pub(crate) fn choose_text(texts: &Vec<String>) -> (out: Option<String>)
    ensures
        match out {
            Some(t) => exists|i: int| 0 <= i < texts@.len() && texts@[i]@ == t@,
            None => texts@.len() == 0,
        },
{
    rand::seq::IndexedRandom::choose(texts.as_slice(), &mut rand::rng()).cloned()
}

/// Calls `dirs::runtime_dir`, which depends on the environment, and hands
/// the directory back as text. Nothing is stated of it.
#[verifier::external_body]
pub(crate) fn runtime_dir() -> (out: Option<String>) {
    dirs::runtime_dir().map(|p| p.display().to_string())
}

/// Calls `crossterm::terminal::size`, which asks the terminal, and hands
/// back columns and rows, or nothing where the terminal does not tell.
/// Nothing is stated of it.
#[verifier::external_body]
pub(crate) fn terminal_size() -> (out: Option<(u16, u16)>) {
    crossterm::terminal::size().ok()
}

} // verus!
