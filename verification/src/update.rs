use vstd::prelude::*;
use crate::decimal::{push_signed_decimal, signed_decimal};
use crate::lines::{text_eq, to_chars};

verus! {

/// `part` stands somewhere in `s`.
pub open spec fn contains_text(s: Seq<char>, part: Seq<char>) -> bool {
    exists|i: int| 0 <= i && i + part.len() <= s.len() && #[trigger] s.subrange(
        i,
        i + part.len(),
    ) == part
}

/// A version for which no update is looked for: one under development, or
/// the first.
pub open spec fn skips_update(version: Seq<char>) -> bool {
    contains_text(version, "dev"@) || version == "0.1.0"@
}

/// Whether no update is looked for with this version: see [`skips_update`].
pub fn is_development(version: &str) -> (out: bool)
    ensures
        out == skips_update(version@),
{
    let chars = to_chars(version);
    let n: usize = chars.len();
    proof {
        reveal_strlit("dev");
    }
    let mut i: usize = 0;
    while n >= 3 && i <= n - 3
        invariant
            n == chars@.len(),
            chars@ == version@,
            "dev"@ == seq!['d', 'e', 'v'],
            forall|k: int| 0 <= k < i ==> #[trigger] chars@.subrange(k, k + 3) != "dev"@,
        decreases n - i,
    {
        if chars[i] == 'd' && chars[i + 1] == 'e' && chars[i + 2] == 'v' {
            assert(chars@.subrange(i as int, i + 3) =~= "dev"@);
            return true;
        }
        proof {
            let part = chars@.subrange(i as int, i + 3);
            assert(part[0] == chars@[i as int] && part[1] == chars@[i + 1] && part[2] == chars@[i
                + 2]);
        }
        i += 1;
    }
    text_eq(version, "0.1.0")
}

/// The command that installs the latest version.
pub fn update_command() -> (out: String)
    ensures
        out@ == "npm update -g pawscode --force"@,
{
    "npm update -g pawscode --force".to_owned()
}

/// What follows the look for a newer version.
#[derive(Debug, Clone, Copy, PartialEq, Eq)]
pub enum UpdateStep {
    /// There is nothing to do.
    Nothing,
    /// Ask the user whether to update.
    Ask,
    /// Update.
    Update,
}

/// What follows the look for a newer version: nothing where none was found;
/// the update where updates are made without asking; else the question.
pub fn after_check(found: bool, auto_update: bool) -> (out: UpdateStep)
    ensures
        out == if !found {
            UpdateStep::Nothing
        } else if auto_update {
            UpdateStep::Update
        } else {
            UpdateStep::Ask
        },
{
    if !found {
        UpdateStep::Nothing
    } else if auto_update {
        UpdateStep::Update
    } else {
        UpdateStep::Ask
    }
}

/// Whether the user agreed: only an answer that was given and is yes counts.
pub fn confirmed(answer: Option<bool>) -> (out: bool)
    ensures
        out == (answer == Some(true)),
{
    match answer {
        Some(yes) => yes,
        None => false,
    }
}

/// The question whether to update, with the two versions as they are shown.
pub fn confirm_question(current: &str, latest: &str) -> (out: String)
    ensures
        out@ == "Confirm upgrade from "@ + current@ + " -> "@ + latest@ + " (latest)?"@,
{
    let mut out = "Confirm upgrade from ".to_owned();
    out.append(current);
    out.append(" -> ");
    out.append(latest);
    out.append(" (latest)?");
    out
}

/// The question whether to close after an update.
pub fn close_question() -> (out: String)
    ensures
        out@ == "You need to close paws to complete update. Do you want to close it now?"@,
{
    "You need to close paws to complete update. Do you want to close it now?".to_owned()
}

/// How an update that failed is reported.
pub open spec fn exit_text(code: Option<i32>) -> Seq<char> {
    match code {
        Some(code) => "Process exited with code: "@ + signed_decimal(code as int),
        None => "Process exited without code"@,
    }
}

/// Writes how an update that failed is reported: see [`exit_text`].
pub fn exit_note(code: Option<i32>) -> (out: String)
    ensures
        out@ == exit_text(code),
{
    match code {
        Some(code) => {
            let mut out = "Process exited with code: ".to_owned();
            push_signed_decimal(&mut out, code as i64);
            out
        },
        None => "Process exited without code".to_owned(),
    }
}

} // verus!
