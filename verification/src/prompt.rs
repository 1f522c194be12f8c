use vstd::prelude::*;

verus! {

/// What came of asking the user for a line.
#[derive(Debug)]
pub enum ReadResult {
    /// The line is not finished.
    Continue,
    /// The user wants to leave.
    Exit,
    /// The user gave nothing.
    Empty,
    /// The user gave this text.
    Success(String),
}

/// What follows after the user was asked for a line.
#[derive(Debug)]
pub enum PromptStep {
    /// Ask again.
    Again,
    /// Leave.
    Exit,
    /// Read this text as a command.
    Parse(String),
}

/// What follows after the user was asked for a line: text is read as a
/// command, a wish to leave is followed, and all else is asked again.
pub fn next_step(result: ReadResult) -> (out: PromptStep)
    ensures
        out == match result {
            ReadResult::Continue => PromptStep::Again,
            ReadResult::Exit => PromptStep::Exit,
            ReadResult::Empty => PromptStep::Again,
            ReadResult::Success(text) => PromptStep::Parse(text),
        },
{
    match result {
        ReadResult::Continue => PromptStep::Again,
        ReadResult::Exit => PromptStep::Exit,
        ReadResult::Empty => PromptStep::Again,
        ReadResult::Success(text) => PromptStep::Parse(text),
    }
}

} // verus!
