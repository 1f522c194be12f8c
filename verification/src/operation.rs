use vstd::prelude::*;
use crate::domain::{
    DiffResult, Environment, FSPatch, FSRead, FSRemove, FSSearch, FSUndo, FSWrite,
    FsCreateOutput, FsRemoveOutput, FsUndoOutput, HttpResponse, Image, NetFetch, PatchOutput,
    PlanCreate, PlanCreateOutput, ReadOutput, SearchResult, ShellOutput, Skill, SkillFetch,
    ToolOutput, ToolValue,
};
use crate::element::{render, Element, Markup};
use crate::lines::text_view;
use crate::metrics::{FileChange, Metrics, ToolKind};
use crate::paths::{display_path, format_display_path};
use crate::platform::{ansi_stripped, path_without_prefix, strip_ansi};
use crate::render_fs::{
    create_element, create_markup, diff_change, diff_operation, patch_element, patch_markup,
    read_change, read_element, read_markup, read_operation, remove_change, remove_element,
    remove_markup, remove_operation, undo_element, undo_markup,
};
use crate::render_misc::{
    fetch_element, fetch_markup, follow_up_element, follow_up_markup, plan_element, plan_markup,
    shell_element, shell_markup, skill_element, skill_markup,
};
use crate::render_search::{search_element, search_markup};
use crate::width::byte_len;

verus! {

/// Where the whole of cut output was stored, for each stream.
#[derive(Debug)]
pub struct TempContentFiles {
    pub stdout: Option<String>,
    pub stderr: Option<String>,
}

impl TempContentFiles {
    /// Nothing was stored.
    pub fn new() -> (out: TempContentFiles)
        ensures
            out.stdout is None,
            out.stderr is None,
    {
        TempContentFiles { stdout: None, stderr: None }
    }

    /// Sets where standard output was stored.
    pub fn stdout(self, path: &str) -> (out: TempContentFiles)
        ensures
            text_view(out.stdout) == Some(path@),
            out.stderr == self.stderr,
    {
        TempContentFiles { stdout: Some(path.to_owned()), stderr: self.stderr }
    }

    /// Sets where standard error was stored.
    pub fn stderr(self, path: &str) -> (out: TempContentFiles)
        ensures
            out.stdout == self.stdout,
            text_view(out.stderr) == Some(path@),
    {
        TempContentFiles { stdout: self.stdout, stderr: Some(path.to_owned()) }
    }
}

impl Default for TempContentFiles {
    fn default() -> (out: TempContentFiles)
        ensures
            out.stdout is None,
            out.stderr is None,
    {
        TempContentFiles::new()
    }
}

/// A tool that ran: what it was asked and what came of it.
#[derive(Debug)]
pub enum ToolOperation {
    FsRead { input: FSRead, output: ReadOutput },
    ImageRead { output: Image },
    FsCreate { input: FSWrite, output: FsCreateOutput },
    FsRemove { input: FSRemove, output: FsRemoveOutput },
    FsSearch { input: FSSearch, output: Option<SearchResult> },
    FsPatch { input: FSPatch, output: PatchOutput },
    FsUndo { input: FSUndo, output: FsUndoOutput },
    NetFetch { input: NetFetch, output: HttpResponse },
    Shell { output: ShellOutput },
    FollowUp { output: Option<String> },
    PlanCreate { input: PlanCreate, output: PlanCreateOutput },
    Skill { input: SkillFetch, output: Skill },
}

/// Two texts to compare: the diff wanted leads from `before` to `after`.
#[derive(Debug)]
pub struct DiffRequest {
    pub before: String,
    pub after: String,
}

/// What rendering an operation needs from outside: the diff whose line
/// counts are recorded, the diff that is shown where it is another one, and
/// the text whose hash is recorded.
#[derive(Debug)]
pub struct Requests {
    pub change: Option<DiffRequest>,
    pub shown: Option<DiffRequest>,
    pub hash: Option<String>,
}

/// What was computed outside for an operation, in answer to its
/// [`Requests`].
#[derive(Debug)]
pub struct Answers {
    pub change: Option<DiffResult>,
    pub shown: Option<DiffResult>,
    pub hash: Option<String>,
}

/// A pair of texts as plain values.
pub open spec fn pair_view(r: Option<DiffRequest>) -> Option<(Seq<char>, Seq<char>)> {
    match r {
        Some(r) => Some((r.before@, r.after@)),
        None => None,
    }
}

/// A text, and the empty text where there is none.
pub open spec fn or_empty(s: Option<String>) -> Seq<char> {
    match s {
        Some(s) => s@,
        None => Seq::empty(),
    }
}

/// The diff whose line counts are recorded for an operation. Writing a file
/// leads from what it held, or from nothing, to the new content; a patch
/// from the text before to the text after. An undo is counted from the state
/// after it to the state before it, nothing standing for a missing state.
pub open spec fn change_request(op: ToolOperation) -> Option<(Seq<char>, Seq<char>)> {
    match op {
        ToolOperation::FsCreate { input, output } => Some((or_empty(output.before), input.content@)),
        ToolOperation::FsPatch { input, output } => Some((output.before@, output.after@)),
        ToolOperation::FsUndo { input, output } => Some(
            (or_empty(output.after_undo), or_empty(output.before_undo)),
        ),
        _ => None,
    }
}

/// The diff that is shown for an operation where it is not the one that is
/// recorded: for an undo with both states present, the diff from the state
/// before the undo to the state after it.
pub open spec fn shown_request(op: ToolOperation) -> Option<(Seq<char>, Seq<char>)> {
    match op {
        ToolOperation::FsUndo { input, output } => match (output.before_undo, output.after_undo) {
            (Some(before), Some(after)) => Some((before@, after@)),
            _ => None,
        },
        _ => None,
    }
}

/// The text whose hash is recorded for an operation: for an undo, the state
/// after it, where there is one.
pub open spec fn hash_request(op: ToolOperation) -> Option<Seq<char>> {
    match op {
        ToolOperation::FsUndo { input, output } => text_view(output.after_undo),
        _ => None,
    }
}

impl Answers {
    /// No answers.
    pub fn none() -> (out: Answers)
        ensures
            out.change is None,
            out.shown is None,
            out.hash is None,
    {
        Answers { change: None, shown: None, hash: None }
    }

    /// There is an answer to each request of `op` and to nothing else.
    pub open spec fn fit(&self, op: ToolOperation) -> bool {
        &&& self.change is Some <==> change_request(op) is Some
        &&& self.shown is Some <==> shown_request(op) is Some
        &&& self.hash is Some <==> hash_request(op) is Some
    }
}

/// The diff that is shown for an operation, without escape sequences: the
/// one that was asked for to be shown, else the one that is recorded, else
/// nothing.
pub open spec fn diff_text(answers: Answers) -> Seq<char> {
    match answers.shown {
        Some(d) => ansi_stripped(d.diff@),
        None => match answers.change {
            Some(d) => ansi_stripped(d.diff@),
            None => Seq::empty(),
        },
    }
}

/// An operation as an element, or `None` for an image, which is handed on as
/// it is.
pub open spec fn operation_markup(
    op: ToolOperation,
    files: TempContentFiles,
    env: Environment,
    answers: Answers,
) -> Option<Markup> {
    match op {
        ToolOperation::FsRead { input, output } => Some(read_markup(input, output)),
        ToolOperation::ImageRead { output } => None,
        ToolOperation::FsCreate { input, output } => Some(
            create_markup(input, output, diff_text(answers)),
        ),
        ToolOperation::FsRemove { input, output } => Some(
            remove_markup(display_path(input.path@, path_without_prefix(input.path@, env.cwd@))),
        ),
        ToolOperation::FsSearch { input, output } => Some(search_markup(input, output, env)),
        ToolOperation::FsPatch { input, output } => Some(
            patch_markup(input, output, diff_text(answers)),
        ),
        ToolOperation::FsUndo { input, output } => Some(
            undo_markup(input, output, diff_text(answers)),
        ),
        ToolOperation::NetFetch { input, output } => Some(
            fetch_markup(
                input,
                output,
                env.fetch_truncation_limit as nat,
                text_view(files.stdout),
            ),
        ),
        ToolOperation::Shell { output } => Some(
            shell_markup(output, text_view(files.stdout), text_view(files.stderr), env),
        ),
        ToolOperation::FollowUp { output } => Some(follow_up_markup(output)),
        ToolOperation::PlanCreate { input, output } => Some(plan_markup(input, output)),
        ToolOperation::Skill { input, output } => Some(skill_markup(output)),
    }
}

/// What an operation records, and under which path: something for each
/// operation on a file, nothing for the others.
pub open spec fn operation_change(op: ToolOperation, tool: ToolKind, answers: Answers) -> Option<
    (Seq<char>, FileChange),
> {
    match op {
        ToolOperation::FsRead { input, output } => Some((input.path@, read_change(tool, output))),
        ToolOperation::FsCreate { input, output } => match answers.change {
            Some(d) => Some((input.path@, diff_change(tool, d, Some(output.content_hash@)))),
            None => None,
        },
        ToolOperation::FsRemove { input, output } => Some(
            (input.path@, remove_change(tool, output)),
        ),
        ToolOperation::FsPatch { input, output } => match answers.change {
            Some(d) => Some((input.path@, diff_change(tool, d, Some(output.content_hash@)))),
            None => None,
        },
        ToolOperation::FsUndo { input, output } => match answers.change {
            Some(d) => Some((input.path@, diff_change(tool, d, text_view(answers.hash)))),
            None => None,
        },
        _ => None,
    }
}

/// The output of a command is small enough for its lines to be numbered.
pub open spec fn within_limits(op: ToolOperation) -> bool {
    match op {
        ToolOperation::Shell { output } => byte_len(output.output.stdout@) < usize::MAX
            && byte_len(output.output.stderr@) < usize::MAX,
        _ => true,
    }
}

/// A copy of a text, and the empty text where there is none.
fn owned_or_empty(s: &Option<String>) -> (out: String)
    ensures
        out@ == or_empty(*s),
{
    match s {
        Some(s) => s.clone(),
        None => String::new(),
    }
}

impl ToolOperation {
    /// What rendering this operation needs from outside: see
    /// [`change_request`], [`shown_request`] and [`hash_request`].
    pub fn requests(&self) -> (out: Requests)
        ensures
            pair_view(out.change) == change_request(*self),
            pair_view(out.shown) == shown_request(*self),
            text_view(out.hash) == hash_request(*self),
    {
        match self {
            ToolOperation::FsCreate { input, output } => Requests {
                change: Some(
                    DiffRequest {
                        before: owned_or_empty(&output.before),
                        after: input.content.clone(),
                    },
                ),
                shown: None,
                hash: None,
            },
            ToolOperation::FsPatch { input, output } => Requests {
                change: Some(
                    DiffRequest { before: output.before.clone(), after: output.after.clone() },
                ),
                shown: None,
                hash: None,
            },
            ToolOperation::FsUndo { input, output } => {
                let change = DiffRequest {
                    before: owned_or_empty(&output.after_undo),
                    after: owned_or_empty(&output.before_undo),
                };
                let shown = match (&output.before_undo, &output.after_undo) {
                    (Some(before), Some(after)) => Some(
                        DiffRequest { before: before.clone(), after: after.clone() },
                    ),
                    _ => None,
                };
                let hash = match &output.after_undo {
                    Some(after) => Some(after.clone()),
                    None => None,
                };
                Requests { change: Some(change), shown, hash }
            },
            _ => Requests { change: None, shown: None, hash: None },
        }
    }

    /// Renders this operation and records what it did to a file. The output
    /// is one value: the image for an image that was read, else the text of
    /// the operation's element, see [`operation_markup`]. For an operation on
    /// a file the ledger holds afterwards what [`operation_change`] gives,
    /// under the file's path, in place of what it held there; all else in
    /// the ledger stays, and other operations change nothing in it.
    pub fn into_tool_output(
        self,
        tool_kind: ToolKind,
        content_files: TempContentFiles,
        env: &Environment,
        answers: Answers,
        metrics: &mut Metrics,
    ) -> (out: ToolOutput)
        requires
            old(metrics).wf(),
            answers.fit(self),
            within_limits(self),
        ensures
            final(metrics).wf(),
            final(metrics)@ == match operation_change(self, tool_kind, answers) {
                Some((path, change)) => old(metrics)@.insert(path, change),
                None => old(metrics)@,
            },
            !out.is_error,
            out.values@.len() == 1,
            match operation_markup(self, content_files, *env, answers) {
                Some(m) => out.values@[0] is Text && out.values@[0]->Text_0@ == render(m),
                None => self is ImageRead && out.values@[0] == ToolValue::Image(
                    self->ImageRead_output,
                ),
            },
    {
        let shown_diff = match &answers.shown {
            Some(d) => strip_ansi(d.diff.as_str()),
            None => match &answers.change {
                Some(d) => strip_ansi(d.diff.as_str()),
                None => String::new(),
            },
        };
        let elem: Element = match self {
            ToolOperation::FsRead { input, output } => {
                let elem = read_element(&input, &output);
                metrics.record(input.path, read_operation(tool_kind, &output));
                elem
            },
            ToolOperation::ImageRead { output } => {
                return ToolOutput::image(output);
            },
            ToolOperation::FsCreate { input, output } => {
                let elem = create_element(&input, &output, shown_diff.as_str());
                match &answers.change {
                    Some(d) => {
                        metrics.record(
                            input.path,
                            diff_operation(tool_kind, d, Some(output.content_hash)),
                        );
                    },
                    None => {},
                }
                elem
            },
            ToolOperation::FsRemove { input, output } => {
                let shown_path = format_display_path(input.path.as_str(), env.cwd.as_str());
                metrics.record(input.path, remove_operation(tool_kind, &output));
                remove_element(shown_path.as_str())
            },
            ToolOperation::FsSearch { input, output } => search_element(&input, &output, env),
            ToolOperation::FsPatch { input, output } => {
                let elem = patch_element(&input, &output, shown_diff.as_str());
                match &answers.change {
                    Some(d) => {
                        metrics.record(
                            input.path,
                            diff_operation(tool_kind, d, Some(output.content_hash)),
                        );
                    },
                    None => {},
                }
                elem
            },
            ToolOperation::FsUndo { input, output } => {
                let elem = undo_element(&input, &output, shown_diff.as_str());
                match &answers.change {
                    Some(d) => {
                        metrics.record(input.path, diff_operation(tool_kind, d, answers.hash));
                    },
                    None => {},
                }
                elem
            },
            ToolOperation::NetFetch { input, output } => {
                let spill = match &content_files.stdout {
                    Some(p) => Some(p.as_str()),
                    None => None,
                };
                fetch_element(&input, &output, env.fetch_truncation_limit, spill)
            },
            ToolOperation::Shell { output } => {
                let stdout_path = match &content_files.stdout {
                    Some(p) => Some(p.as_str()),
                    None => None,
                };
                let stderr_path = match &content_files.stderr {
                    Some(p) => Some(p.as_str()),
                    None => None,
                };
                shell_element(&output, stdout_path, stderr_path, env)
            },
            ToolOperation::FollowUp { output } => follow_up_element(&output),
            ToolOperation::PlanCreate { input, output } => plan_element(&input, &output),
            ToolOperation::Skill { input, output } => skill_element(&output),
        };
        ToolOutput::text(elem.render())
    }
}

} // verus!
