use vstd::prelude::*;

verus! {

/// The limits and the place that tool output is rendered for.
#[derive(Debug, Clone)]
pub struct Environment {
    /// Working directory, against which paths are shown.
    pub cwd: String,
    /// Most result lines of one search page.
    pub max_search_lines: usize,
    /// Most bytes of one search page.
    pub max_search_result_bytes: usize,
    /// Most bytes of fetched content shown inline.
    pub fetch_truncation_limit: usize,
    /// Most leading lines shown of a command's stream.
    pub stdout_max_prefix_length: usize,
    /// Most trailing lines shown of a command's stream.
    pub stdout_max_suffix_length: usize,
    /// Most characters shown of one line of a command's stream.
    pub stdout_max_line_length: usize,
    /// Most lines read from a file at once.
    pub max_read_size: u64,
    /// Largest file, in bytes, that is read.
    pub max_file_size: u64,
}

/// A request to read a file.
#[derive(Debug, Clone)]
pub struct FSRead {
    pub path: String,
    pub start_line: Option<i32>,
    pub end_line: Option<i32>,
    pub show_line_numbers: bool,
}

/// A request to write a file.
#[derive(Debug, Clone)]
pub struct FSWrite {
    pub path: String,
    pub content: String,
    pub overwrite: bool,
}

/// A request to remove a file.
#[derive(Debug, Clone)]
pub struct FSRemove {
    pub path: String,
}

/// A request to search files.
#[derive(Debug, Clone)]
pub struct FSSearch {
    pub path: String,
    pub regex: Option<String>,
    /// Number of the first result wanted, counting from 1.
    pub start_index: Option<i32>,
    pub max_search_lines: Option<i32>,
    pub file_pattern: Option<String>,
}

/// How a patch changes the text it finds.
#[derive(Debug, Clone, Copy, PartialEq, Eq)]
pub enum PatchOperation {
    Prepend,
    Append,
    Replace,
    ReplaceAll,
    Swap,
}

/// A request to patch a file.
#[derive(Debug, Clone)]
pub struct FSPatch {
    pub path: String,
    pub search: Option<String>,
    pub operation: PatchOperation,
    pub content: String,
}

/// A request to undo the last change to a file.
#[derive(Debug, Clone)]
pub struct FSUndo {
    pub path: String,
}

/// A request to fetch a URL.
#[derive(Debug, Clone)]
pub struct NetFetch {
    pub url: String,
    pub raw: Option<bool>,
}

/// A request to store a plan.
#[derive(Debug, Clone)]
pub struct PlanCreate {
    pub plan_name: String,
    pub version: String,
    pub content: String,
}

/// A request for a skill.
#[derive(Debug, Clone)]
pub struct SkillFetch {
    pub name: String,
}

/// A skill: a command text with resources.
#[derive(Debug, Clone)]
pub struct Skill {
    pub name: String,
    /// Where the skill is stored.
    pub path: Option<String>,
    pub command: String,
    pub description: String,
    /// Paths of the files that belong to the skill.
    pub resources: Vec<String>,
}

/// An image: its data as a URL and its type.
#[derive(Debug, Clone)]
pub struct Image {
    pub url: String,
    pub mime_type: String,
}

/// What a command printed and how it ended.
#[derive(Debug, Clone)]
pub struct CommandOutput {
    pub command: String,
    pub stdout: String,
    pub stderr: String,
    pub exit_code: Option<i32>,
}

/// One value of a tool's output.
#[derive(Debug, Clone)]
pub enum ToolValue {
    Text(String),
    Image(Image),
    Empty,
    AI { value: String, conversation_id: String },
}

/// The output of a tool.
#[derive(Debug, Clone)]
pub struct ToolOutput {
    pub is_error: bool,
    pub values: Vec<ToolValue>,
}

/// The content of something read.
#[derive(Debug, Clone)]
pub enum Content {
    File(String),
}

/// The result of reading a file.
#[derive(Debug, Clone)]
pub struct ReadOutput {
    pub content: Content,
    /// Number of the first line that was read, counting from 1.
    pub start_line: u64,
    /// Number of the last line that was read.
    pub end_line: u64,
    /// Number of lines of the whole file.
    pub total_lines: u64,
    pub content_hash: String,
}

/// The result of writing a file.
#[derive(Debug, Clone)]
pub struct FsCreateOutput {
    pub path: String,
    /// What the file held before, when it existed.
    pub before: Option<String>,
    pub content_hash: String,
}

/// The result of removing a file.
#[derive(Debug, Clone)]
pub struct FsRemoveOutput {
    /// What the file held.
    pub content: String,
}

/// What was found in one place.
#[derive(Debug, Clone)]
pub enum MatchResult {
    Error(String),
    Found { line_number: usize, line: String },
}

/// One search result.
#[derive(Debug, Clone)]
pub struct Match {
    pub path: String,
    pub result: Option<MatchResult>,
}

/// The results of a search.
#[derive(Debug, Clone)]
pub struct SearchResult {
    pub matches: Vec<Match>,
}

/// The result of patching a file.
#[derive(Debug, Clone)]
pub struct PatchOutput {
    pub before: String,
    pub after: String,
    pub content_hash: String,
}

/// The result of undoing a change.
#[derive(Debug, Clone)]
pub struct FsUndoOutput {
    /// What the file held before the undo, `None` when it did not exist.
    pub before_undo: Option<String>,
    /// What the file holds after the undo, `None` when it no longer exists.
    pub after_undo: Option<String>,
}

/// Whether fetched content was converted or is as it was sent.
#[derive(Debug, Clone, Copy, PartialEq, Eq)]
pub enum ResponseContext {
    Parsed,
    Raw,
}

/// The result of fetching a URL.
#[derive(Debug, Clone)]
pub struct HttpResponse {
    pub content: String,
    pub code: u16,
    pub context: ResponseContext,
    pub content_type: String,
}

/// The result of running a command.
#[derive(Debug, Clone)]
pub struct ShellOutput {
    pub output: CommandOutput,
    pub shell: String,
}

/// The result of storing a plan.
#[derive(Debug, Clone)]
pub struct PlanCreateOutput {
    pub path: String,
    pub before: Option<String>,
}

/// A diff between two texts, with the number of lines it adds and removes.
#[derive(Debug, Clone)]
pub struct DiffResult {
    pub diff: String,
    pub lines_added: u64,
    pub lines_removed: u64,
}

impl Content {
    /// The text held.
    pub open spec fn text(&self) -> Seq<char> {
        match self {
            Content::File(s) => s@,
        }
    }

    /// File content.
    pub fn file(content: &str) -> (out: Content)
        ensures
            out.text() == content@,
    {
        Content::File(content.to_owned())
    }

    /// The text held.
    pub fn file_content(&self) -> (out: &str)
        ensures
            out@ == self.text(),
    {
        match self {
            Content::File(s) => s.as_str(),
        }
    }
}

impl ToolOutput {
    /// An output of one text value, not an error.
    pub fn text(text: String) -> (out: ToolOutput)
        ensures
            !out.is_error,
            out.values@ == seq![ToolValue::Text(text)],
    {
        let mut values: Vec<ToolValue> = Vec::new();
        values.push(ToolValue::Text(text));
        ToolOutput { is_error: false, values }
    }

    /// An output of one image, not an error.
    pub fn image(image: Image) -> (out: ToolOutput)
        ensures
            !out.is_error,
            out.values@ == seq![ToolValue::Image(image)],
    {
        let mut values: Vec<ToolValue> = Vec::new();
        values.push(ToolValue::Image(image));
        ToolOutput { is_error: false, values }
    }
}

impl Environment {
    /// Sets `cwd`.
    pub fn cwd(self, cwd: String) -> (out: Environment)
        ensures
            out == (Environment { cwd, ..self }),
    {
        Environment { cwd, ..self }
    }

    /// Sets `max_search_lines`.
    pub fn max_search_lines(self, max_search_lines: usize) -> (out: Environment)
        ensures
            out == (Environment { max_search_lines, ..self }),
    {
        Environment { max_search_lines, ..self }
    }

    /// Sets `max_search_result_bytes`.
    pub fn max_search_result_bytes(self, max_search_result_bytes: usize) -> (out: Environment)
        ensures
            out == (Environment { max_search_result_bytes, ..self }),
    {
        Environment { max_search_result_bytes, ..self }
    }

    /// Sets `fetch_truncation_limit`.
    pub fn fetch_truncation_limit(self, fetch_truncation_limit: usize) -> (out: Environment)
        ensures
            out == (Environment { fetch_truncation_limit, ..self }),
    {
        Environment { fetch_truncation_limit, ..self }
    }

    /// Sets `stdout_max_prefix_length`.
    pub fn stdout_max_prefix_length(self, stdout_max_prefix_length: usize) -> (out: Environment)
        ensures
            out == (Environment { stdout_max_prefix_length, ..self }),
    {
        Environment { stdout_max_prefix_length, ..self }
    }

    /// Sets `stdout_max_suffix_length`.
    pub fn stdout_max_suffix_length(self, stdout_max_suffix_length: usize) -> (out: Environment)
        ensures
            out == (Environment { stdout_max_suffix_length, ..self }),
    {
        Environment { stdout_max_suffix_length, ..self }
    }

    /// Sets `stdout_max_line_length`.
    pub fn stdout_max_line_length(self, stdout_max_line_length: usize) -> (out: Environment)
        ensures
            out == (Environment { stdout_max_line_length, ..self }),
    {
        Environment { stdout_max_line_length, ..self }
    }

    /// Sets `max_read_size`.
    pub fn max_read_size(self, max_read_size: u64) -> (out: Environment)
        ensures
            out == (Environment { max_read_size, ..self }),
    {
        Environment { max_read_size, ..self }
    }

    /// Sets `max_file_size`.
    pub fn max_file_size(self, max_file_size: u64) -> (out: Environment)
        ensures
            out == (Environment { max_file_size, ..self }),
    {
        Environment { max_file_size, ..self }
    }
}

impl ReadOutput {
    /// The range that was read lies within the file: in a file that has
    /// lines, the first line read is at least the first line, the last line
    /// read is not before the first, and not after the last line of the
    /// file.
    pub open spec fn in_range(&self) -> bool {
        self.total_lines > 0 ==> 1 <= self.start_line <= self.end_line <= self.total_lines
    }

    /// Whether the range that was read lies within the file: see
    /// [`ReadOutput::in_range`].
    pub fn is_in_range(&self) -> (out: bool)
        ensures
            out == self.in_range(),
    {
        self.total_lines == 0 || (1 <= self.start_line && self.start_line <= self.end_line
            && self.end_line <= self.total_lines)
    }
}

impl Skill {
    /// A skill with a name, a command text and a description, stored nowhere
    /// and without resources.
    pub fn new(name: &str, command: &str, description: &str) -> (out: Skill)
        ensures
            out.name@ == name@,
            out.command@ == command@,
            out.description@ == description@,
            out.path is None,
            out.resources@.len() == 0,
    {
        Skill {
            name: name.to_owned(),
            path: None,
            command: command.to_owned(),
            description: description.to_owned(),
            resources: Vec::new(),
        }
    }

    /// Sets where the skill is stored.
    pub fn path(self, path: &str) -> (out: Skill)
        ensures
            out.path is Some,
            out.path->0@ == path@,
            out.name == self.name,
            out.command == self.command,
            out.description == self.description,
            out.resources == self.resources,
    {
        Skill {
            name: self.name,
            path: Some(path.to_owned()),
            command: self.command,
            description: self.description,
            resources: self.resources,
        }
    }

    /// Sets the resources.
    pub fn resources(self, resources: Vec<String>) -> (out: Skill)
        ensures
            out == (Skill { resources, ..self }),
    {
        Skill {
            name: self.name,
            path: self.path,
            command: self.command,
            description: self.description,
            resources,
        }
    }
}

} // verus!
