use vstd::prelude::*;

verus! {

/// The command line as it was understood.
#[derive(Debug, Clone)]
pub struct Cli {
    /// A prompt to process without an interactive session.
    pub prompt: Option<String>,
    /// What was piped in. It is never set from the arguments.
    pub piped_input: Option<String>,
    /// Path of a file that holds the conversation to run.
    pub conversation: Option<String>,
    /// The conversation to go on with.
    pub conversation_id: Option<String>,
    /// Directory to change to before the session starts.
    pub directory: Option<String>,
    /// Name of a separate worktree to make and work in.
    pub sandbox: Option<String>,
    pub verbose: bool,
    pub restricted: bool,
    /// The agent to use.
    pub agent: Option<String>,
    pub subcommands: Option<TopLevelCommand>,
    /// Path of a file that holds the workflow to run.
    pub workflow: Option<String>,
    /// An event to hand to the workflow.
    pub event: Option<String>,
}

/// The commands of the command line.
#[derive(Debug, Clone)]
pub enum TopLevelCommand {
    /// Start the background server.
    Server { socket: Option<String>, verbose: bool },
    /// Manage agents.
    Agent(AgentCommandGroup),
    /// Write shell extension scripts.
    Extension(ExtensionCommandGroup),
    /// List what there is.
    List(ListCommandGroup),
    /// Show the banner.
    Banner,
    /// Show the configuration and the state of the session.
    Info { conversation_id: Option<String>, porcelain: bool },
    /// Show the environment.
    Env,
    /// Read and change the configuration.
    Config(ConfigCommandGroup),
    /// Manage conversations.
    Conversation(ConversationCommandGroup),
    /// Write a commit message and commit.
    Commit(CommitCommandGroup),
    /// Manage servers of the model context protocol.
    Mcp(McpCommandGroup),
    /// Suggest a shell command for a description.
    Suggest { prompt: String },
    /// Manage the login to providers.
    Provider(ProviderCommandGroup),
    /// Run or list custom commands.
    Cmd(CmdCommandGroup),
    /// Process data.
    Data(DataCommandGroup),
}

#[derive(Debug, Clone)]
pub struct AgentCommandGroup {
    pub command: AgentCommand,
}

#[derive(Debug, Clone)]
pub enum AgentCommand {
    List,
}

/// Where a setting applies.
#[derive(Copy, Clone, Debug)]
pub enum Scope {
    /// To the project.
    Local,
    /// To the user.
    User,
}

impl Default for Scope {
    fn default() -> (out: Scope)
        ensures
            out is Local,
    {
        Scope::Local
    }
}

#[derive(Debug, Clone)]
pub struct ListCommandGroup {
    pub command: ListCommand,
}

#[derive(Debug, Clone)]
pub enum ListCommand {
    Agent,
}

#[derive(Debug, Clone)]
pub struct ExtensionCommandGroup {
    pub command: ExtensionCommand,
}

#[derive(Debug, Clone)]
pub enum ExtensionCommand {
    Zsh,
}

#[derive(Debug, Clone)]
pub struct McpCommandGroup {
    pub command: McpCommand,
}

#[derive(Debug, Clone)]
pub enum McpCommand {
    List,
}

#[derive(Debug, Clone)]
pub struct ConfigCommandGroup {
    pub command: ConfigCommand,
}

#[derive(Debug, Clone)]
pub enum ConfigCommand {
    List,
}

#[derive(Debug, Clone)]
pub struct ConversationCommandGroup {
    pub command: ConversationCommand,
}

#[derive(Debug, Clone)]
pub enum ConversationCommand {
    List,
}

#[derive(Debug, Clone)]
pub struct CommitCommandGroup {
    /// Show the changes without applying them.
    pub preview: bool,
}

#[derive(Debug, Clone)]
pub struct ProviderCommandGroup {
    pub command: ProviderCommand,
}

#[derive(Debug, Clone)]
pub enum ProviderCommand {
    Login,
}

#[derive(Debug, Clone)]
pub struct CmdCommandGroup {
    pub command: CmdCommand,
}

#[derive(Debug, Clone)]
pub enum CmdCommand {
    List,
}

#[derive(Debug, Clone)]
pub struct DataCommandGroup {
    pub command: DataCommand,
}

#[derive(Debug, Clone)]
pub enum DataCommand {
    Process { params: String },
}

/// Why a command line was not understood. Each holds the argument at which
/// it went wrong.
#[derive(Debug, Clone)]
pub enum CliError {
    /// An option that does not exist.
    UnknownArgument(String),
    /// An option that wants a value and has none.
    MissingValue(String),
    /// An option given twice.
    Repeated(String),
    /// A command that does not exist.
    UnknownSubcommand(String),
    /// A command that wants another word after it and has none.
    MissingSubcommand(String),
    /// An argument after the end of a command.
    UnexpectedArgument(String),
    /// A command that wants an argument and has none.
    MissingArgument(String),
}

/// The empty command line.
pub open spec fn no_arguments() -> Cli {
    Cli {
        prompt: None,
        piped_input: None,
        conversation: None,
        conversation_id: None,
        directory: None,
        sandbox: None,
        verbose: false,
        restricted: false,
        agent: None,
        subcommands: None,
        workflow: None,
        event: None,
    }
}

impl Cli {
    /// The empty command line.
    pub fn new() -> (out: Cli)
        ensures
            out == no_arguments(),
    {
        Cli {
            prompt: None,
            piped_input: None,
            conversation: None,
            conversation_id: None,
            directory: None,
            sandbox: None,
            verbose: false,
            restricted: false,
            agent: None,
            subcommands: None,
            workflow: None,
            event: None,
        }
    }

    /// Whether an interactive session is wanted: there is no prompt, nothing
    /// was piped in, and there is no command.
    pub fn is_interactive(&self) -> (out: bool)
        ensures
            out == (self.prompt is None && self.piped_input is None && self.subcommands is None),
    {
        self.prompt.is_none() && self.piped_input.is_none() && self.subcommands.is_none()
    }
}

} // verus!
