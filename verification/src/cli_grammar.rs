use vstd::prelude::*;
use crate::cli::{
    no_arguments, AgentCommand, AgentCommandGroup, Cli, CliError, CmdCommand, CmdCommandGroup,
    CommitCommandGroup, ConfigCommand, ConfigCommandGroup, ConversationCommand,
    ConversationCommandGroup, DataCommand, DataCommandGroup, ExtensionCommand,
    ExtensionCommandGroup, ListCommand, ListCommandGroup, McpCommand, McpCommandGroup,
    ProviderCommand, ProviderCommandGroup, TopLevelCommand,
};
use crate::lines::text_eq;

verus! {

/// The options before a command that take a value.
#[derive(Clone, Copy, Debug, PartialEq, Eq)]
pub enum ValueOption {
    Prompt,
    Conversation,
    ConversationId,
    Directory,
    Sandbox,
    Agent,
    Workflow,
    Event,
}

/// The options before a command that take no value.
#[derive(Clone, Copy, Debug, PartialEq, Eq)]
pub enum Flag {
    Verbose,
    Restricted,
}

/// The option that an argument names, if it names one that takes a value.
pub open spec fn value_option(t: Seq<char>) -> Option<ValueOption> {
    if t == "--prompt"@ || t == "-p"@ {
        Some(ValueOption::Prompt)
    } else if t == "--conversation"@ {
        Some(ValueOption::Conversation)
    } else if t == "--conversation-id"@ || t == "--cid"@ {
        Some(ValueOption::ConversationId)
    } else if t == "--directory"@ || t == "-C"@ {
        Some(ValueOption::Directory)
    } else if t == "--sandbox"@ {
        Some(ValueOption::Sandbox)
    } else if t == "--agent"@ || t == "--aid"@ {
        Some(ValueOption::Agent)
    } else if t == "--workflow"@ || t == "-w"@ {
        Some(ValueOption::Workflow)
    } else if t == "--event"@ || t == "-e"@ {
        Some(ValueOption::Event)
    } else {
        None
    }
}

/// The option that an argument names, if it names one that takes no value.
pub open spec fn flag_option(t: Seq<char>) -> Option<Flag> {
    if t == "--verbose"@ {
        Some(Flag::Verbose)
    } else if t == "--restricted"@ || t == "-r"@ {
        Some(Flag::Restricted)
    } else {
        None
    }
}

/// An argument that starts with a hyphen is taken for an option.
pub open spec fn looks_like_option(t: Seq<char>) -> bool {
    t.len() > 0 && t[0] == '-'
}

/// The value of an option, as far as it was given.
pub open spec fn value_of(cli: Cli, option: ValueOption) -> Option<String> {
    match option {
        ValueOption::Prompt => cli.prompt,
        ValueOption::Conversation => cli.conversation,
        ValueOption::ConversationId => cli.conversation_id,
        ValueOption::Directory => cli.directory,
        ValueOption::Sandbox => cli.sandbox,
        ValueOption::Agent => cli.agent,
        ValueOption::Workflow => cli.workflow,
        ValueOption::Event => cli.event,
    }
}

/// The command line with an option set to a value.
pub open spec fn with_value(cli: Cli, option: ValueOption, value: String) -> Cli {
    match option {
        ValueOption::Prompt => Cli { prompt: Some(value), ..cli },
        ValueOption::Conversation => Cli { conversation: Some(value), ..cli },
        ValueOption::ConversationId => Cli { conversation_id: Some(value), ..cli },
        ValueOption::Directory => Cli { directory: Some(value), ..cli },
        ValueOption::Sandbox => Cli { sandbox: Some(value), ..cli },
        ValueOption::Agent => Cli { agent: Some(value), ..cli },
        ValueOption::Workflow => Cli { workflow: Some(value), ..cli },
        ValueOption::Event => Cli { event: Some(value), ..cli },
    }
}

/// Whether an option without value was given.
pub open spec fn flag_of(cli: Cli, flag: Flag) -> bool {
    match flag {
        Flag::Verbose => cli.verbose,
        Flag::Restricted => cli.restricted,
    }
}

/// The command line with an option without value given.
pub open spec fn with_flag(cli: Cli, flag: Flag) -> Cli {
    match flag {
        Flag::Verbose => Cli { verbose: true, ..cli },
        Flag::Restricted => Cli { restricted: true, ..cli },
    }
}

/// What stands after a command that takes one word out of two spellings:
/// nothing else is accepted.
pub open spec fn one_word(args: Seq<String>, i: int, first: Seq<char>, second: Seq<char>)
    -> Result<(), CliError> {
    if i + 1 >= args.len() {
        Err(CliError::MissingSubcommand(args[i]))
    } else if args[i + 1]@ != first && args[i + 1]@ != second {
        Err(CliError::UnknownSubcommand(args[i + 1]))
    } else if i + 2 < args.len() {
        Err(CliError::UnexpectedArgument(args[i + 2]))
    } else {
        Ok(())
    }
}

/// The command with the outcome of [`one_word`]: the command where the word
/// was accepted, else the error.
pub open spec fn if_accepted(word: Result<(), CliError>, command: TopLevelCommand) -> Result<
    TopLevelCommand,
    CliError,
> {
    match word {
        Ok(_) => Ok(command),
        Err(e) => Err(e),
    }
}

/// The options of `server` from argument `i` on: `--socket` with a value, and
/// `--verbose`, each at most once, in any order.
pub open spec fn server_options(args: Seq<String>, i: int, socket: Option<String>, verbose: bool)
    -> Result<TopLevelCommand, CliError>
    decreases args.len() - i,
{
    if i >= args.len() || i < 0 {
        Ok(TopLevelCommand::Server { socket, verbose })
    } else if args[i]@ == "--socket"@ {
        if socket is Some {
            Err(CliError::Repeated(args[i]))
        } else if i + 1 >= args.len() || looks_like_option(args[i + 1]@) {
            Err(CliError::MissingValue(args[i]))
        } else {
            server_options(args, i + 2, Some(args[i + 1]), verbose)
        }
    } else if args[i]@ == "--verbose"@ {
        if verbose {
            Err(CliError::Repeated(args[i]))
        } else {
            server_options(args, i + 1, socket, true)
        }
    } else if looks_like_option(args[i]@) {
        Err(CliError::UnknownArgument(args[i]))
    } else {
        Err(CliError::UnexpectedArgument(args[i]))
    }
}

/// The options of `info` from argument `i` on: `--conversation-id` or `--cid`
/// with a value, and `--porcelain`, each at most once, in any order.
pub open spec fn info_options(
    args: Seq<String>,
    i: int,
    conversation_id: Option<String>,
    porcelain: bool,
) -> Result<TopLevelCommand, CliError>
    decreases args.len() - i,
{
    if i >= args.len() || i < 0 {
        Ok(TopLevelCommand::Info { conversation_id, porcelain })
    } else if args[i]@ == "--conversation-id"@ || args[i]@ == "--cid"@ {
        if conversation_id is Some {
            Err(CliError::Repeated(args[i]))
        } else if i + 1 >= args.len() || looks_like_option(args[i + 1]@) {
            Err(CliError::MissingValue(args[i]))
        } else {
            info_options(args, i + 2, Some(args[i + 1]), porcelain)
        }
    } else if args[i]@ == "--porcelain"@ {
        if porcelain {
            Err(CliError::Repeated(args[i]))
        } else {
            info_options(args, i + 1, conversation_id, true)
        }
    } else if looks_like_option(args[i]@) {
        Err(CliError::UnknownArgument(args[i]))
    } else {
        Err(CliError::UnexpectedArgument(args[i]))
    }
}

/// The options of `commit` from argument `i` on: `--preview`, at most once.
pub open spec fn commit_options(args: Seq<String>, i: int, preview: bool) -> Result<
    TopLevelCommand,
    CliError,
>
    decreases args.len() - i,
{
    if i >= args.len() || i < 0 {
        Ok(TopLevelCommand::Commit(CommitCommandGroup { preview }))
    } else if args[i]@ == "--preview"@ {
        if preview {
            Err(CliError::Repeated(args[i]))
        } else {
            commit_options(args, i + 1, true)
        }
    } else if looks_like_option(args[i]@) {
        Err(CliError::UnknownArgument(args[i]))
    } else {
        Err(CliError::UnexpectedArgument(args[i]))
    }
}

/// The command that starts at argument `i`, which is the command's name. All
/// arguments from there on belong to the command.
pub open spec fn command_at(args: Seq<String>, i: int) -> Result<TopLevelCommand, CliError> {
    let name = args[i]@;
    if name == "server"@ {
        server_options(args, i + 1, None, false)
    } else if name == "agent"@ {
        if_accepted(
            one_word(args, i, "list"@, "ls"@),
            TopLevelCommand::Agent(AgentCommandGroup { command: AgentCommand::List }),
        )
    } else if name == "extension"@ {
        if_accepted(
            one_word(args, i, "zsh"@, "zsh"@),
            TopLevelCommand::Extension(ExtensionCommandGroup { command: ExtensionCommand::Zsh }),
        )
    } else if name == "list"@ {
        if_accepted(
            one_word(args, i, "agent"@, "agents"@),
            TopLevelCommand::List(ListCommandGroup { command: ListCommand::Agent }),
        )
    } else if name == "banner"@ {
        if i + 1 < args.len() {
            Err(CliError::UnexpectedArgument(args[i + 1]))
        } else {
            Ok(TopLevelCommand::Banner)
        }
    } else if name == "info"@ {
        info_options(args, i + 1, None, false)
    } else if name == "env"@ {
        if i + 1 < args.len() {
            Err(CliError::UnexpectedArgument(args[i + 1]))
        } else {
            Ok(TopLevelCommand::Env)
        }
    } else if name == "config"@ {
        if_accepted(
            one_word(args, i, "list"@, "list"@),
            TopLevelCommand::Config(ConfigCommandGroup { command: ConfigCommand::List }),
        )
    } else if name == "conversation"@ || name == "session"@ {
        if_accepted(
            one_word(args, i, "list"@, "list"@),
            TopLevelCommand::Conversation(
                ConversationCommandGroup { command: ConversationCommand::List },
            ),
        )
    } else if name == "commit"@ {
        commit_options(args, i + 1, false)
    } else if name == "mcp"@ {
        if_accepted(
            one_word(args, i, "list"@, "list"@),
            TopLevelCommand::Mcp(McpCommandGroup { command: McpCommand::List }),
        )
    } else if name == "suggest"@ {
        if i + 1 >= args.len() {
            Err(CliError::MissingArgument(args[i]))
        } else if i + 2 < args.len() {
            Err(CliError::UnexpectedArgument(args[i + 2]))
        } else {
            Ok(TopLevelCommand::Suggest { prompt: args[i + 1] })
        }
    } else if name == "provider"@ {
        if_accepted(
            one_word(args, i, "login"@, "login"@),
            TopLevelCommand::Provider(ProviderCommandGroup { command: ProviderCommand::Login }),
        )
    } else if name == "cmd"@ {
        if_accepted(
            one_word(args, i, "list"@, "list"@),
            TopLevelCommand::Cmd(CmdCommandGroup { command: CmdCommand::List }),
        )
    } else if name == "data"@ {
        if i + 1 >= args.len() {
            Err(CliError::MissingSubcommand(args[i]))
        } else if args[i + 1]@ != "process"@ {
            Err(CliError::UnknownSubcommand(args[i + 1]))
        } else if i + 2 >= args.len() {
            Err(CliError::MissingArgument(args[i + 1]))
        } else if i + 3 < args.len() {
            Err(CliError::UnexpectedArgument(args[i + 3]))
        } else {
            Ok(
                TopLevelCommand::Data(
                    DataCommandGroup { command: DataCommand::Process { params: args[i + 2] } },
                ),
            )
        }
    } else {
        Err(CliError::UnknownSubcommand(args[i]))
    }
}

/// The command line from argument `i` on, given what the arguments before
/// it made. Options come first, each at most once. An option that takes a
/// value takes the next argument, which for all but the prompt may not
/// start with a hyphen. The first argument that is no option is the name
/// of a command, to which all later arguments belong.
pub open spec fn arguments_from(args: Seq<String>, i: int, so_far: Cli) -> Result<Cli, CliError>
    decreases args.len() - i,
{
    if i >= args.len() || i < 0 {
        Ok(so_far)
    } else {
        match value_option(args[i]@) {
            Some(option) => {
                if value_of(so_far, option) is Some {
                    Err(CliError::Repeated(args[i]))
                } else if i + 1 >= args.len() || (option != ValueOption::Prompt
                    && looks_like_option(args[i + 1]@)) {
                    Err(CliError::MissingValue(args[i]))
                } else {
                    arguments_from(args, i + 2, with_value(so_far, option, args[i + 1]))
                }
            },
            None => match flag_option(args[i]@) {
                Some(flag) => {
                    if flag_of(so_far, flag) {
                        Err(CliError::Repeated(args[i]))
                    } else {
                        arguments_from(args, i + 1, with_flag(so_far, flag))
                    }
                },
                None => {
                    if looks_like_option(args[i]@) {
                        Err(CliError::UnknownArgument(args[i]))
                    } else {
                        match command_at(args, i) {
                            Ok(command) => Ok(Cli { subcommands: Some(command), ..so_far }),
                            Err(e) => Err(e),
                        }
                    }
                },
            },
        }
    }
}

/// What a command line means. The first argument is the program's name and
/// is passed over.
pub open spec fn parsed(args: Seq<String>) -> Result<Cli, CliError> {
    arguments_from(args, 1, no_arguments())
}

/// Whether an argument starts with a hyphen.
fn starts_with_hyphen(t: &str) -> (out: bool)
    ensures
        out == looks_like_option(t@),
{
    t.unicode_len() > 0 && t.get_char(0) == '-'
}

/// The option that an argument names: see [`value_option`].
fn value_option_of(t: &str) -> (out: Option<ValueOption>)
    ensures
        out == value_option(t@),
{
    if text_eq(t, "--prompt") || text_eq(t, "-p") {
        Some(ValueOption::Prompt)
    } else if text_eq(t, "--conversation") {
        Some(ValueOption::Conversation)
    } else if text_eq(t, "--conversation-id") || text_eq(t, "--cid") {
        Some(ValueOption::ConversationId)
    } else if text_eq(t, "--directory") || text_eq(t, "-C") {
        Some(ValueOption::Directory)
    } else if text_eq(t, "--sandbox") {
        Some(ValueOption::Sandbox)
    } else if text_eq(t, "--agent") || text_eq(t, "--aid") {
        Some(ValueOption::Agent)
    } else if text_eq(t, "--workflow") || text_eq(t, "-w") {
        Some(ValueOption::Workflow)
    } else if text_eq(t, "--event") || text_eq(t, "-e") {
        Some(ValueOption::Event)
    } else {
        None
    }
}

/// The option that an argument names: see [`flag_option`].
fn flag_option_of(t: &str) -> (out: Option<Flag>)
    ensures
        out == flag_option(t@),
{
    if text_eq(t, "--verbose") {
        Some(Flag::Verbose)
    } else if text_eq(t, "--restricted") || text_eq(t, "-r") {
        Some(Flag::Restricted)
    } else {
        None
    }
}

/// Whether an option has a value.
fn has_value(cli: &Cli, option: ValueOption) -> (out: bool)
    ensures
        out == (value_of(*cli, option) is Some),
{
    match option {
        ValueOption::Prompt => cli.prompt.is_some(),
        ValueOption::Conversation => cli.conversation.is_some(),
        ValueOption::ConversationId => cli.conversation_id.is_some(),
        ValueOption::Directory => cli.directory.is_some(),
        ValueOption::Sandbox => cli.sandbox.is_some(),
        ValueOption::Agent => cli.agent.is_some(),
        ValueOption::Workflow => cli.workflow.is_some(),
        ValueOption::Event => cli.event.is_some(),
    }
}

/// Sets an option to a value.
fn set_value(cli: &mut Cli, option: ValueOption, value: String)
    ensures
        *final(cli) == with_value(*old(cli), option, value),
{
    match option {
        ValueOption::Prompt => {
            cli.prompt = Some(value);
        },
        ValueOption::Conversation => {
            cli.conversation = Some(value);
        },
        ValueOption::ConversationId => {
            cli.conversation_id = Some(value);
        },
        ValueOption::Directory => {
            cli.directory = Some(value);
        },
        ValueOption::Sandbox => {
            cli.sandbox = Some(value);
        },
        ValueOption::Agent => {
            cli.agent = Some(value);
        },
        ValueOption::Workflow => {
            cli.workflow = Some(value);
        },
        ValueOption::Event => {
            cli.event = Some(value);
        },
    }
}

/// Reads the one word after a command: see [`one_word`].
fn read_one_word(args: &Vec<String>, i: usize, first: &str, second: &str) -> (out: Result<
    (),
    CliError,
>)
    requires
        i < args@.len(),
    ensures
        out == one_word(args@, i as int, first@, second@),
{
    let count: usize = args.len();
    if i + 1 >= count {
        Err(CliError::MissingSubcommand(args[i].clone()))
    } else if !text_eq(args[i + 1].as_str(), first) && !text_eq(args[i + 1].as_str(), second) {
        Err(CliError::UnknownSubcommand(args[i + 1].clone()))
    } else if i + 2 < args.len() {
        Err(CliError::UnexpectedArgument(args[i + 2].clone()))
    } else {
        Ok(())
    }
}

/// The command where its word was accepted: see [`if_accepted`].
fn accepted(word: Result<(), CliError>, command: TopLevelCommand) -> (out: Result<
    TopLevelCommand,
    CliError,
>)
    ensures
        out == if_accepted(word, command),
{
    match word {
        Ok(_) => Ok(command),
        Err(e) => Err(e),
    }
}

/// Reads the options of `server`: see [`server_options`].
fn read_server(args: &Vec<String>, from: usize) -> (out: Result<TopLevelCommand, CliError>)
    requires
        from <= args@.len(),
    ensures
        out == server_options(args@, from as int, None, false),
{
    let mut i: usize = from;
    let mut socket: Option<String> = None;
    let mut verbose = false;
    while i < args.len()
        invariant
            from <= i <= args@.len(),
            server_options(args@, from as int, None, false) == server_options(
                args@,
                i as int,
                socket,
                verbose,
            ),
        decreases args@.len() - i,
    {
        let t = args[i].as_str();
        if text_eq(t, "--socket") {
            if socket.is_some() {
                return Err(CliError::Repeated(args[i].clone()));
            } else if i + 1 >= args.len() || starts_with_hyphen(args[i + 1].as_str()) {
                return Err(CliError::MissingValue(args[i].clone()));
            } else {
                socket = Some(args[i + 1].clone());
                i += 2;
            }
        } else if text_eq(t, "--verbose") {
            if verbose {
                return Err(CliError::Repeated(args[i].clone()));
            } else {
                verbose = true;
                i += 1;
            }
        } else if starts_with_hyphen(t) {
            return Err(CliError::UnknownArgument(args[i].clone()));
        } else {
            return Err(CliError::UnexpectedArgument(args[i].clone()));
        }
    }
    Ok(TopLevelCommand::Server { socket, verbose })
}

/// Reads the options of `info`: see [`info_options`].
fn read_info(args: &Vec<String>, from: usize) -> (out: Result<TopLevelCommand, CliError>)
    requires
        from <= args@.len(),
    ensures
        out == info_options(args@, from as int, None, false),
{
    let mut i: usize = from;
    let mut conversation_id: Option<String> = None;
    let mut porcelain = false;
    while i < args.len()
        invariant
            from <= i <= args@.len(),
            info_options(args@, from as int, None, false) == info_options(
                args@,
                i as int,
                conversation_id,
                porcelain,
            ),
        decreases args@.len() - i,
    {
        let t = args[i].as_str();
        if text_eq(t, "--conversation-id") || text_eq(t, "--cid") {
            if conversation_id.is_some() {
                return Err(CliError::Repeated(args[i].clone()));
            } else if i + 1 >= args.len() || starts_with_hyphen(args[i + 1].as_str()) {
                return Err(CliError::MissingValue(args[i].clone()));
            } else {
                conversation_id = Some(args[i + 1].clone());
                i += 2;
            }
        } else if text_eq(t, "--porcelain") {
            if porcelain {
                return Err(CliError::Repeated(args[i].clone()));
            } else {
                porcelain = true;
                i += 1;
            }
        } else if starts_with_hyphen(t) {
            return Err(CliError::UnknownArgument(args[i].clone()));
        } else {
            return Err(CliError::UnexpectedArgument(args[i].clone()));
        }
    }
    Ok(TopLevelCommand::Info { conversation_id, porcelain })
}

/// Reads the options of `commit`: see [`commit_options`].
fn read_commit(args: &Vec<String>, from: usize) -> (out: Result<TopLevelCommand, CliError>)
    requires
        from <= args@.len(),
    ensures
        out == commit_options(args@, from as int, false),
{
    let mut i: usize = from;
    let mut preview = false;
    while i < args.len()
        invariant
            from <= i <= args@.len(),
            commit_options(args@, from as int, false) == commit_options(args@, i as int, preview),
        decreases args@.len() - i,
    {
        let t = args[i].as_str();
        if text_eq(t, "--preview") {
            if preview {
                return Err(CliError::Repeated(args[i].clone()));
            } else {
                preview = true;
                i += 1;
            }
        } else if starts_with_hyphen(t) {
            return Err(CliError::UnknownArgument(args[i].clone()));
        } else {
            return Err(CliError::UnexpectedArgument(args[i].clone()));
        }
    }
    Ok(TopLevelCommand::Commit(CommitCommandGroup { preview }))
}

/// Reads the command that starts at argument `i`: see [`command_at`].
fn read_command(args: &Vec<String>, i: usize) -> (out: Result<TopLevelCommand, CliError>)
    requires
        i < args@.len(),
    ensures
        out == command_at(args@, i as int),
{
    let count: usize = args.len();
    let name = args[i].as_str();
    if text_eq(name, "server") {
        read_server(args, i + 1)
    } else if text_eq(name, "agent") {
        accepted(
            read_one_word(args, i, "list", "ls"),
            TopLevelCommand::Agent(AgentCommandGroup { command: AgentCommand::List }),
        )
    } else if text_eq(name, "extension") {
        accepted(
            read_one_word(args, i, "zsh", "zsh"),
            TopLevelCommand::Extension(ExtensionCommandGroup { command: ExtensionCommand::Zsh }),
        )
    } else if text_eq(name, "list") {
        accepted(
            read_one_word(args, i, "agent", "agents"),
            TopLevelCommand::List(ListCommandGroup { command: ListCommand::Agent }),
        )
    } else if text_eq(name, "banner") {
        if i + 1 < args.len() {
            Err(CliError::UnexpectedArgument(args[i + 1].clone()))
        } else {
            Ok(TopLevelCommand::Banner)
        }
    } else if text_eq(name, "info") {
        read_info(args, i + 1)
    } else if text_eq(name, "env") {
        if i + 1 < args.len() {
            Err(CliError::UnexpectedArgument(args[i + 1].clone()))
        } else {
            Ok(TopLevelCommand::Env)
        }
    } else if text_eq(name, "config") {
        accepted(
            read_one_word(args, i, "list", "list"),
            TopLevelCommand::Config(ConfigCommandGroup { command: ConfigCommand::List }),
        )
    } else if text_eq(name, "conversation") || text_eq(name, "session") {
        accepted(
            read_one_word(args, i, "list", "list"),
            TopLevelCommand::Conversation(
                ConversationCommandGroup { command: ConversationCommand::List },
            ),
        )
    } else if text_eq(name, "commit") {
        read_commit(args, i + 1)
    } else if text_eq(name, "mcp") {
        accepted(
            read_one_word(args, i, "list", "list"),
            TopLevelCommand::Mcp(McpCommandGroup { command: McpCommand::List }),
        )
    } else if text_eq(name, "suggest") {
        if i + 1 >= args.len() {
            Err(CliError::MissingArgument(args[i].clone()))
        } else if i + 2 < args.len() {
            Err(CliError::UnexpectedArgument(args[i + 2].clone()))
        } else {
            Ok(TopLevelCommand::Suggest { prompt: args[i + 1].clone() })
        }
    } else if text_eq(name, "provider") {
        accepted(
            read_one_word(args, i, "login", "login"),
            TopLevelCommand::Provider(ProviderCommandGroup { command: ProviderCommand::Login }),
        )
    } else if text_eq(name, "cmd") {
        accepted(
            read_one_word(args, i, "list", "list"),
            TopLevelCommand::Cmd(CmdCommandGroup { command: CmdCommand::List }),
        )
    } else if text_eq(name, "data") {
        if i + 1 >= args.len() {
            Err(CliError::MissingSubcommand(args[i].clone()))
        } else if !text_eq(args[i + 1].as_str(), "process") {
            Err(CliError::UnknownSubcommand(args[i + 1].clone()))
        } else if i + 2 >= args.len() {
            Err(CliError::MissingArgument(args[i + 1].clone()))
        } else if i + 3 < args.len() {
            Err(CliError::UnexpectedArgument(args[i + 3].clone()))
        } else {
            Ok(
                TopLevelCommand::Data(
                    DataCommandGroup {
                        command: DataCommand::Process { params: args[i + 2].clone() },
                    },
                ),
            )
        }
    } else {
        Err(CliError::UnknownSubcommand(args[i].clone()))
    }
}

impl Cli {
    /// Reads a command line: see [`parsed`].
    pub fn parse_from(args: &Vec<String>) -> (out: Result<Cli, CliError>)
        ensures
            out == parsed(args@),
    {
        let mut cli = Cli::new();
        let mut i: usize = 1;
        while i < args.len()
            invariant
                1 <= i,
                parsed(args@) == arguments_from(args@, i as int, cli),
            decreases args@.len() - i,
        {
            let t = args[i].as_str();
            match value_option_of(t) {
                Some(option) => {
                    if has_value(&cli, option) {
                        return Err(CliError::Repeated(args[i].clone()));
                    } else if i + 1 >= args.len() || (!matches!(option, ValueOption::Prompt)
                        && starts_with_hyphen(args[i + 1].as_str())) {
                        return Err(CliError::MissingValue(args[i].clone()));
                    } else {
                        set_value(&mut cli, option, args[i + 1].clone());
                        i += 2;
                    }
                },
                None => match flag_option_of(t) {
                    Some(flag) => {
                        let given = match flag {
                            Flag::Verbose => cli.verbose,
                            Flag::Restricted => cli.restricted,
                        };
                        if given {
                            return Err(CliError::Repeated(args[i].clone()));
                        }
                        match flag {
                            Flag::Verbose => {
                                cli.verbose = true;
                            },
                            Flag::Restricted => {
                                cli.restricted = true;
                            },
                        }
                        i += 1;
                    },
                    None => {
                        if starts_with_hyphen(t) {
                            return Err(CliError::UnknownArgument(args[i].clone()));
                        }
                        return match read_command(args, i) {
                            Ok(command) => {
                                cli.subcommands = Some(command);
                                Ok(cli)
                            },
                            Err(e) => Err(e),
                        };
                    },
                },
            }
        }
        Ok(cli)
    }
}

} // verus!
