use vstd::prelude::*;

use crate::format::GuildFormat;

verus! {

/// Discord guild dump operations.
#[derive(Debug, PartialEq, Eq)]
pub enum DiscordCommand {
    /// Export a guild to the guild dump format.
    Export { guild: u64, out: String },
    /// Import a dump or upload file into a guild.
    Import { input: String, guild: u64, dry_run: bool },
}

/// Dump/upload format operations.
#[derive(Debug, PartialEq, Eq)]
pub enum FormatCommand {
    /// Validate a dump or upload-format file.
    Validate { input: String, format: Option<GuildFormat> },
}

/// Terminal workflow attachment under an OpenCode session.
#[derive(Debug, PartialEq, Eq)]
pub enum TerminalOpenCodeCommand {
    /// Attach to a tmux session.
    Attach { tmux: Option<String> },
}

/// Terminal workflow integrations.
#[derive(Debug, PartialEq, Eq)]
pub enum TerminalCommand {
    Opencode { command: TerminalOpenCodeCommand },
}

/// Local on-demand cluster workflows.
#[derive(Debug, PartialEq, Eq)]
pub enum KubeLocalCommand {
    Up,
    Down,
    Status,
}

/// Remote cluster workflows by context.
#[derive(Debug, PartialEq, Eq)]
pub enum KubeRemoteCommand {
    Test { context: String },
    Deploy { context: String },
}

/// Kubernetes orchestration.
#[derive(Debug, PartialEq, Eq)]
pub enum KubeCommand {
    Local { command: KubeLocalCommand },
    Remote { command: KubeRemoteCommand },
}

/// Remote execution over SSH.
#[derive(Debug, PartialEq, Eq)]
pub enum SshCommand {
    Exec { host: String, cmd: Vec<String> },
}

/// The tool's top-level commands.
#[derive(Debug, PartialEq, Eq)]
pub enum Command {
    Discord { command: DiscordCommand },
    Format { command: FormatCommand },
    Terminal { command: TerminalCommand },
    Kube { command: KubeCommand },
    Ssh { command: SshCommand },
}

/// The dotted action name of a command, used to label every reported outcome.
pub open spec fn action_of(command: Command) -> Seq<char> {
    match command {
        Command::Discord { command } => match command {
            DiscordCommand::Export { .. } => "discord.export"@,
            DiscordCommand::Import { .. } => "discord.import"@,
        },
        Command::Format { command } => match command {
            FormatCommand::Validate { .. } => "format.validate"@,
        },
        Command::Terminal { command } => match command {
            TerminalCommand::Opencode { command } => match command {
                TerminalOpenCodeCommand::Attach { .. } => "terminal.opencode.attach"@,
            },
        },
        Command::Kube { command } => match command {
            KubeCommand::Local { command } => match command {
                KubeLocalCommand::Up => "kube.local.up"@,
                KubeLocalCommand::Down => "kube.local.down"@,
                KubeLocalCommand::Status => "kube.local.status"@,
            },
            KubeCommand::Remote { command } => match command {
                KubeRemoteCommand::Test { .. } => "kube.remote.test"@,
                KubeRemoteCommand::Deploy { .. } => "kube.remote.deploy"@,
            },
        },
        Command::Ssh { command } => match command {
            SshCommand::Exec { .. } => "ssh.exec"@,
        },
    }
}

/// The dotted action name under which a command's outcome is reported.
pub fn action_for(command: &Command) -> (r: &'static str)
    ensures
        r@ == action_of(*command),
{
    match command {
        Command::Discord { command } => match command {
            DiscordCommand::Export { .. } => "discord.export",
            DiscordCommand::Import { .. } => "discord.import",
        },
        Command::Format { command } => match command {
            FormatCommand::Validate { .. } => "format.validate",
        },
        Command::Terminal { command } => match command {
            TerminalCommand::Opencode { command } => match command {
                TerminalOpenCodeCommand::Attach { .. } => "terminal.opencode.attach",
            },
        },
        Command::Kube { command } => match command {
            KubeCommand::Local { command } => match command {
                KubeLocalCommand::Up => "kube.local.up",
                KubeLocalCommand::Down => "kube.local.down",
                KubeLocalCommand::Status => "kube.local.status",
            },
            KubeCommand::Remote { command } => match command {
                KubeRemoteCommand::Test { .. } => "kube.remote.test",
                KubeRemoteCommand::Deploy { .. } => "kube.remote.deploy",
            },
        },
        Command::Ssh { command } => match command {
            SshCommand::Exec { .. } => "ssh.exec",
        },
    }
}

} // verus!
