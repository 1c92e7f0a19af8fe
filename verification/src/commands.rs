//! The command-line surface of the node, reduced to what its dispatch
//! logic reads: the argument records of the commands and the questions
//! the launcher asks of a parsed command.  Argument parsing, terminals
//! and the command bodies are I/O and live outside this core.

use vstd::prelude::*;

verus! {

/// Arguments of the enrollment command.
#[derive(Debug)]
pub struct EnrollCommand {
    /// The name of the identity to enroll; the default identity when
    /// absent.
    pub identity: Option<String>,
    /// Use the authorization-code flow instead of the device-code flow.
    pub authorization_code_flow: bool,
    /// Enroll even when the identity is already enrolled.
    pub force: bool,
    /// Skip creating orchestrator resources, only check them.
    pub skip_orchestrator_resources_creation: bool,
}

impl EnrollCommand {
    /// The name of the command.
    pub fn name(&self) -> (r: String)
        ensures
            r@ == "enroll"@,
    {
        "enroll".to_owned()
    }
}

/// Arguments of the project list command.
#[derive(Debug)]
pub struct ListCommand {
    /// The name of the identity to list projects for, when given.
    pub identity: Option<String>,
}

impl ListCommand {
    /// The name of the command.
    pub fn name(&self) -> (r: String)
        ensures
            r@ == "project list"@,
    {
        "project list".to_owned()
    }
}

/// Arguments of the reset command.
#[derive(Debug)]
pub struct ResetCommand {
    /// Confirm the reset without prompting.
    pub yes: bool,
    /// Also remove the spaces kept by the orchestrator.
    pub all: bool,
}

impl ResetCommand {
    /// The name of the command.
    pub fn name(&self) -> (r: String)
        ensures
            r@ == "reset"@,
    {
        "reset".to_owned()
    }
}

/// Arguments of the node show command.
#[derive(Debug)]
pub struct ShowCommand {
    /// The node to fetch details for; the default node when absent.
    pub node_name: Option<String>,
}

/// The foreground-related arguments of a node create command.
#[derive(Debug)]
pub struct ForegroundArgs {
    /// Run the node in the foreground.
    pub foreground: bool,
    /// This process is a child spawned to run a background node.
    pub child_process: bool,
}

/// Arguments of the node create command.
#[derive(Debug)]
pub struct CreateCommand {
    /// The name of the node to create.
    pub name: String,
    /// How the node relates to the current process.
    pub foreground_args: ForegroundArgs,
}

/// The subcommands of the node command that the launcher inspects.
#[derive(Debug)]
pub enum NodeSubcommand {
    /// Create a node.
    Create(CreateCommand),
    /// Any other node subcommand; the launcher reads nothing from it.
    Other,
}

/// The node command.
#[derive(Debug)]
pub struct NodeCommand {
    /// Which node subcommand was given.
    pub subcommand: NodeSubcommand,
}

/// Arguments of the authority create command.
#[derive(Debug)]
pub struct AuthorityCreateCommand {
    /// The name of the authority node.
    pub node_name: String,
    /// Run in the foreground.
    pub foreground: bool,
    /// This process is a child spawned to run the authority node.
    pub child_process: bool,
}

/// The subcommands of the authority command.
#[derive(Debug)]
pub enum AuthoritySubcommand {
    /// Create an authority node.
    Create(AuthorityCreateCommand),
}

/// The authority command.
#[derive(Debug)]
pub struct AuthorityCommand {
    /// Which authority subcommand was given.
    pub subcommand: AuthoritySubcommand,
}

/// The commands the launcher dispatches on.  The remaining commands of
/// the running system carry parser-derived argument types and are
/// handled outside this core.
#[derive(Debug)]
pub enum OckamSubcommand {
    /// Node lifecycle commands.
    Node(NodeCommand),
    /// Authority node commands.
    Authority(AuthorityCommand),
    /// Enrollment.
    Enroll(EnrollCommand),
    /// Reset of the local configuration.
    Reset(ResetCommand),
}

/// Whether a node create command runs a foreground node: it does unless
/// the process is a spawned child.
pub open spec fn spec_is_foreground_node(cmd: OckamSubcommand) -> bool {
    match cmd {
        OckamSubcommand::Node(c) => match c.subcommand {
            NodeSubcommand::Create(cc) => !cc.foreground_args.child_process,
            NodeSubcommand::Other => false,
        },
        OckamSubcommand::Authority(a) => match a.subcommand {
            AuthoritySubcommand::Create(ac) => !ac.child_process,
        },
        _ => false,
    }
}

/// Whether a node create command runs a background node: it does exactly
/// when the process is a spawned child.
pub open spec fn spec_is_background_node(cmd: OckamSubcommand) -> bool {
    match cmd {
        OckamSubcommand::Node(c) => match c.subcommand {
            NodeSubcommand::Create(cc) => cc.foreground_args.child_process,
            NodeSubcommand::Other => false,
        },
        OckamSubcommand::Authority(a) => match a.subcommand {
            AuthoritySubcommand::Create(ac) => ac.child_process,
        },
        _ => false,
    }
}

/// The node name a spawned child process was asked to run, if this
/// command is such a spawn.
pub open spec fn spec_node_name(cmd: OckamSubcommand) -> Option<Seq<char>> {
    match cmd {
        OckamSubcommand::Node(c) => match c.subcommand {
            NodeSubcommand::Create(cc) => if cc.foreground_args.child_process {
                Some(cc.name@)
            } else {
                None
            },
            NodeSubcommand::Other => None,
        },
        OckamSubcommand::Authority(a) => match a.subcommand {
            AuthoritySubcommand::Create(ac) => if ac.child_process {
                Some(ac.node_name@)
            } else {
                None
            },
        },
        _ => None,
    }
}

impl OckamSubcommand {
    /// Whether this command represents the execution of a foreground
    /// node.
    pub fn is_foreground_node(&self) -> (r: bool)
        ensures
            r == spec_is_foreground_node(*self),
    {
        match self {
            OckamSubcommand::Node(c) => match &c.subcommand {
                NodeSubcommand::Create(cc) => !cc.foreground_args.child_process,
                NodeSubcommand::Other => false,
            },
            OckamSubcommand::Authority(a) => match &a.subcommand {
                AuthoritySubcommand::Create(ac) => !ac.child_process,
            },
            _ => false,
        }
    }

    /// Whether this command represents the execution of a background
    /// node.
    pub fn is_background_node(&self) -> (r: bool)
        ensures
            r == spec_is_background_node(*self),
    {
        match self {
            OckamSubcommand::Node(c) => match &c.subcommand {
                NodeSubcommand::Create(cc) => cc.foreground_args.child_process,
                NodeSubcommand::Other => false,
            },
            OckamSubcommand::Authority(a) => match &a.subcommand {
                AuthoritySubcommand::Create(ac) => ac.child_process,
            },
            _ => false,
        }
    }

    /// The node name of a spawned child process, when this command is
    /// such a spawn.
    pub fn node_name(&self) -> (r: Option<String>)
        ensures
            r is Some <==> spec_node_name(*self) is Some,
            r matches Some(name) ==> spec_node_name(*self) == Some(name@),
    {
        match self {
            OckamSubcommand::Node(c) => match &c.subcommand {
                NodeSubcommand::Create(cc) => {
                    if cc.foreground_args.child_process {
                        Some(cc.name.clone())
                    } else {
                        None
                    }
                },
                NodeSubcommand::Other => None,
            },
            OckamSubcommand::Authority(a) => match &a.subcommand {
                AuthoritySubcommand::Create(ac) => {
                    if ac.child_process {
                        Some(ac.node_name.clone())
                    } else {
                        None
                    }
                },
            },
            _ => None,
        }
    }

    /// The name of the command.
    pub fn name(&self) -> (r: String)
        ensures
            self matches OckamSubcommand::Node(_) ==> r@ == "node"@,
            self matches OckamSubcommand::Authority(_) ==> r@ == "authority"@,
            self matches OckamSubcommand::Enroll(_) ==> r@ == "enroll"@,
            self matches OckamSubcommand::Reset(_) ==> r@ == "reset"@,
    {
        match self {
            OckamSubcommand::Node(_) => "node".to_owned(),
            OckamSubcommand::Authority(_) => "authority".to_owned(),
            OckamSubcommand::Enroll(c) => c.name(),
            OckamSubcommand::Reset(c) => c.name(),
        }
    }
}

} // verus!
