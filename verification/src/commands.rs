//! The three operations the tool offers.

use vstd::prelude::*;

verus! {

/// An operation requested by the operator.
#[derive(Clone, Copy, Debug, PartialEq, Eq, Structural)]
pub enum AppCommands {
    /// Report the state of permissions, group membership and daemon.
    Check,
    /// Create the access group and deploy the launch daemon.
    Install,
    /// Remove what an installation created.
    Uninstall,
}

impl AppCommands {
    /// The command that `s` names; anything unknown counts as `check`.
    pub open spec fn parse(s: Seq<char>) -> AppCommands {
        if s == "install"@ {
            AppCommands::Install
        } else if s == "uninstall"@ {
            AppCommands::Uninstall
        } else {
            AppCommands::Check
        }
    }

    /// Reads a subcommand name, falling back to `Check` for unknown names.
    pub fn from_str(s: &str) -> (command: AppCommands)
        ensures
            command == Self::parse(s@),
    {
        if s.eq("install") {
            AppCommands::Install
        } else if s.eq("uninstall") {
            AppCommands::Uninstall
        } else {
            AppCommands::Check
        }
    }
}

} // verus!
