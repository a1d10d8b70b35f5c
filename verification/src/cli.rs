//! The command surface.
//!
//! Parsing the command line is left to whoever owns the process; what it
//! yields is a `Cli`, and `handle_cli` says which action that stands for.

use vstd::prelude::*;
use crate::models::Action;

verus! {

/// The commands.
#[derive(Debug)]
pub enum Commands {
    /// Copy files to the clipboard.
    Copy { paths: Vec<String> },
    /// Cut files to the clipboard.
    Cut { paths: Vec<String> },
    /// Create symbolic links to files and add them to the clipboard.
    Link { paths: Vec<String> },
    /// Paste files from the clipboard to the given directory.
    Paste { path: String },
    /// List the files currently in the clipboard.
    List,
    /// Show the history of clipboard operations.
    History,
    /// Remove the entry with the given identifier from the clipboard.
    Remove { id: u128 },
    /// Clear the clipboard and the history.
    Clear,
}

/// A parsed command line.
#[derive(Debug)]
pub struct Cli {
    pub command: Commands,
}

/// The action that a command stands for.
pub open spec fn action_of(command: Commands) -> Action {
    match command {
        Commands::Copy { paths } => Action::Copy(paths),
        Commands::Cut { paths } => Action::Cut(paths),
        Commands::Link { paths } => Action::Link(paths),
        Commands::Paste { path } => Action::Paste(path),
        Commands::List => Action::Clipboard,
        Commands::History => Action::History,
        Commands::Remove { id } => Action::Remove(id),
        Commands::Clear => Action::Clear,
    }
}

/// Resolves a parsed command line to an action.
pub fn handle_cli(cli: Cli) -> (action: Action)
    ensures
        action == action_of(cli.command),
{
    match cli.command {
        Commands::Copy { paths } => Action::Copy(paths),
        Commands::Cut { paths } => Action::Cut(paths),
        Commands::Link { paths } => Action::Link(paths),
        Commands::Paste { path } => Action::Paste(path),
        Commands::List => Action::Clipboard,
        Commands::History => Action::History,
        Commands::Remove { id } => Action::Remove(id),
        Commands::Clear => Action::Clear,
    }
}

} // verus!
