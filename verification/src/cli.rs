//! The command line: what to do, with which flake and hosts.
use vstd::prelude::*;

use crate::pipeline::Stage;

verus! {

/// The parsed command line.
pub struct Cli {
    pub command: Commands,
    /// Flake reference of the flake to evaluate.
    pub flake: String,
}

/// What to do.
pub enum Commands {
    /// Only evaluate the configurations.
    Eval { common: Common },
    /// Build the configurations without pushing them.
    Build { common: Common },
    /// Build the configurations and push them to their hosts.
    Push { common: Common },
    /// Apply the configurations on their hosts.
    Apply { common: Common },
    /// Show information about the flake.
    Show {},
}

/// Options shared by the deploying commands.
pub struct Common {
    /// The hosts to deploy.
    pub hosts: Vec<String>,
}

impl Commands {
    /// How far the command deploys, for the deploying commands.
    pub fn stage(&self) -> (res: Option<Stage>)
        ensures
            res == match *self {
                Commands::Eval { .. } => Some(Stage::Eval),
                Commands::Build { .. } => Some(Stage::Build),
                Commands::Push { .. } => Some(Stage::Push),
                Commands::Apply { .. } => Some(Stage::Apply),
                Commands::Show {  } => None::<Stage>,
            },
    {
        match self {
            Commands::Eval { .. } => Some(Stage::Eval),
            Commands::Build { .. } => Some(Stage::Build),
            Commands::Push { .. } => Some(Stage::Push),
            Commands::Apply { .. } => Some(Stage::Apply),
            Commands::Show {  } => None,
        }
    }

    /// The hosts the command names, for the deploying commands.
    pub fn hosts(&self) -> (res: Option<&Vec<String>>)
        ensures
            res == match *self {
                Commands::Eval { common } => Some(&common.hosts),
                Commands::Build { common } => Some(&common.hosts),
                Commands::Push { common } => Some(&common.hosts),
                Commands::Apply { common } => Some(&common.hosts),
                Commands::Show {  } => None::<&Vec<String>>,
            },
    {
        match self {
            Commands::Eval { common } => Some(&common.hosts),
            Commands::Build { common } => Some(&common.hosts),
            Commands::Push { common } => Some(&common.hosts),
            Commands::Apply { common } => Some(&common.hosts),
            Commands::Show {  } => None,
        }
    }
}

} // verus!
