//! The commands of the tool.

use vstd::prelude::*;

verus! {

/// A command given on the command line.
#[derive(Debug, Clone, PartialEq, Eq)]
pub enum Cli {
    /// Initialize code for a plugin.
    Create {
        /// The name of the plugin, in kebab-case.
        name: Option<String>,
        /// The url to the template repository, or the path to the template.
        template: Option<String>,
        /// Is the template option a git remote? (default: true)
        git_template: Option<bool>,
    },
    /// Package the plugin into a distributable package.
    Package {
        /// The path to the plugin project.
        path: Option<String>,
    },
    /// Publish the package on the plugin store.
    Publish {
        /// The remote URL of the plugin store.
        remote: Option<String>,
    },
}

} // verus!
