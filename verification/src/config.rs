//! The configuration that the engine reads and never changes.

use vstd::prelude::*;
use crate::text::word;

verus! {

/// The options that the command line and the configuration file resolve to.
#[derive(Debug)]
pub struct Config {
    /// The package manager to use; detected from the host when absent.
    pub default_pm: Option<String>,
    /// Show every command instead of running it.
    pub dry_run: bool,
    /// Answer every confirmation with yes.
    pub no_confirm: bool,
    /// Skip what is already installed, where the package manager can.
    pub needed: bool,
    /// The program that runs a command with elevated privileges.
    pub elevation_cmd: String,
}

/// What a [`Config`] stands for.
pub struct ConfigView {
    pub default_pm: Option<Seq<char>>,
    pub dry_run: bool,
    pub no_confirm: bool,
    pub needed: bool,
    pub elevation_cmd: Seq<char>,
}

impl View for Config {
    type V = ConfigView;

    open spec fn view(&self) -> ConfigView {
        ConfigView {
            default_pm: match self.default_pm {
                Some(name) => Some(name@),
                None => None,
            },
            dry_run: self.dry_run,
            no_confirm: self.no_confirm,
            needed: self.needed,
            elevation_cmd: self.elevation_cmd@,
        }
    }
}

impl ConfigView {
    /// The configuration in which nothing was asked for: no package manager
    /// named, every switch off, and `sudo` to elevate.
    pub open spec fn initial() -> ConfigView {
        ConfigView {
            default_pm: None,
            dry_run: false,
            no_confirm: false,
            needed: false,
            elevation_cmd: "sudo"@,
        }
    }
}

impl Default for Config {
    fn default() -> (out: Config)
        ensures
            out@ == ConfigView::initial(),
    {
        Config {
            default_pm: None,
            dry_run: false,
            no_confirm: false,
            needed: false,
            elevation_cmd: word("sudo"),
        }
    }
}

impl Clone for Config {
    fn clone(&self) -> (out: Config)
        ensures
            out@ == self@,
    {
        Config {
            default_pm: match &self.default_pm {
                Some(name) => Some(name.clone()),
                None => None,
            },
            dry_run: self.dry_run,
            no_confirm: self.no_confirm,
            needed: self.needed,
            elevation_cmd: self.elevation_cmd.clone(),
        }
    }
}

} // verus!
