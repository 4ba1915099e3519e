//! The configuration that the shell keeps between runs.

use std::collections::HashMap;
use vstd::prelude::*;
use vstd::string::StringExecFns;
use crate::globals::CONF_FILE_NAME;
use crate::prompt::{Prompt, PromptView};

verus! {

/// How the history of commands is kept.
#[derive(Debug, PartialEq)]
pub struct History {
    pub size: u32,
    pub file_size: u32,
    pub path: String,
    pub time_format: String,
}

pub struct HistoryView {
    pub size: u32,
    pub file_size: u32,
    pub path: Seq<char>,
    pub time_format: Seq<char>,
}

impl View for History {
    type V = HistoryView;

    open spec fn view(&self) -> HistoryView {
        HistoryView {
            size: self.size,
            file_size: self.file_size,
            path: self.path@,
            time_format: self.time_format@,
        }
    }
}

impl HistoryView {
    /// No history: both sizes 0, both strings empty.
    pub open spec fn initial() -> HistoryView {
        HistoryView { size: 0, file_size: 0, path: Seq::empty(), time_format: Seq::empty() }
    }
}

impl Default for History {
    fn default() -> (history: History)
        ensures
            history@ == HistoryView::initial(),
    {
        History { size: 0, file_size: 0, path: String::new(), time_format: String::new() }
    }
}

/// Everything that can be configured.
#[derive(Debug, PartialEq)]
pub struct Config {
    pub history: History,
    pub prompt: Prompt,
    pub env: HashMap<String, String>,
}

pub struct ConfigView {
    pub history: HistoryView,
    pub prompt: PromptView,
    pub env: Map<String, String>,
}

impl View for Config {
    type V = ConfigView;

    open spec fn view(&self) -> ConfigView {
        ConfigView { history: self.history@, prompt: self.prompt@, env: self.env@ }
    }
}

impl ConfigView {
    /// The configuration of a shell that nobody has configured.
    pub open spec fn initial() -> ConfigView {
        ConfigView {
            history: HistoryView::initial(),
            prompt: PromptView::initial(),
            env: Map::empty(),
        }
    }
}

impl Default for Config {
    fn default() -> (config: Config)
        ensures
            config@ == ConfigView::initial(),
    {
        Config { history: History::default(), prompt: Prompt::default(), env: HashMap::new() }
    }
}

/// What looking for the stored configuration found.
#[derive(Debug)]
pub enum Stored {
    /// The home directory of the user is not known.
    NoHome,
    /// The file could not be opened.
    Missing,
    /// The file does not hold a configuration.
    Corrupted,
    /// The file holds this configuration.
    Found(Config),
}

/// The path of the configuration file of a user whose home directory is
/// `home`.
pub open spec fn conf_path(home: Seq<char>) -> Seq<char> {
    home + "/"@ + CONF_FILE_NAME@
}

/// The path of the configuration file.
pub fn config_file_path(home: &str) -> (path: String)
    ensures
        path@ == conf_path(home@),
{
    String::from_str(home).concat("/").concat(CONF_FILE_NAME)
}

impl Config {
    /// Takes in what looking for the stored configuration found. A
    /// configuration that was found replaces this one; in every other case
    /// this one goes back to its initial values. The result tells whether
    /// the configuration is to be written out: it is when the file could
    /// not be opened.
    pub fn load(&mut self, stored: Stored) -> (save: bool)
        ensures
            match stored {
                Stored::Found(config) => *final(self) == config,
                _ => final(self)@ == ConfigView::initial(),
            },
            save == (stored is Missing),
    {
        match stored {
            Stored::NoHome => {
                self.reset();
                false
            },
            Stored::Missing => {
                self.reset();
                true
            },
            Stored::Corrupted => {
                self.reset();
                false
            },
            Stored::Found(config) => {
                *self = config;
                false
            },
        }
    }

    /// Goes back to the initial values.
    pub fn reset(&mut self)
        ensures
            final(self)@ == ConfigView::initial(),
    {
        *self = Config::default();
    }
}

} // verus!
