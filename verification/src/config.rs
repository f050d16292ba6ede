//! The settings a configuration file can hold, and what loading hands back.

use crate::color::ConfigColor;
use crate::exec_table::ExecTable;
use crate::path::{ConfigPath, ConfigPathView};
use vstd::prelude::*;

verus! {

/// The settings. A setting that is `None` was not given, and the caller decides
/// what that means.
#[derive(Debug, Clone)]
pub struct Config {
    /// The program that opens a file for which `exec` lists none.
    pub default: Option<String>,
    /// Whether leaving follows the editor's conventions.
    pub match_vim_exit_behavior: Option<bool>,
    /// The commands of the key `exec`, each with the file extensions that it opens.
    pub exec_table: Option<ExecTable>,
    /// Whether searching ignores case.
    pub ignore_case: Option<bool>,
    /// The color scheme.
    pub color: Option<ConfigColor>,
}

/// The mathematical value of a [`Config`].
pub struct ConfigView {
    pub default: Option<Seq<char>>,
    pub match_vim_exit_behavior: Option<bool>,
    pub exec_table: Option<Map<Seq<char>, Seq<Seq<char>>>>,
    pub ignore_case: Option<bool>,
    pub color: Option<ConfigColor>,
}

impl View for Config {
    type V = ConfigView;

    open spec fn view(&self) -> ConfigView {
        ConfigView {
            default: match self.default {
                Some(program) => Some(program@),
                None => None,
            },
            match_vim_exit_behavior: self.match_vim_exit_behavior,
            exec_table: match self.exec_table {
                Some(table) => Some(table@),
                None => None,
            },
            ignore_case: self.ignore_case,
            color: self.color,
        }
    }
}

impl ConfigView {
    /// The settings of a document that gives none: every one absent.
    pub open spec fn unset() -> ConfigView {
        ConfigView {
            default: None,
            match_vim_exit_behavior: None,
            exec_table: None,
            ignore_case: None,
            color: None,
        }
    }

    /// The built-in settings, used when no configuration file exists: case is not
    /// ignored, the colors are the built-in scheme, and the rest is absent.
    pub open spec fn built_in() -> ConfigView {
        ConfigView {
            default: None,
            match_vim_exit_behavior: None,
            exec_table: None,
            ignore_case: Some(false),
            color: Some(ConfigColor::spec_default()),
        }
    }
}

impl Default for Config {
    /// The built-in settings. They differ from those of an empty document, which
    /// sets nothing at all.
    fn default() -> (config: Self)
        ensures
            config@ == ConfigView::built_in(),
    {
        Config {
            default: None,
            match_vim_exit_behavior: None,
            exec_table: None,
            ignore_case: Some(false),
            color: Some(ConfigColor::default()),
        }
    }
}

/// What loading hands back: the settings, and the file they were read from.
#[derive(Debug, Clone)]
pub struct ConfigWithPath {
    /// The file that was read; `None` where the built-in settings were used.
    pub config_path: Option<ConfigPath>,
    /// The settings.
    pub config: Config,
}

/// The mathematical value of a [`ConfigWithPath`].
pub struct ConfigWithPathView {
    pub config_path: Option<ConfigPathView>,
    pub config: ConfigView,
}

impl View for ConfigWithPath {
    type V = ConfigWithPathView;

    open spec fn view(&self) -> ConfigWithPathView {
        ConfigWithPathView {
            config_path: match self.config_path {
                Some(path) => Some(path@),
                None => None,
            },
            config: self.config@,
        }
    }
}

} // verus!
