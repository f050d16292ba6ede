//! From the text of a configuration file to what loading hands back.

use crate::config::{Config, ConfigView, ConfigWithPath, ConfigWithPathView};
use crate::decode::{decode, spec_decode};
use crate::error::{Fault, FaultView, FxError, FxErrorView};
use crate::path::{ConfigPath, ConfigPathView};
use crate::yaml::{parse_yaml, yaml_document, Yaml, YamlView};
use vstd::prelude::*;

verus! {

/// The value of what the YAML parser handed back.
pub open spec fn parsed_view(parsed: Result<Yaml, String>) -> Result<YamlView, Seq<char>> {
    match parsed {
        Ok(document) => Ok(document@),
        Err(message) => Err(message@),
    }
}

/// The value of what reading a file handed back: its text, or the reader's message.
pub open spec fn content_view(content: Result<String, String>) -> Result<Seq<char>, Seq<char>> {
    match content {
        Ok(text) => Ok(text@),
        Err(message) => Err(message@),
    }
}

/// The settings in what the YAML parser made of a text. A text that is no YAML
/// document and a document that is no configuration are both failures of
/// deserialization.
pub open spec fn spec_interpret(parsed: Result<YamlView, Seq<char>>) -> Result<
    ConfigView,
    FxErrorView,
> {
    match parsed {
        Err(message) => Err(FxErrorView::Deserialization(FaultView::Syntax(message))),
        Ok(document) => match spec_decode(document) {
            Ok(config) => Ok(config),
            Err(fault) => Err(FxErrorView::Deserialization(fault)),
        },
    }
}

/// The settings that a text gives.
pub open spec fn spec_parse(text: Seq<char>) -> Result<ConfigView, FxErrorView> {
    spec_interpret(yaml_document(text))
}

/// What reading the file at `path` comes to, given what the reader handed back.
pub open spec fn spec_read_config(
    path: ConfigPathView,
    content: Result<Seq<char>, Seq<char>>,
) -> Result<ConfigWithPathView, FxErrorView> {
    match content {
        Err(message) => Err(FxErrorView::FileOperation(message)),
        Ok(text) => match spec_parse(text) {
            Ok(config) => Ok(ConfigWithPathView { config_path: Some(path), config }),
            Err(error) => Err(error),
        },
    }
}

/// Turns what the YAML parser handed back into settings.
pub fn interpret(parsed: Result<Yaml, String>) -> (outcome: Result<Config, FxError>)
    ensures
        match outcome {
            Ok(config) => spec_interpret(parsed_view(parsed)) == Ok::<ConfigView, FxErrorView>(
                config@,
            ),
            Err(error) => spec_interpret(parsed_view(parsed)) == Err::<ConfigView, FxErrorView>(
                error@,
            ),
        },
{
    match parsed {
        Err(message) => Err(FxError::Deserialization(Fault::Syntax(message))),
        Ok(document) => match decode(&document) {
            Ok(config) => Ok(config),
            Err(fault) => Err(FxError::Deserialization(fault)),
        },
    }
}

/// Reads the settings out of the text of a configuration file.
pub fn parse_config(text: &str) -> (outcome: Result<Config, FxError>)
    ensures
        match outcome {
            Ok(config) => spec_parse(text@) == Ok::<ConfigView, FxErrorView>(config@),
            Err(error) => spec_parse(text@) == Err::<ConfigView, FxErrorView>(error@),
        },
{
    interpret(parse_yaml(text))
}

/// Makes of the file at `path` what loading hands back. `content` is what reading
/// the file gave: its text, or the reader's message where it could not be read.
/// A file that was found and is unreadable or malformed is a failure; it is never
/// replaced by the built-in settings.
pub fn read_config(path: ConfigPath, content: Result<String, String>) -> (outcome: Result<
    ConfigWithPath,
    FxError,
>)
    ensures
        match outcome {
            Ok(loaded) => spec_read_config(path@, content_view(content)) == Ok::<
                ConfigWithPathView,
                FxErrorView,
            >(loaded@),
            Err(error) => spec_read_config(path@, content_view(content)) == Err::<
                ConfigWithPathView,
                FxErrorView,
            >(error@),
        },
{
    match content {
        Err(message) => Err(FxError::FileOperation(message)),
        Ok(text) => match parse_config(text.as_str()) {
            Ok(config) => Ok(ConfigWithPath { config_path: Some(path), config }),
            Err(error) => Err(error),
        },
    }
}

} // verus!
