//! The schema: which YAML documents are configurations, and what each one sets.
//!
//! A configuration is a mapping, or an empty document. Its keys are `default` (a
//! string), `match_vim_exit_behavior` and `ignore_case` (booleans), `exec` (a mapping
//! from a command to a sequence of file extensions) and `color` (a mapping with the
//! keys `dir_fg`, `file_fg`, `symlink_fg` and `dirty_fg`, each a color). Every key may
//! be left out or be null, and is then not set; within `color` all four are needed.
//! Keys that the schema does not know are passed over. A color is written as the
//! name of a named color (`Red`; also `!Red`), as `!Rgb [r, g, b]` or as
//! `!AnsiValue n`, with numbers from 0 to 255.

use crate::color::{Colorname, ConfigColor};
use crate::config::{Config, ConfigView};
use crate::error::{Fault, FaultView, Field};
use crate::exec_table::ExecTable;
use crate::text::same_text;
use crate::yaml::{entries_view, items_view, lemma_mapping_view, lemma_sequence_view, Yaml, YamlView};
use vstd::prelude::*;
use vstd::string::*;

verus! {

/// What a mapping holds under one key.
pub enum Lookup<T> {
    /// No entry has the key.
    Absent,
    /// Exactly one entry has the key; its value.
    Once(T),
    /// More than one entry has the key.
    Repeated,
}

impl Field {
    /// The key under which a document gives this field; empty for the document
    /// itself.
    pub open spec fn spec_key(self) -> Seq<char> {
        match self {
            Field::Document => Seq::<char>::empty(),
            Field::Default => "default"@,
            Field::MatchVimExitBehavior => "match_vim_exit_behavior"@,
            Field::Exec => "exec"@,
            Field::IgnoreCase => "ignore_case"@,
            Field::Color => "color"@,
            Field::DirFg => "dir_fg"@,
            Field::FileFg => "file_fg"@,
            Field::SymlinkFg => "symlink_fg"@,
            Field::DirtyFg => "dirty_fg"@,
        }
    }

    /// The key under which a document gives this field.
    pub fn key(&self) -> (key: &'static str)
        ensures
            key@ == self.spec_key(),
    {
        match self {
            Field::Document => {
                let empty = "";
                proof {
                    reveal_strlit("");
                    assert(empty@ =~= Seq::<char>::empty());
                }
                empty
            },
            Field::Default => "default",
            Field::MatchVimExitBehavior => "match_vim_exit_behavior",
            Field::Exec => "exec",
            Field::IgnoreCase => "ignore_case",
            Field::Color => "color",
            Field::DirFg => "dir_fg",
            Field::FileFg => "file_fg",
            Field::SymlinkFg => "symlink_fg",
            Field::DirtyFg => "dirty_fg",
        }
    }
}

/// Whether entry `i` of a mapping stands under the string `key`.
pub open spec fn keyed(entries: Seq<(YamlView, YamlView)>, key: Seq<char>, i: int) -> bool {
    0 <= i < entries.len() && entries[i].0 == YamlView::Text(key)
}

/// What a mapping holds under the string `key`.
pub open spec fn lookup(entries: Seq<(YamlView, YamlView)>, key: Seq<char>) -> Lookup<YamlView> {
    if !(exists|i: int| keyed(entries, key, i)) {
        Lookup::Absent
    } else if exists|i: int, j: int| i != j && keyed(entries, key, i) && keyed(entries, key, j) {
        Lookup::Repeated
    } else {
        Lookup::Once(entries[choose|i: int| keyed(entries, key, i)].1)
    }
}

/// A string setting: not given, null, or a string.
pub open spec fn spec_text(field: Field, under: Lookup<YamlView>) -> Result<
    Option<Seq<char>>,
    FaultView,
> {
    match under {
        Lookup::Absent => Ok(None),
        Lookup::Repeated => Err(FaultView::Duplicate(field)),
        Lookup::Once(YamlView::Null) => Ok(None),
        Lookup::Once(YamlView::Text(text)) => Ok(Some(text)),
        Lookup::Once(_) => Err(FaultView::Mismatch(field)),
    }
}

/// A boolean setting: not given, null, or a boolean.
pub open spec fn spec_flag(field: Field, under: Lookup<YamlView>) -> Result<
    Option<bool>,
    FaultView,
> {
    match under {
        Lookup::Absent => Ok(None),
        Lookup::Repeated => Err(FaultView::Duplicate(field)),
        Lookup::Once(YamlView::Null) => Ok(None),
        Lookup::Once(YamlView::Bool(flag)) => Ok(Some(flag)),
        Lookup::Once(_) => Err(FaultView::Mismatch(field)),
    }
}

/// Looks `key` up among the entries of a mapping.
fn find<'a>(entries: &'a Vec<(Yaml, Yaml)>, key: &str) -> (found: Lookup<&'a Yaml>)
    ensures
        match found {
            Lookup::Absent => lookup(entries_view(entries@), key@) is Absent,
            Lookup::Once(node) => lookup(entries_view(entries@), key@) == Lookup::Once(node@),
            Lookup::Repeated => lookup(entries_view(entries@), key@) is Repeated,
        },
{
    let ghost all = entries_view(entries@);
    let wanted = key.to_owned();
    let mut first: Option<usize> = None;
    let mut i: usize = 0;
    while i < entries.len()
        invariant
            i <= entries@.len(),
            all == entries_view(entries@),
            wanted@ == key@,
            first matches Some(at) ==> at < i && keyed(all, key@, at as int),
            forall|j: int| 0 <= j < i && first != Some(j as usize) ==> !keyed(all, key@, j),
        decreases entries@.len() - i,
    {
        let here = match &entries[i].0 {
            Yaml::Text(name) => *name == wanted,
            _ => false,
        };
        assert(here == keyed(all, key@, i as int));
        if here {
            if let Some(at) = first {
                assert(keyed(all, key@, at as int) && keyed(all, key@, i as int) && at != i);
                return Lookup::Repeated;
            }
            first = Some(i);
        }
        i += 1;
    }
    match first {
        Some(at) => {
            proof {
                assert(keyed(all, key@, at as int));
                let chosen = choose|k: int| keyed(all, key@, k);
                assert(keyed(all, key@, chosen));
                assert(chosen == at);
            }
            Lookup::Once(&entries[at].1)
        },
        None => Lookup::Absent,
    }
}

/// Reads a string setting.
fn text_under(field: Field, under: Lookup<&Yaml>) -> (outcome: Result<Option<String>, Fault>)
    ensures
        match outcome {
            Ok(Some(text)) => spec_text(field, view_under(under)) == Ok::<
                Option<Seq<char>>,
                FaultView,
            >(Some(text@)),
            Ok(None) => spec_text(field, view_under(under)) == Ok::<Option<Seq<char>>, FaultView>(
                None,
            ),
            Err(fault) => spec_text(field, view_under(under)) == Err::<
                Option<Seq<char>>,
                FaultView,
            >(fault@),
        },
{
    match under {
        Lookup::Absent => Ok(None),
        Lookup::Repeated => Err(Fault::Duplicate(field)),
        Lookup::Once(Yaml::Null) => Ok(None),
        Lookup::Once(Yaml::Text(text)) => Ok(Some(text.clone())),
        Lookup::Once(_) => Err(Fault::Mismatch(field)),
    }
}

/// Reads a boolean setting.
fn flag_under(field: Field, under: Lookup<&Yaml>) -> (outcome: Result<Option<bool>, Fault>)
    ensures
        match outcome {
            Ok(flag) => spec_flag(field, view_under(under)) == Ok::<Option<bool>, FaultView>(flag),
            Err(fault) => spec_flag(field, view_under(under)) == Err::<Option<bool>, FaultView>(
                fault@,
            ),
        },
{
    match under {
        Lookup::Absent => Ok(None),
        Lookup::Repeated => Err(Fault::Duplicate(field)),
        Lookup::Once(Yaml::Null) => Ok(None),
        Lookup::Once(Yaml::Bool(flag)) => Ok(Some(*flag)),
        Lookup::Once(_) => Err(Fault::Mismatch(field)),
    }
}

/// The value of what was found under a key.
pub open spec fn view_under(under: Lookup<&Yaml>) -> Lookup<YamlView> {
    match under {
        Lookup::Absent => Lookup::Absent,
        Lookup::Once(node) => Lookup::Once(node@),
        Lookup::Repeated => Lookup::Repeated,
    }
}

/// The strings of a sequence whose items are all strings.
pub open spec fn spec_strings(items: Seq<YamlView>) -> Option<Seq<Seq<char>>> {
    if forall|i: int| 0 <= i < items.len() ==> items[i] is Text {
        Some(Seq::new(items.len(), |i: int| items[i]->Text_0))
    } else {
        None
    }
}

/// One entry of `exec`: a command, as a string, with a sequence of strings.
pub open spec fn spec_route(entry: (YamlView, YamlView)) -> Option<(Seq<char>, Seq<Seq<char>>)> {
    match entry {
        (YamlView::Text(command), YamlView::Sequence(items)) => match spec_strings(items) {
            Some(extensions) => Some((command, extensions)),
            None => None,
        },
        _ => None,
    }
}

/// The table that the entries of `exec` spell out, where each of them is a command
/// with its extensions. Of two entries for one command the later one counts.
pub open spec fn spec_routes(entries: Seq<(YamlView, YamlView)>) -> Option<
    Map<Seq<char>, Seq<Seq<char>>>,
>
    decreases entries.len(),
{
    if entries.len() == 0 {
        Some(Map::empty())
    } else {
        match (spec_routes(entries.drop_last()), spec_route(entries.last())) {
            (Some(table), Some((command, extensions))) => Some(table.insert(command, extensions)),
            _ => None,
        }
    }
}

/// The setting `exec`: not given, null, or a mapping that spells out a table.
pub open spec fn spec_table(under: Lookup<YamlView>) -> Result<
    Option<Map<Seq<char>, Seq<Seq<char>>>>,
    FaultView,
> {
    match under {
        Lookup::Absent => Ok(None),
        Lookup::Repeated => Err(FaultView::Duplicate(Field::Exec)),
        Lookup::Once(YamlView::Null) => Ok(None),
        Lookup::Once(YamlView::Mapping(entries)) => match spec_routes(entries) {
            Some(table) => Ok(Some(table)),
            None => Err(FaultView::Mismatch(Field::Exec)),
        },
        Lookup::Once(_) => Err(FaultView::Mismatch(Field::Exec)),
    }
}

/// Where one entry is not a command with its extensions, the entries spell out no
/// table.
proof fn lemma_routes_need_every_entry(entries: Seq<(YamlView, YamlView)>, i: int)
    requires
        0 <= i < entries.len(),
        spec_route(entries[i]) is None,
    ensures
        spec_routes(entries) is None,
    decreases entries.len(),
{
    if i < entries.len() - 1 {
        lemma_routes_need_every_entry(entries.drop_last(), i);
    }
}

/// Reads the strings of a sequence.
fn strings_of(items: &Vec<Yaml>) -> (outcome: Option<Vec<String>>)
    ensures
        match outcome {
            Some(list) => spec_strings(items_view(items@)) == Some(list.deep_view()),
            None => spec_strings(items_view(items@)) is None,
        },
{
    let ghost all = items_view(items@);
    let mut list: Vec<String> = Vec::new();
    let mut i: usize = 0;
    while i < items.len()
        invariant
            i <= items@.len(),
            all == items_view(items@),
            list@.len() == i,
            forall|j: int| 0 <= j < i ==> all[j] == YamlView::Text(#[trigger] list@[j]@),
        decreases items@.len() - i,
    {
        match &items[i] {
            Yaml::Text(text) => {
                list.push(text.clone());
            },
            _ => {
                assert(!(all[i as int] is Text));
                return None;
            },
        }
        i += 1;
    }
    proof {
        assert forall|j: int| 0 <= j < all.len() implies all[j] is Text by {
            assert(all[j] == YamlView::Text(list@[j]@));
        }
        assert(spec_strings(all)->Some_0 =~= list.deep_view());
    }
    Some(list)
}

/// Reads the entries of `exec`.
fn routes_of(entries: &Vec<(Yaml, Yaml)>) -> (outcome: Option<ExecTable>)
    ensures
        match outcome {
            Some(table) => spec_routes(entries_view(entries@)) == Some(table@),
            None => spec_routes(entries_view(entries@)) is None,
        },
{
    let ghost all = entries_view(entries@);
    let mut table = ExecTable::new();
    let mut i: usize = 0;
    assert(all.take(0) =~= Seq::<(YamlView, YamlView)>::empty());
    while i < entries.len()
        invariant
            i <= entries@.len(),
            all == entries_view(entries@),
            spec_routes(all.take(i as int)) == Some(table@),
        decreases entries@.len() - i,
    {
        let route = match (&entries[i].0, &entries[i].1) {
            (Yaml::Text(command), Yaml::Sequence(items)) => {
                proof {
                    lemma_sequence_view(*items);
                }
                match strings_of(items) {
                    Some(extensions) => Some((command.clone(), extensions)),
                    None => None,
                }
            },
            _ => None,
        };
        match route {
            Some((command, extensions)) => {
                assert(spec_route(all[i as int]) == Some((command@, extensions.deep_view())));
                proof {
                    let next = all.take(i as int + 1);
                    assert(next.drop_last() =~= all.take(i as int));
                    assert(next.last() == all[i as int]);
                }
                table.insert(command, extensions);
            },
            None => {
                assert(spec_route(all[i as int]) is None);
                proof {
                    lemma_routes_need_every_entry(all, i as int);
                }
                return None;
            },
        }
        i += 1;
    }
    assert(all.take(i as int) =~= all);
    Some(table)
}

/// Reads the setting `exec`.
fn table_under(under: Lookup<&Yaml>) -> (outcome: Result<Option<ExecTable>, Fault>)
    ensures
        match outcome {
            Ok(Some(table)) => spec_table(view_under(under)) == Ok::<
                Option<Map<Seq<char>, Seq<Seq<char>>>>,
                FaultView,
            >(Some(table@)),
            Ok(None) => spec_table(view_under(under)) == Ok::<
                Option<Map<Seq<char>, Seq<Seq<char>>>>,
                FaultView,
            >(None),
            Err(fault) => spec_table(view_under(under)) == Err::<
                Option<Map<Seq<char>, Seq<Seq<char>>>>,
                FaultView,
            >(fault@),
        },
{
    match under {
        Lookup::Absent => Ok(None),
        Lookup::Repeated => Err(Fault::Duplicate(Field::Exec)),
        Lookup::Once(Yaml::Null) => Ok(None),
        Lookup::Once(Yaml::Mapping(entries)) => {
            proof {
                lemma_mapping_view(*entries);
            }
            match routes_of(entries) {
                Some(table) => Ok(Some(table)),
                None => Err(Fault::Mismatch(Field::Exec)),
            }
        },
        Lookup::Once(_) => Err(Fault::Mismatch(Field::Exec)),
    }
}

/// A number from 0 to 255.
pub open spec fn spec_channel(node: YamlView) -> Option<u8> {
    match node {
        YamlView::Number(Some(n)) => if n <= 255 {
            Some(n as u8)
        } else {
            None
        },
        _ => None,
    }
}

/// The color that a tag and the node under it spell.
pub open spec fn spec_tagged_color(tag: Seq<char>, inner: YamlView) -> Option<Colorname> {
    if tag == "!Rgb"@ {
        match inner {
            YamlView::Sequence(items) => if items.len() == 3 {
                match (spec_channel(items[0]), spec_channel(items[1]), spec_channel(items[2])) {
                    (Some(r), Some(g), Some(b)) => Some(Colorname::Rgb(r, g, b)),
                    _ => None,
                }
            } else {
                None
            },
            _ => None,
        }
    } else if tag == "!AnsiValue"@ {
        match spec_channel(inner) {
            Some(code) => Some(Colorname::AnsiValue(code)),
            None => None,
        }
    } else if tag.len() > 0 && tag[0] == '!' && inner is Null {
        Colorname::spec_from_name(tag.subrange(1, tag.len() as int))
    } else {
        None
    }
}

/// The color that a node spells.
pub open spec fn spec_color(node: YamlView) -> Option<Colorname> {
    match node {
        YamlView::Text(name) => Colorname::spec_from_name(name),
        YamlView::Tagged(tag, inner) => spec_tagged_color(tag, *inner),
        _ => None,
    }
}

/// One slot of a color scheme: given once, as a color.
pub open spec fn spec_slot(field: Field, under: Lookup<YamlView>) -> Result<Colorname, FaultView> {
    match under {
        Lookup::Absent => Err(FaultView::Missing(field)),
        Lookup::Repeated => Err(FaultView::Duplicate(field)),
        Lookup::Once(node) => match spec_color(node) {
            Some(color) => Ok(color),
            None => Err(FaultView::Mismatch(field)),
        },
    }
}

/// The scheme that the entries of `color` spell out. Of several faults the one in
/// the earliest slot is reported, the slots taken in the order of the scheme.
pub open spec fn spec_scheme(entries: Seq<(YamlView, YamlView)>) -> Result<ConfigColor, FaultView> {
    match spec_slot(Field::DirFg, lookup(entries, Field::DirFg.spec_key())) {
        Err(fault) => Err(fault),
        Ok(dir_fg) => match spec_slot(Field::FileFg, lookup(entries, Field::FileFg.spec_key())) {
            Err(fault) => Err(fault),
            Ok(file_fg) => match spec_slot(
                Field::SymlinkFg,
                lookup(entries, Field::SymlinkFg.spec_key()),
            ) {
                Err(fault) => Err(fault),
                Ok(symlink_fg) => match spec_slot(
                    Field::DirtyFg,
                    lookup(entries, Field::DirtyFg.spec_key()),
                ) {
                    Err(fault) => Err(fault),
                    Ok(dirty_fg) => Ok(ConfigColor { dir_fg, file_fg, symlink_fg, dirty_fg }),
                },
            },
        },
    }
}

/// The setting `color`: not given, null, or a mapping that spells out a scheme.
pub open spec fn spec_colors(under: Lookup<YamlView>) -> Result<Option<ConfigColor>, FaultView> {
    match under {
        Lookup::Absent => Ok(None),
        Lookup::Repeated => Err(FaultView::Duplicate(Field::Color)),
        Lookup::Once(YamlView::Null) => Ok(None),
        Lookup::Once(YamlView::Mapping(entries)) => match spec_scheme(entries) {
            Ok(scheme) => Ok(Some(scheme)),
            Err(fault) => Err(fault),
        },
        Lookup::Once(_) => Err(FaultView::Mismatch(Field::Color)),
    }
}

/// Reads a number from 0 to 255.
fn channel_of(node: &Yaml) -> (channel: Option<u8>)
    ensures
        channel == spec_channel(node@),
{
    match node {
        Yaml::Number(Some(n)) => if *n <= 255 {
            Some(*n as u8)
        } else {
            None
        },
        _ => None,
    }
}

/// Reads the color under a tag.
fn tagged_color_of(tag: &String, inner: &Yaml) -> (color: Option<Colorname>)
    ensures
        color == spec_tagged_color(tag@, inner@),
{
    if same_text(tag.as_str(), "!Rgb") {
        match inner {
            Yaml::Sequence(items) => {
                proof {
                    lemma_sequence_view(*items);
                }
                if items.len() == 3 {
                    match (channel_of(&items[0]), channel_of(&items[1]), channel_of(&items[2])) {
                        (Some(r), Some(g), Some(b)) => Some(Colorname::Rgb(r, g, b)),
                        _ => None,
                    }
                } else {
                    None
                }
            },
            _ => None,
        }
    } else if same_text(tag.as_str(), "!AnsiValue") {
        match channel_of(inner) {
            Some(code) => Some(Colorname::AnsiValue(code)),
            None => None,
        }
    } else {
        let length = tag.as_str().unicode_len();
        let bare = match inner {
            Yaml::Null => true,
            _ => false,
        };
        if length > 0 && bare && tag.as_str().get_char(0) == '!' {
            Colorname::from_name(tag.as_str().substring_char(1, length))
        } else {
            None
        }
    }
}

/// Reads a color.
fn color_of(node: &Yaml) -> (color: Option<Colorname>)
    ensures
        color == spec_color(node@),
{
    match node {
        Yaml::Text(name) => Colorname::from_name(name.as_str()),
        Yaml::Tagged(tag, inner) => tagged_color_of(tag, inner),
        _ => None,
    }
}

/// Reads one slot of a color scheme.
fn slot_of(entries: &Vec<(Yaml, Yaml)>, field: Field) -> (outcome: Result<Colorname, Fault>)
    ensures
        match outcome {
            Ok(color) => spec_slot(field, lookup(entries_view(entries@), field.spec_key())) == Ok::<
                Colorname,
                FaultView,
            >(color),
            Err(fault) => spec_slot(field, lookup(entries_view(entries@), field.spec_key()))
                == Err::<Colorname, FaultView>(fault@),
        },
{
    match find(entries, field.key()) {
        Lookup::Absent => Err(Fault::Missing(field)),
        Lookup::Repeated => Err(Fault::Duplicate(field)),
        Lookup::Once(node) => match color_of(node) {
            Some(color) => Ok(color),
            None => Err(Fault::Mismatch(field)),
        },
    }
}

/// Reads the entries of `color`.
fn scheme_of(entries: &Vec<(Yaml, Yaml)>) -> (outcome: Result<ConfigColor, Fault>)
    ensures
        match outcome {
            Ok(scheme) => spec_scheme(entries_view(entries@)) == Ok::<ConfigColor, FaultView>(
                scheme,
            ),
            Err(fault) => spec_scheme(entries_view(entries@)) == Err::<ConfigColor, FaultView>(
                fault@,
            ),
        },
{
    let dir_fg = match slot_of(entries, Field::DirFg) {
        Ok(color) => color,
        Err(fault) => {
            return Err(fault);
        },
    };
    let file_fg = match slot_of(entries, Field::FileFg) {
        Ok(color) => color,
        Err(fault) => {
            return Err(fault);
        },
    };
    let symlink_fg = match slot_of(entries, Field::SymlinkFg) {
        Ok(color) => color,
        Err(fault) => {
            return Err(fault);
        },
    };
    let dirty_fg = match slot_of(entries, Field::DirtyFg) {
        Ok(color) => color,
        Err(fault) => {
            return Err(fault);
        },
    };
    Ok(ConfigColor { dir_fg, file_fg, symlink_fg, dirty_fg })
}

/// Reads the setting `color`.
fn colors_under(under: Lookup<&Yaml>) -> (outcome: Result<Option<ConfigColor>, Fault>)
    ensures
        match outcome {
            Ok(scheme) => spec_colors(view_under(under)) == Ok::<Option<ConfigColor>, FaultView>(
                scheme,
            ),
            Err(fault) => spec_colors(view_under(under)) == Err::<Option<ConfigColor>, FaultView>(
                fault@,
            ),
        },
{
    match under {
        Lookup::Absent => Ok(None),
        Lookup::Repeated => Err(Fault::Duplicate(Field::Color)),
        Lookup::Once(Yaml::Null) => Ok(None),
        Lookup::Once(Yaml::Mapping(entries)) => {
            proof {
                lemma_mapping_view(*entries);
            }
            match scheme_of(entries) {
                Ok(scheme) => Ok(Some(scheme)),
                Err(fault) => Err(fault),
            }
        },
        Lookup::Once(_) => Err(Fault::Mismatch(Field::Color)),
    }
}

/// The settings that the entries of a document spell out. Of several faults the
/// one in the earliest setting is reported, the settings taken in the order
/// `default`, `match_vim_exit_behavior`, `exec`, `ignore_case`, `color`.
pub open spec fn spec_settings(entries: Seq<(YamlView, YamlView)>) -> Result<ConfigView, FaultView> {
    match spec_text(Field::Default, lookup(entries, Field::Default.spec_key())) {
        Err(fault) => Err(fault),
        Ok(default) => match spec_flag(
            Field::MatchVimExitBehavior,
            lookup(entries, Field::MatchVimExitBehavior.spec_key()),
        ) {
            Err(fault) => Err(fault),
            Ok(match_vim_exit_behavior) => match spec_table(
                lookup(entries, Field::Exec.spec_key()),
            ) {
                Err(fault) => Err(fault),
                Ok(exec_table) => match spec_flag(
                    Field::IgnoreCase,
                    lookup(entries, Field::IgnoreCase.spec_key()),
                ) {
                    Err(fault) => Err(fault),
                    Ok(ignore_case) => match spec_colors(lookup(entries, Field::Color.spec_key())) {
                        Err(fault) => Err(fault),
                        Ok(color) => Ok(
                            ConfigView {
                                default,
                                match_vim_exit_behavior,
                                exec_table,
                                ignore_case,
                                color,
                            },
                        ),
                    },
                },
            },
        },
    }
}

/// The settings of a document: those of its entries where it is a mapping, none
/// where it is empty. Any other document is no configuration.
pub open spec fn spec_decode(document: YamlView) -> Result<ConfigView, FaultView> {
    match document {
        YamlView::Null => Ok(ConfigView::unset()),
        YamlView::Mapping(entries) => spec_settings(entries),
        _ => Err(FaultView::Mismatch(Field::Document)),
    }
}

/// Reads the settings that the entries of a document spell out.
fn settings_of(entries: &Vec<(Yaml, Yaml)>) -> (outcome: Result<Config, Fault>)
    ensures
        match outcome {
            Ok(config) => spec_settings(entries_view(entries@)) == Ok::<ConfigView, FaultView>(
                config@,
            ),
            Err(fault) => spec_settings(entries_view(entries@)) == Err::<ConfigView, FaultView>(
                fault@,
            ),
        },
{
    let default = match text_under(Field::Default, find(entries, Field::Default.key())) {
        Ok(text) => text,
        Err(fault) => {
            return Err(fault);
        },
    };
    let match_vim_exit_behavior = match flag_under(
        Field::MatchVimExitBehavior,
        find(entries, Field::MatchVimExitBehavior.key()),
    ) {
        Ok(flag) => flag,
        Err(fault) => {
            return Err(fault);
        },
    };
    let exec_table = match table_under(find(entries, Field::Exec.key())) {
        Ok(table) => table,
        Err(fault) => {
            return Err(fault);
        },
    };
    let ignore_case = match flag_under(Field::IgnoreCase, find(entries, Field::IgnoreCase.key())) {
        Ok(flag) => flag,
        Err(fault) => {
            return Err(fault);
        },
    };
    let color = match colors_under(find(entries, Field::Color.key())) {
        Ok(scheme) => scheme,
        Err(fault) => {
            return Err(fault);
        },
    };
    Ok(Config { default, match_vim_exit_behavior, exec_table, ignore_case, color })
}

/// Decodes a document into the settings it gives. A document that gives none, the
/// empty one among them, yields settings that are all absent: the built-in
/// settings are never filled in here.
pub fn decode(document: &Yaml) -> (outcome: Result<Config, Fault>)
    ensures
        match outcome {
            Ok(config) => spec_decode(document@) == Ok::<ConfigView, FaultView>(config@),
            Err(fault) => spec_decode(document@) == Err::<ConfigView, FaultView>(fault@),
        },
{
    match document {
        Yaml::Null => Ok(
            Config {
                default: None,
                match_vim_exit_behavior: None,
                exec_table: None,
                ignore_case: None,
                color: None,
            },
        ),
        Yaml::Mapping(entries) => {
            proof {
                lemma_mapping_view(*entries);
            }
            settings_of(entries)
        },
        _ => Err(Fault::Mismatch(Field::Document)),
    }
}

} // verus!
