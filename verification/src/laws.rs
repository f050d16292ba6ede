//! What holds of loading whatever the file system and whatever the document.

use crate::color::{lemma_names_are_exact, Colorname, ConfigColor};
use crate::config::{ConfigView, ConfigWithPathView};
use crate::decode::{
    keyed, lookup, spec_color, spec_decode, spec_route, spec_routes, spec_scheme, spec_slot,
    spec_strings, Lookup,
};
use crate::error::{Directory, FaultView, Field, FxErrorView};
use crate::load::{spec_interpret, spec_parse, spec_read_config};
use crate::path::ConfigPathView;
use crate::search::{
    spec_below, spec_built_in, spec_candidates, spec_conventional, spec_fallback,
    spec_first_present, spec_further_below, spec_load, spec_loaded, Platform, World,
};
use crate::yaml::YamlView;
use std::path::PathBuf;
use vstd::prelude::*;

verus! {

/// The search finds the earliest location that exists: every location before the
/// one it finds is missing, and it finds none only where all are missing.
pub proof fn lemma_first_match_wins(candidates: Seq<ConfigPathView>, from: int, world: World)
    requires
        0 <= from <= candidates.len(),
    ensures
        match spec_first_present(candidates, from, world) {
            Some(path) => exists|i: int|
                from <= i < candidates.len() && #[trigger] candidates[i] == path
                    && world.present.contains(path) && forall|j: int|
                    from <= j < i ==> !world.present.contains(#[trigger] candidates[j]),
            None => forall|j: int|
                from <= j < candidates.len() ==> !world.present.contains(#[trigger] candidates[j]),
        },
    decreases candidates.len() - from,
{
    if from < candidates.len() {
        if world.present.contains(candidates[from]) {
            assert(candidates[from] == candidates[from]);
        } else {
            lemma_first_match_wins(candidates, from + 1, world);
            match spec_first_present(candidates, from + 1, world) {
                Some(path) => {
                    let i = choose|i: int|
                        from + 1 <= i < candidates.len() && #[trigger] candidates[i] == path
                            && world.present.contains(path) && forall|j: int|
                            from + 1 <= j < i ==> !world.present.contains(
                                #[trigger] candidates[j],
                            );
                    assert(from <= i < candidates.len() && candidates[i] == path
                        && world.present.contains(path) && forall|j: int|
                        from <= j < i ==> !world.present.contains(#[trigger] candidates[j]));
                },
                None => {},
            }
        }
    }
}

/// Where none of the locations exists, loading hands back the built-in settings
/// and no path. That is no failure.
pub proof fn lemma_no_file_gives_built_in(candidates: Seq<ConfigPathView>, world: World)
    requires
        forall|i: int|
            0 <= i < candidates.len() ==> !world.present.contains(#[trigger] candidates[i]),
    ensures
        spec_first_present(candidates, 0, world) is None,
        spec_loaded(spec_first_present(candidates, 0, world), world) == Ok::<
            ConfigWithPathView,
            FxErrorView,
        >(spec_built_in()),
        spec_built_in().config_path is None,
        spec_built_in().config == ConfigView::built_in(),
{
    lemma_first_match_wins(candidates, 0, world);
    match spec_first_present(candidates, 0, world) {
        Some(path) => {
            assert(false);
        },
        None => {},
    }
}

/// Loading fails for want of a directory exactly where the platform cannot name
/// the configuration directory, or, on macOS, the home directory. It then fails
/// whatever the file system holds; and with the directories at hand no failure is
/// one of directories.
pub proof fn lemma_missing_directory_fails(
    platform: Platform,
    config_dir: Option<PathBuf>,
    home_dir: Option<PathBuf>,
    world: World,
)
    ensures
        config_dir is None ==> spec_load(platform, config_dir, home_dir, world) == Err::<
            ConfigWithPathView,
            FxErrorView,
        >(FxErrorView::Dirs(Directory::Config)),
        config_dir is Some && platform is MacOs && home_dir is None ==> spec_load(
            platform,
            config_dir,
            home_dir,
            world,
        ) == Err::<ConfigWithPathView, FxErrorView>(FxErrorView::Dirs(Directory::Home)),
        config_dir is Some && (platform is Other || home_dir is Some) ==> !(spec_load(
            platform,
            config_dir,
            home_dir,
            world,
        ) matches Err(FxErrorView::Dirs(_))),
        platform is Other ==> spec_load(platform, config_dir, home_dir, world) == spec_load(
            platform,
            config_dir,
            None,
            world,
        ),
{
}

/// Where the directories are at hand and none of the locations of the search
/// exists, loading hands back the built-in settings and no path, on every
/// platform.
pub proof fn lemma_fresh_system_loads_built_in(
    platform: Platform,
    config_dir: PathBuf,
    home_dir: PathBuf,
    world: World,
)
    requires
        forall|i: int|
            0 <= i < spec_candidates(platform, config_dir, home_dir).len()
                ==> !world.present.contains(
                #[trigger] spec_candidates(platform, config_dir, home_dir)[i],
            ),
    ensures
        spec_load(platform, Some(config_dir), Some(home_dir), world) == Ok::<
            ConfigWithPathView,
            FxErrorView,
        >(spec_built_in()),
{
    lemma_no_file_gives_built_in(spec_candidates(platform, config_dir, home_dir), world);
}

/// A file that was found is read, and what it holds decides: where its text is
/// no configuration, or it cannot be read, loading fails. The built-in settings
/// never stand in for a file that exists.
pub proof fn lemma_found_file_decides(
    candidates: Seq<ConfigPathView>,
    world: World,
    path: ConfigPathView,
)
    requires
        spec_first_present(candidates, 0, world) == Some(path),
    ensures
        spec_loaded(spec_first_present(candidates, 0, world), world) == spec_read_config(
            path,
            (world.content)(path),
        ),
        (world.content)(path) matches Err(message) ==> spec_read_config(
            path,
            (world.content)(path),
        ) == Err::<ConfigWithPathView, FxErrorView>(FxErrorView::FileOperation(message)),
        (world.content)(path) matches Ok(text) ==> (spec_parse(text) matches Err(error)
            ==> error is Deserialization && spec_read_config(path, (world.content)(path)) == Err::<
            ConfigWithPathView,
            FxErrorView,
        >(error)),
        (world.content)(path) matches Ok(text) ==> (spec_parse(text) matches Ok(config)
            ==> spec_read_config(path, (world.content)(path)) == Ok::<
            ConfigWithPathView,
            FxErrorView,
        >(ConfigWithPathView { config_path: Some(path), config })),
{
}

/// Off macOS only the two lowercase `felix` locations are searched. Where every
/// file that exists lies below a directory named `FELIX`, none is found, and
/// loading hands back the built-in settings.
pub proof fn lemma_uppercase_is_not_searched_off_macos(
    config_dir: PathBuf,
    home_dir: PathBuf,
    world: World,
)
    requires
        forall|path: ConfigPathView| #[trigger]
            world.present.contains(path) ==> path.segments.contains("FELIX"@),
    ensures
        spec_candidates(Platform::Other, config_dir, home_dir) == spec_conventional(config_dir),
        spec_first_present(spec_candidates(Platform::Other, config_dir, home_dir), 0, world)
            is None,
        spec_load(Platform::Other, Some(config_dir), Some(home_dir), world) == Ok::<
            ConfigWithPathView,
            FxErrorView,
        >(spec_built_in()),
        spec_load(Platform::Other, Some(config_dir), None, world) == Ok::<
            ConfigWithPathView,
            FxErrorView,
        >(spec_built_in()),
{
    let candidates = spec_candidates(Platform::Other, config_dir, home_dir);
    reveal_strlit("FELIX");
    reveal_strlit("felix");
    reveal_strlit("config.yaml");
    reveal_strlit("config.yml");
    assert("FELIX"@[0] == 'F' && "felix"@[0] == 'f' && "config.yaml"@[0] == 'c' && "config.yml"@[0]
        == 'c');
    assert forall|i: int| 0 <= i < candidates.len() implies !world.present.contains(
        #[trigger] candidates[i],
    ) by {
        let segments = candidates[i].segments;
        assert(segments.len() == 2);
        if segments.contains("FELIX"@) {
            let k = choose|k: int| 0 <= k < segments.len() && segments[k] == "FELIX"@;
            assert(segments[k][0] == 'F');
        }
    }
    lemma_no_file_gives_built_in(candidates, world);
}

/// On macOS the conventional locations come before those below the home
/// directory: where both `felix/config.yaml` below the configuration directory
/// and `.config/FELIX/config.yaml` below the home directory exist, the first of
/// the two is the file that is read.
pub proof fn lemma_conventional_comes_first_on_macos(
    config_dir: PathBuf,
    home_dir: PathBuf,
    world: World,
)
    requires
        world.present.contains(spec_below(config_dir, "felix"@, "config.yaml"@)),
        world.present.contains(
            spec_further_below(home_dir, ".config"@, "FELIX"@, "config.yaml"@),
        ),
    ensures
        spec_first_present(spec_candidates(Platform::MacOs, config_dir, home_dir), 0, world)
            == Some(spec_below(config_dir, "felix"@, "config.yaml"@)),
        spec_load(Platform::MacOs, Some(config_dir), Some(home_dir), world) == spec_read_config(
            spec_below(config_dir, "felix"@, "config.yaml"@),
            (world.content)(spec_below(config_dir, "felix"@, "config.yaml"@)),
        ),
        spec_load(Platform::MacOs, Some(config_dir), Some(home_dir), world) matches Ok(loaded)
            ==> loaded.config_path == Some(spec_below(config_dir, "felix"@, "config.yaml"@)),
{
    let candidates = spec_candidates(Platform::MacOs, config_dir, home_dir);
    assert(candidates[0] == spec_below(config_dir, "felix"@, "config.yaml"@));
}

/// On macOS four locations are searched, in this order; elsewhere the first two.
pub proof fn lemma_search_order(platform: Platform, config_dir: PathBuf, home_dir: PathBuf)
    ensures
        platform is Other ==> spec_candidates(platform, config_dir, home_dir) == seq![
            spec_below(config_dir, "felix"@, "config.yaml"@),
            spec_below(config_dir, "felix"@, "config.yml"@),
        ],
        platform is MacOs ==> spec_candidates(platform, config_dir, home_dir) == seq![
            spec_below(config_dir, "felix"@, "config.yaml"@),
            spec_below(config_dir, "felix"@, "config.yml"@),
            spec_further_below(home_dir, ".config"@, "FELIX"@, "config.yaml"@),
            spec_further_below(home_dir, ".config"@, "FELIX"@, "config.yml"@),
        ],
{
    assert(spec_conventional(config_dir) + spec_fallback(home_dir) =~= seq![
        spec_below(config_dir, "felix"@, "config.yaml"@),
        spec_below(config_dir, "felix"@, "config.yml"@),
        spec_further_below(home_dir, ".config"@, "FELIX"@, "config.yaml"@),
        spec_further_below(home_dir, ".config"@, "FELIX"@, "config.yml"@),
    ]);
}

/// An empty document sets nothing: every setting is absent, `ignore_case` and
/// `color` too, which the built-in settings do give. So does a mapping without
/// entries.
pub proof fn lemma_empty_document_sets_nothing()
    ensures
        spec_decode(YamlView::Null) == Ok::<ConfigView, FaultView>(ConfigView::unset()),
        spec_decode(YamlView::Mapping(Seq::empty())) == Ok::<ConfigView, FaultView>(
            ConfigView::unset(),
        ),
        ConfigView::unset().default is None,
        ConfigView::unset().match_vim_exit_behavior is None,
        ConfigView::unset().exec_table is None,
        ConfigView::unset().ignore_case is None,
        ConfigView::unset().color is None,
        ConfigView::unset() != ConfigView::built_in(),
{
    let none = Seq::<(YamlView, YamlView)>::empty();
    assert forall|key: Seq<char>| lookup(none, key) is Absent by {
        assert forall|i: int| !keyed(none, key, i) by {}
    }
}

/// The built-in settings: case is not ignored, the colors are light cyan, light
/// white, light yellow and red, and nothing else is set.
pub proof fn lemma_built_in_settings()
    ensures
        ConfigView::built_in().ignore_case == Some(false),
        ConfigView::built_in().color == Some(
            ConfigColor {
                dir_fg: Colorname::LightCyan,
                file_fg: Colorname::LightWhite,
                symlink_fg: Colorname::LightYellow,
                dirty_fg: Colorname::Red,
            },
        ),
        ConfigView::built_in().default is None,
        ConfigView::built_in().match_vim_exit_behavior is None,
        ConfigView::built_in().exec_table is None,
{
}

/// Whether a field is one of the four slots of a color scheme.
pub open spec fn is_slot(field: Field) -> bool {
    field is DirFg || field is FileFg || field is SymlinkFg || field is DirtyFg
}

/// A document whose color scheme holds, in any slot, a name that is no color is
/// no configuration: decoding fails, and what the parser made of the file comes to
/// a failure of deserialization, never to settings.
pub proof fn lemma_unknown_color_is_a_failure(
    entries: Seq<(YamlView, YamlView)>,
    scheme: Seq<(YamlView, YamlView)>,
    slot: Field,
    name: Seq<char>,
)
    requires
        lookup(entries, Field::Color.spec_key()) == Lookup::Once(YamlView::Mapping(scheme)),
        is_slot(slot),
        lookup(scheme, slot.spec_key()) == Lookup::Once(YamlView::Text(name)),
        Colorname::spec_from_name(name) is None,
    ensures
        spec_scheme(scheme) is Err,
        spec_decode(YamlView::Mapping(entries)) is Err,
        spec_interpret(Ok(YamlView::Mapping(entries))) matches Err(error) && error
            is Deserialization,
{
    assert(spec_slot(slot, lookup(scheme, slot.spec_key())) == Err::<Colorname, FaultView>(
        FaultView::Mismatch(slot),
    ));
}

/// The strings `list`, as the items of a YAML sequence.
pub open spec fn spec_texts(list: Seq<Seq<char>>) -> Seq<YamlView> {
    Seq::new(list.len(), |i: int| YamlView::Text(list[i]))
}

/// A sequence of strings is read as these strings, in their order.
pub proof fn lemma_strings_keep_their_order(list: Seq<Seq<char>>)
    ensures
        spec_strings(spec_texts(list)) == Some(list),
{
    assert(spec_strings(spec_texts(list))->Some_0 =~= list);
}

/// In the table of `exec`, a command is found with exactly the extensions of its
/// last entry, in the order in which that entry lists them.
pub proof fn lemma_command_is_recovered(
    routes: Seq<(YamlView, YamlView)>,
    i: int,
    command: Seq<char>,
    extensions: Seq<Seq<char>>,
)
    requires
        0 <= i < routes.len(),
        forall|k: int| 0 <= k < routes.len() ==> spec_route(#[trigger] routes[k]) is Some,
        routes[i] == (YamlView::Text(command), YamlView::Sequence(spec_texts(extensions))),
        forall|k: int| i < k < routes.len() ==> (#[trigger] routes[k]).0 != YamlView::Text(command),
    ensures
        spec_routes(routes) matches Some(table) && table.contains_key(command) && table[command]
            == extensions,
    decreases routes.len(),
{
    let earlier = routes.drop_last();
    lemma_every_entry_suffices(earlier);
    lemma_strings_keep_their_order(extensions);
    if i < routes.len() - 1 {
        lemma_command_is_recovered(earlier, i, command, extensions);
        assert(routes.last() == routes[routes.len() - 1]);
    }
}

/// Where every entry is a command with its extensions, the entries spell out a
/// table.
pub proof fn lemma_every_entry_suffices(routes: Seq<(YamlView, YamlView)>)
    requires
        forall|k: int| 0 <= k < routes.len() ==> spec_route(#[trigger] routes[k]) is Some,
    ensures
        spec_routes(routes) is Some,
    decreases routes.len(),
{
    if routes.len() > 0 {
        lemma_every_entry_suffices(routes.drop_last());
        assert(routes.last() == routes[routes.len() - 1]);
    }
}

/// The table of `exec` holds the commands of its entries and no others.
pub proof fn lemma_table_holds_the_commands(routes: Seq<(YamlView, YamlView)>, command: Seq<char>)
    requires
        spec_routes(routes) is Some,
    ensures
        spec_routes(routes)->Some_0.contains_key(command) <==> exists|k: int|
            0 <= k < routes.len() && (#[trigger] routes[k]).0 == YamlView::Text(command),
    decreases routes.len(),
{
    if routes.len() > 0 {
        let earlier = routes.drop_last();
        lemma_table_holds_the_commands(earlier, command);
        let last = routes.len() - 1;
        assert(routes.last() == routes[last]);
        if exists|k: int| 0 <= k < earlier.len() && (#[trigger] earlier[k]).0 == YamlView::Text(
            command,
        ) {
            let k = choose|k: int|
                0 <= k < earlier.len() && (#[trigger] earlier[k]).0 == YamlView::Text(command);
            assert(routes[k].0 == YamlView::Text(command));
        }
        if exists|k: int| 0 <= k < routes.len() && (#[trigger] routes[k]).0 == YamlView::Text(
            command,
        ) {
            let k = choose|k: int|
                0 <= k < routes.len() && (#[trigger] routes[k]).0 == YamlView::Text(command);
            if k < last {
                assert(earlier[k].0 == YamlView::Text(command));
            }
        }
    }
}

/// A document that gives every setting once, each of its type, is decoded to
/// exactly what it gives: the string, the booleans, the table that the entries of
/// `exec` spell out, and in each slot of the scheme the color that is named there.
pub proof fn lemma_settings_are_recovered(
    entries: Seq<(YamlView, YamlView)>,
    default: Seq<char>,
    match_vim_exit_behavior: bool,
    routes: Seq<(YamlView, YamlView)>,
    ignore_case: bool,
    scheme: Seq<(YamlView, YamlView)>,
    colors: ConfigColor,
)
    requires
        lookup(entries, Field::Default.spec_key()) == Lookup::Once(YamlView::Text(default)),
        lookup(entries, Field::MatchVimExitBehavior.spec_key()) == Lookup::Once(
            YamlView::Bool(match_vim_exit_behavior),
        ),
        lookup(entries, Field::Exec.spec_key()) == Lookup::Once(YamlView::Mapping(routes)),
        spec_routes(routes) is Some,
        lookup(entries, Field::IgnoreCase.spec_key()) == Lookup::Once(YamlView::Bool(ignore_case)),
        lookup(entries, Field::Color.spec_key()) == Lookup::Once(YamlView::Mapping(scheme)),
        colors.dir_fg.is_named(),
        colors.file_fg.is_named(),
        colors.symlink_fg.is_named(),
        colors.dirty_fg.is_named(),
        lookup(scheme, Field::DirFg.spec_key()) == Lookup::Once(
            YamlView::Text(colors.dir_fg.spec_name()),
        ),
        lookup(scheme, Field::FileFg.spec_key()) == Lookup::Once(
            YamlView::Text(colors.file_fg.spec_name()),
        ),
        lookup(scheme, Field::SymlinkFg.spec_key()) == Lookup::Once(
            YamlView::Text(colors.symlink_fg.spec_name()),
        ),
        lookup(scheme, Field::DirtyFg.spec_key()) == Lookup::Once(
            YamlView::Text(colors.dirty_fg.spec_name()),
        ),
    ensures
        spec_decode(YamlView::Mapping(entries)) == Ok::<ConfigView, FaultView>(
            ConfigView {
                default: Some(default),
                match_vim_exit_behavior: Some(match_vim_exit_behavior),
                exec_table: spec_routes(routes),
                ignore_case: Some(ignore_case),
                color: Some(colors),
            },
        ),
{
    lemma_names_are_exact(colors.dir_fg, colors.dir_fg.spec_name());
    lemma_names_are_exact(colors.file_fg, colors.file_fg.spec_name());
    lemma_names_are_exact(colors.symlink_fg, colors.symlink_fg.spec_name());
    lemma_names_are_exact(colors.dirty_fg, colors.dirty_fg.spec_name());
    assert(spec_scheme(scheme) == Ok::<ConfigColor, FaultView>(colors));
}

/// A color is decoded from its name to the variant of that name, and from no
/// other text to any color.
pub proof fn lemma_color_is_its_name(color: Colorname, name: Seq<char>)
    ensures
        color.is_named() ==> spec_color(YamlView::Text(color.spec_name())) == Some(color),
        spec_color(YamlView::Text(name)) == Some(color) ==> color.is_named() && name
            == color.spec_name(),
{
    lemma_names_are_exact(color, name);
}

} // verus!
