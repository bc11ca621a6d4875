//! Removal of an extension, as a step function.
//!
//! Removing the master record of the legacy bundle removes the whole bundle:
//! the alias and the record of every tool bridged out of it, the extraction
//! directory and the master record, and persists the registry once.
//!
//! The family of a record decides how it is removed. The record of a tool
//! of the bundle points into the extraction directory, which the master
//! record owns; its alias is found by the name of the record: it is the
//! command of that name.

use crate::effect::{strings_view, Action, ActionView, Event, EventView};
use crate::error::{ErrorView, ExtensionError};
use crate::manager::{
    extract_dir, legacy_target, legacy_target_at, master_name, tool_path, ExtensionManager,
    LEGACY_TOOL_COUNT,
};
use crate::registry::{
    keys_without, ExtensionConfig, ExtensionRecord, ExtensionType, PathSet, Registry,
};
use crate::text::{ends_with, has_prefix, has_suffix, join2, starts_with, str_eq};
use vstd::prelude::*;
use vstd::string::*;

verus! {

/// How far a removal has come.
pub enum UninstallState {
    /// Nothing has been asked for yet.
    Idle,
    /// The registry is being read.
    Loading,
    /// The disk is being asked what there is to remove; the registry is the
    /// one that was read.
    Surveying { registry: Registry },
    /// Files and directories are being removed; the registry is the one to
    /// persist afterwards.
    Removing { registry: Registry },
    /// The registry is being persisted.
    Saving,
    /// The removal is complete.
    Finished,
    /// The removal failed.
    Failed,
}

/// The mathematical value of an [`UninstallState`].
pub enum UninstallStateView {
    Idle,
    Loading,
    Surveying { registry: Map<Seq<char>, ExtensionRecord>, order: Seq<Seq<char>> },
    Removing { registry: Map<Seq<char>, ExtensionRecord>, order: Seq<Seq<char>> },
    Saving,
    Finished,
    Failed,
}

impl View for UninstallState {
    type V = UninstallStateView;

    open spec fn view(&self) -> UninstallStateView {
        match self {
            UninstallState::Idle => UninstallStateView::Idle,
            UninstallState::Loading => UninstallStateView::Loading,
            UninstallState::Surveying { registry } => UninstallStateView::Surveying {
                registry: registry@,
                order: registry.keys(),
            },
            UninstallState::Removing { registry } => UninstallStateView::Removing {
                registry: registry@,
                order: registry.keys(),
            },
            UninstallState::Saving => UninstallStateView::Saving,
            UninstallState::Finished => UninstallStateView::Finished,
            UninstallState::Failed => UninstallStateView::Failed,
        }
    }
}

/// Whether `name` is the name of a tool of the legacy bundle.
pub open spec fn is_tool_name(name: Seq<char>) -> bool {
    ||| name == legacy_target(0)
    ||| name == legacy_target(1)
    ||| name == legacy_target(2)
    ||| name == legacy_target(3)
    ||| name == legacy_target(4)
    ||| name == legacy_target(5)
}

/// Whether the record under `name` is that of a tool bridged out of the
/// legacy bundle: a record of the bundle's family other than the master
/// record. The family decides, not the name.
pub open spec fn is_derived(registry: Map<Seq<char>, ExtensionRecord>, name: Seq<char>) -> bool {
    registry.contains_key(name) && name != master_name() && registry[name].extension_type
        == ExtensionType::PactRubyStandalone
}

/// Whether the record under `name` belongs to the legacy bundle: the master
/// record or that of a tool bridged out of it.
pub open spec fn in_bundle(registry: Map<Seq<char>, ExtensionRecord>, name: Seq<char>) -> bool {
    registry.contains_key(name) && (name == master_name() || is_derived(registry, name))
}

/// Whether a record of another family stands under `name`. What lies at the
/// command of such a name is not the bundle's to remove.
pub open spec fn claimed(registry: Map<Seq<char>, ExtensionRecord>, name: Seq<char>) -> bool {
    registry.contains_key(name) && registry[name].extension_type
        != ExtensionType::PactRubyStandalone
}

/// Whether `path` lies in the extraction directory.
pub open spec fn lies_in_bundle(home: Seq<char>, path: Seq<char>) -> bool {
    has_prefix(path, extract_dir(home) + "/"@)
}

/// The registry without the records of the legacy bundle.
pub open spec fn without_bundle(registry: Map<Seq<char>, ExtensionRecord>) -> Map<
    Seq<char>,
    ExtensionRecord,
> {
    Map::new(
        |k: Seq<char>| registry.contains_key(k) && !in_bundle(registry, k),
        |k: Seq<char>| registry[k],
    )
}

/// The listing order of the registry without the records of the legacy
/// bundle: the names that stay, in the order they had.
pub open spec fn order_without_bundle(
    order: Seq<Seq<char>>,
    registry: Map<Seq<char>, ExtensionRecord>,
) -> Seq<Seq<char>>
    decreases order.len(),
{
    if order.len() == 0 {
        Seq::empty()
    } else if in_bundle(registry, order.last()) {
        order_without_bundle(order.drop_last(), registry)
    } else {
        order_without_bundle(order.drop_last(), registry).push(order.last())
    }
}

/// The aliases of the first `n` tools of the legacy bundle: the command of
/// each tool's name, whether or not the registry has a record of the tool,
/// unless a record of another family stands under the name.
pub open spec fn known_aliases(
    home: Seq<char>,
    os: Seq<char>,
    registry: Map<Seq<char>, ExtensionRecord>,
    n: int,
) -> Seq<Seq<char>>
    decreases n,
{
    if n <= 0 {
        Seq::empty()
    } else if claimed(registry, legacy_target(n - 1)) {
        known_aliases(home, os, registry, n - 1)
    } else {
        known_aliases(home, os, registry, n - 1).push(tool_path(home, os, legacy_target(n - 1)))
    }
}

/// What goes with the record `record` of a tool bridged out of the legacy
/// bundle under `name`, besides what the extraction directory holds: the
/// alias, which is the command of the name, unless the name is that of a
/// tool of the bundle, whose alias goes anyway; and what the record points
/// to, unless that is the alias or lies in the extraction directory.
pub open spec fn record_paths(
    home: Seq<char>,
    os: Seq<char>,
    name: Seq<char>,
    record: ExtensionRecord,
) -> Seq<Seq<char>> {
    let alias = if is_tool_name(name) {
        Seq::<Seq<char>>::empty()
    } else {
        seq![tool_path(home, os, name)]
    };
    if record.binary_path == tool_path(home, os, name) || lies_in_bundle(home, record.binary_path) {
        alias
    } else {
        alias.push(record.binary_path)
    }
}

/// What goes with the records bridged out of the legacy bundle, walked in
/// listing order.
pub open spec fn further_paths(
    home: Seq<char>,
    os: Seq<char>,
    order: Seq<Seq<char>>,
    registry: Map<Seq<char>, ExtensionRecord>,
) -> Seq<Seq<char>>
    decreases order.len(),
{
    if order.len() == 0 {
        Seq::empty()
    } else if is_derived(registry, order.last()) {
        further_paths(home, os, order.drop_last(), registry) + record_paths(
            home,
            os,
            order.last(),
            registry[order.last()],
        )
    } else {
        further_paths(home, os, order.drop_last(), registry)
    }
}

/// The files that go with the legacy bundle, besides the extraction
/// directory: the aliases of its tools, then what goes with each record
/// bridged out of it.
pub open spec fn bundle_paths(
    home: Seq<char>,
    os: Seq<char>,
    order: Seq<Seq<char>>,
    registry: Map<Seq<char>, ExtensionRecord>,
) -> Seq<Seq<char>> {
    known_aliases(home, os, registry, LEGACY_TOOL_COUNT as int) + further_paths(
        home,
        os,
        order,
        registry,
    )
}

/// What there is to remove for the single record under `name`: the alias
/// where the record is that of a tool bridged out of the legacy bundle,
/// whose file stays with the bundle; else what the record points to.
pub open spec fn artifact_of(
    home: Seq<char>,
    os: Seq<char>,
    registry: Map<Seq<char>, ExtensionRecord>,
    name: Seq<char>,
) -> Seq<char> {
    if is_derived(registry, name) {
        tool_path(home, os, name)
    } else {
        registry[name].binary_path
    }
}

/// Those of `paths` that exist, in the same order.
pub open spec fn existing(paths: Seq<Seq<char>>, present: Set<Seq<char>>) -> Seq<Seq<char>>
    decreases paths.len(),
{
    if paths.len() == 0 {
        Seq::empty()
    } else if present.contains(paths.last()) {
        existing(paths.drop_last(), present).push(paths.last())
    } else {
        existing(paths.drop_last(), present)
    }
}

/// What removes the artifact of a single record: nothing where the path does
/// not exist; the directory with all it holds where the path is an
/// extraction directory and not an alias; else the file.
pub open spec fn removal_of(path: Seq<char>, alias: bool, present: Set<Seq<char>>) -> ActionView {
    if !present.contains(path) {
        ActionView::Remove { files: Seq::empty(), directories: Seq::empty() }
    } else if !alias && has_suffix(path, "/pact-legacy"@) {
        ActionView::Remove { files: Seq::empty(), directories: seq![path] }
    } else {
        ActionView::Remove { files: seq![path], directories: Seq::empty() }
    }
}

/// The failed state, with the action that reports `error`.
pub open spec fn stopped(error: ErrorView) -> (UninstallStateView, ActionView) {
    (UninstallStateView::Failed, ActionView::Fail { error })
}

/// The next state and action of the removal of the extension `name`.
///
/// In order: read the registry, ask the disk which artifacts exist, remove
/// them, persist the registry without the records. A name that the registry
/// lacks fails as not registered, unless it is the master name of the legacy
/// bundle, whose removal always goes through.
pub open spec fn uninstall_step(
    home: Seq<char>,
    os: Seq<char>,
    name: Seq<char>,
    state: UninstallStateView,
    event: EventView,
) -> (UninstallStateView, ActionView) {
    match state {
        UninstallStateView::Idle => match event {
            EventView::Begin => (UninstallStateView::Loading, ActionView::LoadRegistry),
            _ => stopped(ErrorView::OutOfOrder),
        },
        UninstallStateView::Loading => match event {
            EventView::Loaded { registry, order } => if name == master_name() {
                (
                    UninstallStateView::Surveying { registry, order },
                    ActionView::Probe {
                        paths: bundle_paths(home, os, order, registry).push(extract_dir(home)),
                    },
                )
            } else if registry.contains_key(name) {
                (
                    UninstallStateView::Surveying { registry, order },
                    ActionView::Probe { paths: seq![artifact_of(home, os, registry, name)] },
                )
            } else {
                stopped(ErrorView::NotRegistered { name })
            },
            _ => stopped(ErrorView::OutOfOrder),
        },
        UninstallStateView::Surveying { registry, order } => match event {
            EventView::Present { paths } => if name == master_name() {
                (
                    UninstallStateView::Removing {
                        registry: without_bundle(registry),
                        order: order_without_bundle(order, registry),
                    },
                    ActionView::Remove {
                        files: existing(bundle_paths(home, os, order, registry), paths),
                        directories: existing(seq![extract_dir(home)], paths),
                    },
                )
            } else if registry.contains_key(name) {
                (
                    UninstallStateView::Removing {
                        registry: registry.remove(name),
                        order: keys_without(order, name),
                    },
                    removal_of(
                        artifact_of(home, os, registry, name),
                        is_derived(registry, name),
                        paths,
                    ),
                )
            } else {
                stopped(ErrorView::OutOfOrder)
            },
            _ => stopped(ErrorView::OutOfOrder),
        },
        UninstallStateView::Removing { registry, order } => match event {
            EventView::Done => (
                UninstallStateView::Saving,
                ActionView::SaveRegistry { registry, order },
            ),
            EventView::Failed { message } => stopped(ErrorView::Filesystem { message }),
            _ => stopped(ErrorView::OutOfOrder),
        },
        UninstallStateView::Saving => match event {
            EventView::Done => (UninstallStateView::Finished, ActionView::Finish),
            EventView::Failed { message } => stopped(ErrorView::Filesystem { message }),
            _ => stopped(ErrorView::OutOfOrder),
        },
        UninstallStateView::Finished => stopped(ErrorView::OutOfOrder),
        UninstallStateView::Failed => stopped(ErrorView::OutOfOrder),
    }
}

/// The failed state, with the action that reports `error`.
fn stop(error: ExtensionError) -> (r: (UninstallState, Action))
    ensures
        (r.0@, r.1@) == stopped(error@),
{
    (UninstallState::Failed, Action::Fail { error })
}

/// Those of `paths` that exist, in the same order.
pub fn existing_paths(paths: &Vec<String>, present: &PathSet) -> (r: Vec<String>)
    ensures
        strings_view(r@) == existing(strings_view(paths@), present@),
{
    let ghost all = strings_view(paths@);
    let mut found: Vec<String> = Vec::new();
    assert(strings_view(found@) =~= existing(all.subrange(0, 0), present@));
    let mut i: usize = 0;
    while i < paths.len()
        invariant
            i <= paths@.len(),
            all == strings_view(paths@),
            strings_view(found@) == existing(all.subrange(0, i as int), present@),
        decreases paths@.len() - i,
    {
        proof {
            let next = all.subrange(0, i + 1);
            assert(next.drop_last() == all.subrange(0, i as int));
            assert(next.last() == paths@[i as int]@);
        }
        if present.contains(paths[i].as_str()) {
            let ghost before = strings_view(found@);
            found.push(paths[i].clone());
            assert(strings_view(found@) =~= before.push(paths@[i as int]@));
        }
        i += 1;
    }
    proof {
        assert(all.subrange(0, paths@.len() as int) == all);
    }
    found
}

/// Whether `name` is the name of a tool of the legacy bundle.
pub fn tool_name(name: &str) -> (r: bool)
    ensures
        r == is_tool_name(name@),
{
    str_eq(name, legacy_target_at(0)) || str_eq(name, legacy_target_at(1)) || str_eq(
        name,
        legacy_target_at(2),
    ) || str_eq(name, legacy_target_at(3)) || str_eq(name, legacy_target_at(4)) || str_eq(
        name,
        legacy_target_at(5),
    )
}

/// Whether a record is of the family of the legacy bundle.
fn of_bundle_family(config: &ExtensionConfig) -> (r: bool)
    ensures
        r == (config.extension_type == ExtensionType::PactRubyStandalone),
{
    match config.extension_type {
        ExtensionType::PactRubyStandalone => true,
        _ => false,
    }
}

/// Whether a record under `name` is that of a tool bridged out of the
/// legacy bundle.
fn derived(name: &str, config: &ExtensionConfig) -> (r: bool)
    ensures
        r == (name@ != master_name() && config.extension_type
            == ExtensionType::PactRubyStandalone),
{
    !str_eq(name, "pact-legacy") && of_bundle_family(config)
}

/// Whether a record under `name` belongs to the legacy bundle.
fn belongs_to_bundle(name: &str, config: &ExtensionConfig) -> (r: bool)
    ensures
        r == (name@ == master_name() || config.extension_type
            == ExtensionType::PactRubyStandalone),
{
    str_eq(name, "pact-legacy") || of_bundle_family(config)
}

/// The character sequences of the concatenation of two sequences of strings.
proof fn lemma_strings_view_add(a: Seq<String>, b: Seq<String>)
    ensures
        strings_view(a + b) == strings_view(a) + strings_view(b),
{
    assert(strings_view(a + b) =~= strings_view(a) + strings_view(b));
}

impl ExtensionManager {
    /// What goes with the record `config` of a tool bridged out of the
    /// legacy bundle under `name`.
    fn record_paths(&self, name: &str, config: &ExtensionConfig) -> (r: Vec<String>)
        ensures
            strings_view(r@) == record_paths(
                self.extensions_home@,
                self.platform.os@,
                name@,
                config@,
            ),
    {
        let mut paths: Vec<String> = Vec::new();
        let alias = self.tool_path(name);
        let inside = join2(self.extract_dir().as_str(), "/");
        let path = config.binary_path.as_str();
        let covered = str_eq(path, alias.as_str()) || starts_with(path, inside.as_str());
        if !tool_name(name) {
            paths.push(alias);
        }
        if !covered {
            paths.push(config.binary_path.clone());
        }
        assert(strings_view(paths@) =~= record_paths(
            self.extensions_home@,
            self.platform.os@,
            name@,
            config@,
        ));
        paths
    }

    /// The files that go with the legacy bundle, besides the extraction
    /// directory.
    pub fn bundle_paths(&self, registry: &Registry) -> (r: Vec<String>)
        ensures
            strings_view(r@) == bundle_paths(
                self.extensions_home@,
                self.platform.os@,
                registry.keys(),
                registry@,
            ),
    {
        let ghost home = self.extensions_home@;
        let ghost os = self.platform.os@;
        let ghost order = registry.keys();
        let mut paths: Vec<String> = Vec::new();
        assert(strings_view(paths@) =~= known_aliases(home, os, registry@, 0));
        let mut t: usize = 0;
        while t < LEGACY_TOOL_COUNT
            invariant
                t <= LEGACY_TOOL_COUNT,
                home == self.extensions_home@,
                os == self.platform.os@,
                strings_view(paths@) == known_aliases(home, os, registry@, t as int),
            decreases LEGACY_TOOL_COUNT - t,
        {
            let name = legacy_target_at(t);
            let taken = match registry.get(name) {
                Some(config) => !of_bundle_family(config),
                None => false,
            };
            if !taken {
                let ghost before = strings_view(paths@);
                paths.push(self.tool_path(name));
                assert(strings_view(paths@) =~= before.push(
                    tool_path(home, os, legacy_target(t as int)),
                ));
            }
            t += 1;
        }
        assert(strings_view(paths@) =~= known_aliases(home, os, registry@, LEGACY_TOOL_COUNT as int)
            + further_paths(home, os, order.subrange(0, 0), registry@));
        let n = registry.len();
        let mut i: usize = 0;
        while i < n
            invariant
                i <= n,
                n == registry.keys().len(),
                order == registry.keys(),
                home == self.extensions_home@,
                os == self.platform.os@,
                strings_view(paths@) == known_aliases(
                    home,
                    os,
                    registry@,
                    LEGACY_TOOL_COUNT as int,
                ) + further_paths(home, os, order.subrange(0, i as int), registry@),
            decreases n - i,
        {
            let name = registry.key_at(i);
            let config = registry.config_at(i);
            proof {
                let next = order.subrange(0, i + 1);
                assert(next.drop_last() == order.subrange(0, i as int));
                assert(next.last() == order[i as int]);
            }
            if derived(name.as_str(), config) {
                let mut more = self.record_paths(name.as_str(), config);
                let ghost before = paths@;
                let ghost added = more@;
                paths.append(&mut more);
                proof {
                    lemma_strings_view_add(before, added);
                    let known = known_aliases(home, os, registry@, LEGACY_TOOL_COUNT as int);
                    let so_far = further_paths(home, os, order.subrange(0, i as int), registry@);
                    assert((known + so_far) + strings_view(added) =~= known + (so_far
                        + strings_view(added)));
                }
            }
            i += 1;
        }
        proof {
            assert(order.subrange(0, n as int) == order);
        }
        paths
    }
}

/// The records of `registry` among its first `i` names that do not belong
/// to the legacy bundle.
spec fn kept_upto(registry: Registry, i: int) -> Map<Seq<char>, ExtensionRecord> {
    Map::new(
        |k: Seq<char>|
            !in_bundle(registry@, k) && exists|j: int|
                0 <= j < i && j < registry.keys().len() && #[trigger] registry.keys()[j] == k,
        |k: Seq<char>| registry@[k],
    )
}

/// The registry without the records of the legacy bundle.
pub fn registry_without_bundle(registry: &Registry) -> (r: Registry)
    ensures
        r@ == without_bundle(registry@),
        r.keys() == order_without_bundle(registry.keys(), registry@),
{
    let ghost order = registry.keys();
    let n = registry.len();
    let mut kept = Registry::new();
    assert(kept@ =~= kept_upto(*registry, 0));
    assert(kept.keys() =~= order_without_bundle(order.subrange(0, 0), registry@));
    let mut i: usize = 0;
    while i < n
        invariant
            i <= n,
            n == registry.keys().len(),
            order == registry.keys(),
            kept@ == kept_upto(*registry, i as int),
            kept.keys() == order_without_bundle(order.subrange(0, i as int), registry@),
        decreases n - i,
    {
        let name = registry.key_at(i);
        let config = registry.config_at(i);
        let ghost before = kept@;
        proof {
            // The name at this position is not among those kept so far.
            use_type_invariant(registry);
            registry.keys_list_domain();
            if before.contains_key(order[i as int]) {
                let j = choose|j: int|
                    0 <= j < i && j < registry.keys().len() && #[trigger] registry.keys()[j]
                        == order[i as int];
                assert(order[j] != order[i as int]);
            }
            let next = order.subrange(0, i + 1);
            assert(next.drop_last() == order.subrange(0, i as int));
            assert(next.last() == order[i as int]);
        }
        if !belongs_to_bundle(name.as_str(), config) {
            kept.insert(name.clone(), config.clone());
        }
        proof {
            let k0 = registry.keys()[i as int];
            assert forall|k: Seq<char>| kept@.contains_key(k) == kept_upto(
                *registry,
                i + 1,
            ).contains_key(k) by {
                if before.contains_key(k) {
                    let j = choose|j: int|
                        0 <= j < i && j < registry.keys().len() && #[trigger] registry.keys()[j]
                            == k;
                    assert(0 <= j < i + 1 && registry.keys()[j] == k);
                }
                if kept_upto(*registry, i + 1).contains_key(k) {
                    let j = choose|j: int|
                        0 <= j < i + 1 && j < registry.keys().len() && #[trigger] registry.keys()[j]
                            == k;
                    if j < i {
                        assert(before.contains_key(k));
                    }
                }
                if k == k0 {
                    assert(registry.keys()[i as int] == k);
                }
            }
            assert(kept@ =~= kept_upto(*registry, i + 1));
        }
        i += 1;
    }
    proof {
        use_type_invariant(registry);
        registry.keys_list_domain();
        assert forall|k: Seq<char>| kept_upto(*registry, n as int).contains_key(k)
            == without_bundle(registry@).contains_key(k) by {
            if without_bundle(registry@).contains_key(k) {
                assert(registry.keys().contains(k));
                let j = choose|j: int| 0 <= j < registry.keys().len() && registry.keys()[j] == k;
                assert(registry.keys()[j] == k);
            }
            if kept_upto(*registry, n as int).contains_key(k) {
                let j = choose|j: int|
                    0 <= j < n && j < registry.keys().len() && #[trigger] registry.keys()[j] == k;
                assert(registry.keys().contains(k));
            }
        }
        assert(kept_upto(*registry, n as int) =~= without_bundle(registry@));
        assert(order.subrange(0, n as int) == order);
    }
    kept
}

/// What removes the artifact of a single record.
fn removal(path: &str, alias: bool, present: &PathSet) -> (r: Action)
    ensures
        r@ == removal_of(path@, alias, present@),
{
    let mut files: Vec<String> = Vec::new();
    let mut directories: Vec<String> = Vec::new();
    if present.contains(path) {
        if !alias && ends_with(path, "/pact-legacy") {
            directories.push(path.to_owned());
        } else {
            files.push(path.to_owned());
        }
    }
    assert(strings_view(files@) =~= removal_of(path@, alias, present@)->Remove_files);
    assert(strings_view(directories@) =~= removal_of(path@, alias, present@)->Remove_directories);
    Action::Remove { files, directories }
}

impl ExtensionManager {
    /// What there is to remove for the single record `config` under `name`,
    /// and whether that is an alias.
    fn artifact(&self, name: &str, config: &ExtensionConfig) -> (r: (String, bool))
        ensures
            r.1 == (name@ != master_name() && config.extension_type
                == ExtensionType::PactRubyStandalone),
            r.0@ == if r.1 {
                tool_path(self.extensions_home@, self.platform.os@, name@)
            } else {
                config.binary_path@
            },
    {
        if derived(name, config) {
            (self.tool_path(name), true)
        } else {
            (config.binary_path.clone(), false)
        }
    }

    /// One step of the removal of the extension `extension_name`.
    ///
    /// Start with [`UninstallState::Idle`] and [`Event::Begin`]; hand each
    /// action's outcome back as the next event, with the state that came
    /// with the action.
    pub fn uninstall_extension(&self, extension_name: &str, state: UninstallState, event: Event) -> (r:
        (UninstallState, Action))
        ensures
            (r.0@, r.1@) == uninstall_step(
                self.extensions_home@,
                self.platform.os@,
                extension_name@,
                state@,
                event@,
            ),
    {
        match state {
            UninstallState::Idle => match event {
                Event::Begin => (UninstallState::Loading, Action::LoadRegistry),
                _ => stop(ExtensionError::OutOfOrder),
            },
            UninstallState::Loading => match event {
                Event::Loaded { registry } => {
                    if str_eq(extension_name, "pact-legacy") {
                        let ghost before = bundle_paths(
                            self.extensions_home@,
                            self.platform.os@,
                            registry.keys(),
                            registry@,
                        );
                        let mut paths = self.bundle_paths(&registry);
                        paths.push(self.extract_dir());
                        assert(strings_view(paths@) =~= before.push(
                            extract_dir(self.extensions_home@),
                        ));
                        (UninstallState::Surveying { registry }, Action::Probe { paths })
                    } else {
                        let found = match registry.get(extension_name) {
                            Some(config) => Some(self.artifact(extension_name, config).0),
                            None => None,
                        };
                        match found {
                            Some(path) => {
                                let mut paths: Vec<String> = Vec::new();
                                paths.push(path);
                                assert(strings_view(paths@) =~= seq![
                                    artifact_of(
                                        self.extensions_home@,
                                        self.platform.os@,
                                        registry@,
                                        extension_name@,
                                    ),
                                ]);
                                (UninstallState::Surveying { registry }, Action::Probe { paths })
                            },
                            None => stop(
                                ExtensionError::NotRegistered { name: extension_name.to_owned() },
                            ),
                        }
                    }
                },
                _ => stop(ExtensionError::OutOfOrder),
            },
            UninstallState::Surveying { registry } => match event {
                Event::Present { paths } => {
                    if str_eq(extension_name, "pact-legacy") {
                        let candidates = self.bundle_paths(&registry);
                        let files = existing_paths(&candidates, &paths);
                        let mut homes: Vec<String> = Vec::new();
                        homes.push(self.extract_dir());
                        assert(strings_view(homes@) =~= seq![extract_dir(self.extensions_home@)]);
                        let directories = existing_paths(&homes, &paths);
                        let kept = registry_without_bundle(&registry);
                        (
                            UninstallState::Removing { registry: kept },
                            Action::Remove { files, directories },
                        )
                    } else {
                        let mut registry = registry;
                        match registry.remove(extension_name) {
                            Some(config) => {
                                let (path, alias) = self.artifact(extension_name, &config);
                                let action = removal(path.as_str(), alias, &paths);
                                (UninstallState::Removing { registry }, action)
                            },
                            None => stop(ExtensionError::OutOfOrder),
                        }
                    }
                },
                _ => stop(ExtensionError::OutOfOrder),
            },
            UninstallState::Removing { registry } => match event {
                Event::Done => (UninstallState::Saving, Action::SaveRegistry { registry }),
                Event::Failed { message } => stop(ExtensionError::Filesystem { message }),
                _ => stop(ExtensionError::OutOfOrder),
            },
            UninstallState::Saving => match event {
                Event::Done => (UninstallState::Finished, Action::Finish),
                Event::Failed { message } => stop(ExtensionError::Filesystem { message }),
                _ => stop(ExtensionError::OutOfOrder),
            },
            UninstallState::Finished => stop(ExtensionError::OutOfOrder),
            UninstallState::Failed => stop(ExtensionError::OutOfOrder),
        }
    }
}

} // verus!
