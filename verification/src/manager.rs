//! The extension manager: where extensions live on disk, the names that are
//! always listed, and the registry store.

use crate::effect::Action;
use crate::platform::{archive_extension, canonical_os, executable_extension, PlatformInfo};
use crate::registry::{ExtensionConfig, ExtensionRecord, ExtensionType, PathSet, Registry};
use crate::text::{join2, join3, str_eq};
use vstd::prelude::*;
use vstd::string::*;

verus! {

/// Manages the extensions under one home directory, for one platform.
pub struct ExtensionManager {
    pub extensions_home: String,
    pub platform: PlatformInfo,
}

/// The number of names that are always listed.
pub const BUILTIN_COUNT: usize = 7;

/// The number of tools in the legacy bundle.
pub const LEGACY_TOOL_COUNT: usize = 6;

/// The name of the master record of the legacy bundle.
pub open spec fn master_name() -> Seq<char> {
    "pact-legacy"@
}

/// The file name of tool `i` inside the legacy bundle.
pub open spec fn legacy_source(i: int) -> Seq<char> {
    if i == 0 {
        "pact-broker"@
    } else if i == 1 {
        "pactflow"@
    } else if i == 2 {
        "pact-message"@
    } else if i == 3 {
        "pact-mock-service"@
    } else if i == 4 {
        "pact-provider-verifier"@
    } else {
        "pact-stub-service"@
    }
}

/// The command name under which tool `i` of the legacy bundle is exposed.
pub open spec fn legacy_target(i: int) -> Seq<char> {
    if i == 0 {
        "pact-broker-legacy"@
    } else if i == 1 {
        "pactflow-legacy"@
    } else if i == 2 {
        "message-legacy"@
    } else if i == 3 {
        "mock-legacy"@
    } else if i == 4 {
        "verifier-legacy"@
    } else {
        "stub-legacy"@
    }
}

/// The name at position `i` of the names that are always listed: the
/// single-binary extension, then the tools of the legacy bundle.
pub open spec fn builtin_name(i: int) -> Seq<char> {
    if i == 0 {
        "pactflow-ai"@
    } else {
        legacy_target(i - 1)
    }
}

/// The family of the name at position `i` of the names that are always listed.
pub open spec fn builtin_type(i: int) -> ExtensionType {
    if i == 0 {
        ExtensionType::PactflowAi
    } else {
        ExtensionType::PactRubyStandalone
    }
}

/// The position of `name` among the names that are always listed.
pub open spec fn builtin_index(name: Seq<char>) -> Option<int> {
    if name == builtin_name(0) {
        Some(0)
    } else if name == builtin_name(1) {
        Some(1)
    } else if name == builtin_name(2) {
        Some(2)
    } else if name == builtin_name(3) {
        Some(3)
    } else if name == builtin_name(4) {
        Some(4)
    } else if name == builtin_name(5) {
        Some(5)
    } else if name == builtin_name(6) {
        Some(6)
    } else {
        None
    }
}

/// The document that persists the registry.
pub open spec fn config_path(home: Seq<char>) -> Seq<char> {
    home + "/config.json"@
}

/// The directory of the commands that can be invoked.
pub open spec fn bin_dir(home: Seq<char>) -> Seq<char> {
    home + "/bin"@
}

/// The directory the legacy bundle is extracted into.
pub open spec fn extract_dir(home: Seq<char>) -> Seq<char> {
    home + "/pact-legacy"@
}

/// Where the command `name` lives.
pub open spec fn tool_path(home: Seq<char>, os: Seq<char>, name: Seq<char>) -> Seq<char> {
    home + "/bin/"@ + name + executable_extension(os)
}

/// Where the tool with file name `source` lies inside the extracted bundle.
pub open spec fn source_path(home: Seq<char>, os: Seq<char>, source: Seq<char>) -> Seq<char> {
    home + "/pact-legacy/bin/"@ + source + executable_extension(os)
}

/// Where the downloaded archive of the legacy bundle is kept until it is
/// extracted.
pub open spec fn archive_path(home: Seq<char>, os: Seq<char>) -> Seq<char> {
    home + "/pact-legacy."@ + archive_extension(os)
}

/// The record that is listed for the name at position `i` of the names that
/// are always listed, when the registry has none: it counts as installed if
/// its command exists on disk.
pub open spec fn builtin_record(
    home: Seq<char>,
    os: Seq<char>,
    present: Set<Seq<char>>,
    i: int,
) -> ExtensionRecord {
    ExtensionRecord {
        name: builtin_name(i),
        version: "latest"@,
        binary_path: tool_path(home, os, builtin_name(i)),
        extension_type: builtin_type(i),
        installed: present.contains(tool_path(home, os, builtin_name(i))),
    }
}

/// The registry merged with the first `n` of the names that are always
/// listed. A name that the registry holds keeps its record.
pub open spec fn listing_upto(
    home: Seq<char>,
    os: Seq<char>,
    registry: Map<Seq<char>, ExtensionRecord>,
    present: Set<Seq<char>>,
    n: int,
) -> Map<Seq<char>, ExtensionRecord> {
    Map::new(
        |k: Seq<char>|
            registry.contains_key(k) || (builtin_index(k) matches Some(i) && i < n),
        |k: Seq<char>|
            if registry.contains_key(k) {
                registry[k]
            } else {
                builtin_record(home, os, present, builtin_index(k).unwrap())
            },
    )
}

/// What is listed: the registry merged with the names that are always listed.
pub open spec fn listing(
    home: Seq<char>,
    os: Seq<char>,
    registry: Map<Seq<char>, ExtensionRecord>,
    present: Set<Seq<char>>,
) -> Map<Seq<char>, ExtensionRecord> {
    listing_upto(home, os, registry, present, BUILTIN_COUNT as int)
}

/// The listing order of what is listed: the names of the registry, then
/// those of the first `n` names that are always listed which it lacks.
pub open spec fn listing_order_upto(
    order: Seq<Seq<char>>,
    registry: Map<Seq<char>, ExtensionRecord>,
    n: int,
) -> Seq<Seq<char>>
    decreases n,
{
    if n <= 0 {
        order
    } else if registry.contains_key(builtin_name(n - 1)) {
        listing_order_upto(order, registry, n - 1)
    } else {
        listing_order_upto(order, registry, n - 1).push(builtin_name(n - 1))
    }
}

/// The mapping that a sequence of names with their records stands for. Of
/// two records under one name the later one counts.
pub open spec fn entries_registry(entries: Seq<(Seq<char>, ExtensionRecord)>) -> Map<
    Seq<char>,
    ExtensionRecord,
>
    decreases entries.len(),
{
    if entries.len() == 0 {
        Map::empty()
    } else {
        entries_registry(entries.drop_last()).insert(entries.last().0, entries.last().1)
    }
}

/// The listing order of the mapping that a sequence of names with their
/// records stands for: each name where it occurs first.
pub open spec fn entries_order(entries: Seq<(Seq<char>, ExtensionRecord)>) -> Seq<Seq<char>>
    decreases entries.len(),
{
    if entries.len() == 0 {
        Seq::empty()
    } else if entries_registry(entries.drop_last()).contains_key(entries.last().0) {
        entries_order(entries.drop_last())
    } else {
        entries_order(entries.drop_last()).push(entries.last().0)
    }
}

/// The values of a sequence of names with their records.
pub open spec fn entries_view(v: Seq<(String, ExtensionConfig)>) -> Seq<(Seq<char>, ExtensionRecord)> {
    Seq::new(v.len(), |i: int| (v[i].0@, v[i].1@))
}

/// The listing order of the registry that is loaded from a persisted
/// document.
pub open spec fn loaded_order(document: Option<Seq<(Seq<char>, ExtensionRecord)>>) -> Seq<Seq<char>> {
    match document {
        Some(entries) => entries_order(entries),
        None => Seq::empty(),
    }
}

/// The registry that is loaded from a persisted document: the entries of the
/// document, or nothing where the document is missing or cannot be read.
pub open spec fn loaded_registry(document: Option<Seq<(Seq<char>, ExtensionRecord)>>) -> Map<
    Seq<char>,
    ExtensionRecord,
> {
    match document {
        Some(entries) => entries_registry(entries),
        None => Map::empty(),
    }
}

/// The values of the entries read from a persisted document, if it could
/// be read.
pub open spec fn document_view(document: Option<Vec<(String, ExtensionConfig)>>) -> Option<
    Seq<(Seq<char>, ExtensionRecord)>,
> {
    match document {
        Some(entries) => Some(entries_view(entries@)),
        None => None,
    }
}

/// The entries that persist a registry: each name with its record, in
/// listing order.
pub open spec fn saved_entries(registry: Registry) -> Seq<(Seq<char>, ExtensionRecord)> {
    Seq::new(registry.keys().len(), |i: int| (registry.keys()[i], registry@[registry.keys()[i]]))
}

/// The names that are always listed are distinct.
pub proof fn builtin_names_distinct(i: int)
    requires
        0 <= i < BUILTIN_COUNT,
    ensures
        builtin_index(builtin_name(i)) == Some(i),
{
    reveal_strlit("pactflow-ai");
    reveal_strlit("pact-broker-legacy");
    reveal_strlit("pactflow-legacy");
    reveal_strlit("message-legacy");
    reveal_strlit("mock-legacy");
    reveal_strlit("verifier-legacy");
    reveal_strlit("stub-legacy");
    assert("pactflow-ai"@.len() == 11 && "pactflow-ai"@[0] == 'p');
    assert("pact-broker-legacy"@.len() == 18);
    assert("pactflow-legacy"@.len() == 15 && "pactflow-legacy"@[0] == 'p');
    assert("message-legacy"@.len() == 14);
    assert("mock-legacy"@.len() == 11 && "mock-legacy"@[0] == 'm');
    assert("verifier-legacy"@.len() == 15 && "verifier-legacy"@[0] == 'v');
    assert("stub-legacy"@.len() == 11 && "stub-legacy"@[0] == 's');
}

/// The name at position `i` of the names that are always listed.
pub fn builtin_name_at(i: usize) -> (r: &'static str)
    requires
        i < BUILTIN_COUNT,
    ensures
        r@ == builtin_name(i as int),
{
    if i == 0 {
        "pactflow-ai"
    } else {
        legacy_target_at(i - 1)
    }
}

/// The file name of tool `i` inside the legacy bundle.
pub fn legacy_source_at(i: usize) -> (r: &'static str)
    requires
        i < LEGACY_TOOL_COUNT,
    ensures
        r@ == legacy_source(i as int),
{
    if i == 0 {
        "pact-broker"
    } else if i == 1 {
        "pactflow"
    } else if i == 2 {
        "pact-message"
    } else if i == 3 {
        "pact-mock-service"
    } else if i == 4 {
        "pact-provider-verifier"
    } else {
        "pact-stub-service"
    }
}

/// The command name under which tool `i` of the legacy bundle is exposed.
pub fn legacy_target_at(i: usize) -> (r: &'static str)
    requires
        i < LEGACY_TOOL_COUNT,
    ensures
        r@ == legacy_target(i as int),
{
    if i == 0 {
        "pact-broker-legacy"
    } else if i == 1 {
        "pactflow-legacy"
    } else if i == 2 {
        "message-legacy"
    } else if i == 3 {
        "mock-legacy"
    } else if i == 4 {
        "verifier-legacy"
    } else {
        "stub-legacy"
    }
}

/// Whether `c` separates the parts of a path on the system `os`: the
/// slash, and on Windows the backslash too.
pub open spec fn is_separator(os: Seq<char>, c: char) -> bool {
    c == '/' || (os == "windows"@ && c == '\\')
}

/// Where the extensions of a user live unless another place is given: the
/// path `.pact/extensions` joined to the user's home directory `home` as
/// the system `os` joins paths. A separator goes between the two unless
/// `home` ends with one: the backslash on Windows, the slash elsewhere.
/// Where the home directory is not known, `home` is empty and the place is
/// relative.
pub open spec fn default_home_of(home: Seq<char>, os: Seq<char>) -> Seq<char> {
    if home.len() == 0 {
        ".pact/extensions"@
    } else if is_separator(os, home.last()) {
        home + ".pact/extensions"@
    } else if os == "windows"@ {
        home + "\\.pact/extensions"@
    } else {
        home + "/.pact/extensions"@
    }
}

/// Where the extensions of a user live unless another place is given.
pub fn default_home(home: &str, os: &str) -> (r: String)
    ensures
        r@ == default_home_of(home@, os@),
{
    let n = home.unicode_len();
    let windows = str_eq(os, "windows");
    if n == 0 {
        return ".pact/extensions".to_owned();
    }
    let last = home.get_char(n - 1);
    if last == '/' || (windows && last == '\\') {
        join2(home, ".pact/extensions")
    } else if windows {
        join2(home, "\\.pact/extensions")
    } else {
        join2(home, "/.pact/extensions")
    }
}

impl ExtensionManager {
    /// The manager for the user whose home directory is `home`, on the
    /// platform that the host reports as `os` and `arch`. Extensions live in
    /// `home_override` where one is given, else in the user's default home
    /// for extensions.
    pub fn new(home: &str, home_override: Option<String>, os: &str, arch: &str) -> (r: Self)
        ensures
            r.extensions_home@ == (match home_override {
                Some(given) => given@,
                None => default_home_of(home@, canonical_os(os@)),
            }),
            r.platform.os@ == canonical_os(os@),
            r.platform.arch@ == arch@,
    {
        let platform = PlatformInfo::detect(os, arch);
        let extensions_home = match home_override {
            Some(given) => given,
            None => default_home(home, platform.os.as_str()),
        };
        ExtensionManager { extensions_home, platform }
    }

    /// The action that makes sure the home directory exists.
    pub fn ensure_extensions_dir(&self) -> (r: Action)
        ensures
            r@ == (crate::effect::ActionView::CreateDir { path: self.extensions_home@ }),
    {
        Action::CreateDir { path: self.extensions_home.clone() }
    }

    /// The path of the document that persists the registry.
    pub fn get_extension_config_path(&self) -> (r: String)
        ensures
            r@ == config_path(self.extensions_home@),
    {
        join2(self.extensions_home.as_str(), "/config.json")
    }

    /// The directory of the commands that can be invoked.
    pub fn bin_dir(&self) -> (r: String)
        ensures
            r@ == bin_dir(self.extensions_home@),
    {
        join2(self.extensions_home.as_str(), "/bin")
    }

    /// The directory the legacy bundle is extracted into.
    pub fn extract_dir(&self) -> (r: String)
        ensures
            r@ == extract_dir(self.extensions_home@),
    {
        join2(self.extensions_home.as_str(), "/pact-legacy")
    }

    /// Where the command `name` lives.
    pub fn tool_path(&self, name: &str) -> (r: String)
        ensures
            r@ == tool_path(self.extensions_home@, self.platform.os@, name@),
    {
        let mut path = join3(self.extensions_home.as_str(), "/bin/", name);
        path.append(self.platform.get_executable_extension());
        path
    }

    /// Where the tool with file name `source` lies inside the extracted
    /// bundle.
    pub fn source_path(&self, source: &str) -> (r: String)
        ensures
            r@ == source_path(self.extensions_home@, self.platform.os@, source@),
    {
        let mut path = join3(self.extensions_home.as_str(), "/pact-legacy/bin/", source);
        path.append(self.platform.get_executable_extension());
        path
    }

    /// Where the downloaded archive of the legacy bundle is kept until it is
    /// extracted.
    pub fn archive_path(&self) -> (r: String)
        ensures
            r@ == archive_path(self.extensions_home@, self.platform.os@),
    {
        join3(
            self.extensions_home.as_str(),
            "/pact-legacy.",
            self.platform.get_archive_extension(),
        )
    }

    /// The registry held by a persisted document. `document` is the entries
    /// read from it, or `None` where the document is missing or cannot be
    /// read: that is the empty registry, not a failure.
    pub fn load_config(&self, document: Option<Vec<(String, ExtensionConfig)>>) -> (r: Registry)
        ensures
            r@ == loaded_registry(document_view(document)),
            r.keys() == loaded_order(document_view(document)),
    {
        let mut registry = Registry::new();
        match document {
            None => {},
            Some(entries) => {
                let ghost all = entries_view(entries@);
                let mut entries = entries;
                let n = entries.len();
                let mut rest: Vec<(String, ExtensionConfig)> = Vec::new();
                // Take the entries from the back, so that each can be moved out.
                while entries.len() > 0
                    invariant
                        entries@.len() + rest@.len() == n,
                        all.len() == n,
                        forall|i: int| 0 <= i < entries@.len() ==> entries_view(entries@)[i] == all[i],
                        forall|i: int|
                            0 <= i < rest@.len() ==> entries_view(rest@)[i] == all[n - 1 - i],
                    decreases entries@.len(),
                {
                    let ghost before = entries@;
                    let e = entries.pop().unwrap();
                    proof {
                        assert(entries_view(before)[before.len() - 1] == all[before.len() - 1]);
                        assert forall|i: int| 0 <= i < entries@.len() implies entries_view(
                            entries@,
                        )[i] == all[i] by {
                            assert(entries_view(before)[i] == all[i]);
                        }
                    }
                    let ghost rest_before = rest@;
                    rest.push(e);
                    proof {
                        assert forall|i: int| 0 <= i < rest@.len() implies entries_view(rest@)[i]
                            == all[n - 1 - i] by {
                            if i < rest_before.len() {
                                assert(entries_view(rest_before)[i] == all[n - 1 - i]);
                            }
                        }
                    }
                }
                while rest.len() > 0
                    invariant
                        rest@.len() <= n,
                        all.len() == n,
                        forall|i: int|
                            0 <= i < rest@.len() ==> entries_view(rest@)[i] == all[n - 1 - i],
                        registry@ == entries_registry(all.subrange(0, n - rest@.len())),
                        registry.keys() == entries_order(all.subrange(0, n - rest@.len())),
                    decreases rest@.len(),
                {
                    let ghost before = rest@;
                    let e = rest.pop().unwrap();
                    let ghost k = n - before.len();
                    proof {
                        assert(entries_view(before)[before.len() - 1] == all[k]);
                        assert forall|i: int| 0 <= i < rest@.len() implies entries_view(rest@)[i]
                            == all[n - 1 - i] by {
                            assert(entries_view(before)[i] == all[n - 1 - i]);
                        }
                        let next = all.subrange(0, k + 1);
                        assert(next.drop_last() == all.subrange(0, k));
                        assert(next.last() == all[k]);
                    }
                    registry.insert(e.0, e.1);
                }
                proof {
                    assert(all.subrange(0, n as int) == all);
                }
            },
        }
        registry
    }

    /// The entries that persist `config`: each name with its record, in
    /// listing order.
    pub fn save_config(&self, config: &Registry) -> (r: Vec<(String, ExtensionConfig)>)
        ensures
            entries_view(r@) == saved_entries(*config),
    {
        let mut entries: Vec<(String, ExtensionConfig)> = Vec::new();
        let n = config.len();
        let mut i: usize = 0;
        while i < n
            invariant
                n == config.keys().len(),
                i <= n,
                entries@.len() == i,
                forall|j: int|
                    0 <= j < i ==> entries_view(entries@)[j] == (
                        config.keys()[j],
                        config@[config.keys()[j]],
                    ),
            decreases n - i,
        {
            let ghost before = entries@;
            entries.push((config.key_at(i).clone(), config.config_at(i).clone()));
            proof {
                assert forall|j: int| 0 <= j < i + 1 implies entries_view(entries@)[j] == (
                    config.keys()[j],
                    config@[config.keys()[j]],
                ) by {
                    if j < i {
                        assert(entries_view(before)[j] == (
                            config.keys()[j],
                            config@[config.keys()[j]],
                        ));
                    }
                }
            }
            i += 1;
        }
        assert(entries_view(entries@) =~= saved_entries(*config));
        entries
    }

    /// What is listed: `config` merged with the names that are always
    /// listed. A name that `config` lacks is listed as installed if its
    /// command is among the paths that exist.
    pub fn list_extensions(&self, config: Registry, present: &PathSet) -> (r: Registry)
        ensures
            r@ == listing(self.extensions_home@, self.platform.os@, config@, present@),
            r.keys() == listing_order_upto(config.keys(), config@, BUILTIN_COUNT as int),
    {
        let ghost home = self.extensions_home@;
        let ghost os = self.platform.os@;
        let ghost initial = config@;
        let ghost order = config.keys();
        let mut config = config;
        proof {
            assert(config@ =~= listing_upto(home, os, initial, present@, 0));
        }
        let mut i: usize = 0;
        while i < BUILTIN_COUNT
            invariant
                i <= BUILTIN_COUNT,
                home == self.extensions_home@,
                os == self.platform.os@,
                config@ == listing_upto(home, os, initial, present@, i as int),
                config.keys() == listing_order_upto(order, initial, i as int),
            decreases BUILTIN_COUNT - i,
        {
            let name = builtin_name_at(i);
            proof {
                builtin_names_distinct(i as int);
            }
            if !config.contains_key(name) {
                let binary_path = self.tool_path(name);
                let installed = present.contains(binary_path.as_str());
                let extension_type = if i == 0 {
                    ExtensionType::PactflowAi
                } else {
                    ExtensionType::PactRubyStandalone
                };
                config.insert(
                    name.to_owned(),
                    ExtensionConfig {
                        name: name.to_owned(),
                        version: "latest".to_owned(),
                        binary_path,
                        extension_type,
                        installed,
                    },
                );
            }
            proof {
                assert(config@ =~= listing_upto(home, os, initial, present@, i + 1));
            }
            i += 1;
        }
        config
    }
}

/// Saving a registry and loading what was saved gives the same mapping.
pub proof fn saved_registry_loads_back(registry: Registry)
    requires
        registry.wf(),
    ensures
        loaded_registry(Some(saved_entries(registry))) == registry@,
{
    registry.keys_list_domain();
    let entries = saved_entries(registry);
    let loaded = entries_registry(entries);
    let keys = registry.keys();
    assert forall|k: Seq<char>| loaded.contains_key(k) == registry@.contains_key(k) by {
        lemma_entries_registry(entries, k);
        if loaded.contains_key(k) {
            let i = choose|i: int| name_at(entries, i, k);
            assert(keys[i] == k);
        }
        if keys.contains(k) {
            let i = choose|i: int| 0 <= i < keys.len() && keys[i] == k;
            assert(name_at(entries, i, k));
        }
    }
    assert forall|k: Seq<char>| loaded.contains_key(k) implies loaded[k] == registry@[k] by {
        lemma_entries_registry(entries, k);
        let i = choose|i: int| entry_at(entries, i, k, loaded[k]);
        assert(keys[i] == k);
        assert(entries[i].1 == registry@[keys[i]]);
    }
    assert(loaded =~= registry@);
}

/// Whether the entry at position `i` has the name `k`.
spec fn name_at(entries: Seq<(Seq<char>, ExtensionRecord)>, i: int, k: Seq<char>) -> bool {
    0 <= i < entries.len() && entries[i].0 == k
}

/// Whether the entry at position `i` has the name `k` and the record `v`.
spec fn entry_at(
    entries: Seq<(Seq<char>, ExtensionRecord)>,
    i: int,
    k: Seq<char>,
    v: ExtensionRecord,
) -> bool {
    name_at(entries, i, k) && entries[i].1 == v
}

/// The mapping of a sequence of entries holds the name `k` if and only if
/// an entry has that name, and then with the record of such an entry.
#[verifier::spinoff_prover]
proof fn lemma_entries_registry(entries: Seq<(Seq<char>, ExtensionRecord)>, k: Seq<char>)
    ensures
        entries_registry(entries).contains_key(k) <==> exists|i: int| name_at(entries, i, k),
        entries_registry(entries).contains_key(k) ==> exists|i: int|
            entry_at(entries, i, k, entries_registry(entries)[k]),
    decreases entries.len(),
{
    let mapping = entries_registry(entries);
    if entries.len() == 0 {
        assert(!mapping.contains_key(k));
        assert forall|i: int| !name_at(entries, i, k) by {}
    } else {
        let front = entries.drop_last();
        let last = entries.last();
        let before = entries_registry(front);
        lemma_entries_registry(front, k);
        assert(mapping == before.insert(last.0, last.1));
        let end = entries.len() - 1;
        assert(entries[end] == last);
        if k == last.0 {
            assert(name_at(entries, end, k));
            assert(entry_at(entries, end, k, mapping[k]));
        } else {
            assert(mapping.contains_key(k) == before.contains_key(k));
            if before.contains_key(k) {
                let i = choose|i: int| entry_at(front, i, k, before[k]);
                assert(front[i] == entries[i]);
                assert(mapping[k] == before[k]);
                assert(name_at(entries, i, k));
                assert(entry_at(entries, i, k, mapping[k]));
            }
            if exists|i: int| name_at(entries, i, k) {
                let i = choose|i: int| name_at(entries, i, k);
                assert(i != end);
                assert(front[i] == entries[i]);
                assert(name_at(front, i, k));
            }
        }
    }
}

} // verus!
