//! What holds of the lifecycle operations as a whole.

use crate::effect::{ActionView, EventView};
use crate::error::ErrorView;
use crate::install::{
    bridge_aliases, bridge_records, derived_record, event_tag, master_record, pactflow_ai_record,
    pactflow_ai_step, ruby_legacy_step, tool_alias, with_records, InstallStateView,
};
use crate::manager::{
    builtin_name, builtin_names_distinct, extract_dir, legacy_source, legacy_target, listing,
    master_name, source_path, tool_path, LEGACY_TOOL_COUNT,
};
use crate::platform::supported_pair;
use crate::registry::{ExtensionRecord, ExtensionType};
use crate::uninstall::{
    bundle_paths, claimed, existing, further_paths, is_derived, is_tool_name, known_aliases,
    lies_in_bundle, order_without_bundle, record_paths, uninstall_step, without_bundle,
    UninstallStateView,
};
use vstd::prelude::*;

verus! {

/// The state that an installation of the single-binary family is in after
/// the events, counted from the start.
pub open spec fn pactflow_ai_state(
    home: Seq<char>,
    os: Seq<char>,
    arch: Seq<char>,
    version: Option<Seq<char>>,
    events: Seq<EventView>,
) -> InstallStateView
    decreases events.len(),
{
    if events.len() == 0 {
        InstallStateView::Idle
    } else {
        pactflow_ai_step(
            home,
            os,
            arch,
            version,
            pactflow_ai_state(home, os, arch, version, events.drop_last()),
            events.last(),
        ).0
    }
}

/// The action that an installation of the single-binary family asks for in
/// answer to the last of the events, counted from the start.
pub open spec fn pactflow_ai_action(
    home: Seq<char>,
    os: Seq<char>,
    arch: Seq<char>,
    version: Option<Seq<char>>,
    events: Seq<EventView>,
) -> ActionView
    recommends
        events.len() > 0,
{
    pactflow_ai_step(
        home,
        os,
        arch,
        version,
        pactflow_ai_state(home, os, arch, version, events.drop_last()),
        events.last(),
    ).1
}

/// The state that an installation of the legacy bundle is in after the
/// events, counted from the start.
pub open spec fn ruby_legacy_state(
    home: Seq<char>,
    os: Seq<char>,
    arch: Seq<char>,
    version: Option<Seq<char>>,
    events: Seq<EventView>,
) -> InstallStateView
    decreases events.len(),
{
    if events.len() == 0 {
        InstallStateView::Idle
    } else {
        ruby_legacy_step(
            home,
            os,
            arch,
            version,
            ruby_legacy_state(home, os, arch, version, events.drop_last()),
            events.last(),
            event_tag(events.last()),
        ).0
    }
}

/// The action that an installation of the legacy bundle asks for in answer
/// to the last of the events, counted from the start.
pub open spec fn ruby_legacy_action(
    home: Seq<char>,
    os: Seq<char>,
    arch: Seq<char>,
    version: Option<Seq<char>>,
    events: Seq<EventView>,
) -> ActionView
    recommends
        events.len() > 0,
{
    ruby_legacy_step(
        home,
        os,
        arch,
        version,
        ruby_legacy_state(home, os, arch, version, events.drop_last()),
        events.last(),
        event_tag(events.last()),
    ).1
}

/// On a platform outside the supported matrix an installation of the
/// single-binary family asks for nothing, whatever it is told: it answers
/// the start with the failure that names the platform, and every event with
/// a failure. No request is made and nothing is written.
pub proof fn unsupported_platform_stops_pactflow_ai(
    home: Seq<char>,
    os: Seq<char>,
    arch: Seq<char>,
    version: Option<Seq<char>>,
    events: Seq<EventView>,
)
    requires
        !supported_pair(os, arch),
        events.len() > 0,
    ensures
        pactflow_ai_action(home, os, arch, version, events) is Fail,
        pactflow_ai_state(home, os, arch, version, events) is Failed,
        events == seq![EventView::Begin] ==> pactflow_ai_action(home, os, arch, version, events) == (
        ActionView::Fail { error: ErrorView::UnsupportedPlatform { os, arch } }),
    decreases events.len(),
{
    let before = events.drop_last();
    if before.len() > 0 {
        unsupported_platform_stops_pactflow_ai(home, os, arch, version, before);
    }
    if events == seq![EventView::Begin] {
        assert(events.last() == EventView::Begin);
        assert(before.len() == 0);
    }
}

/// On a platform outside the supported matrix an installation of the legacy
/// bundle asks for nothing, whatever it is told: it answers the start with
/// the failure that names the platform, and every event with a failure.
pub proof fn unsupported_platform_stops_ruby_legacy(
    home: Seq<char>,
    os: Seq<char>,
    arch: Seq<char>,
    version: Option<Seq<char>>,
    events: Seq<EventView>,
)
    requires
        !supported_pair(os, arch),
        events.len() > 0,
    ensures
        ruby_legacy_action(home, os, arch, version, events) is Fail,
        ruby_legacy_state(home, os, arch, version, events) is Failed,
        events == seq![EventView::Begin] ==> ruby_legacy_action(home, os, arch, version, events) == (
        ActionView::Fail { error: ErrorView::UnsupportedPlatform { os, arch } }),
    decreases events.len(),
{
    let before = events.drop_last();
    if before.len() > 0 {
        unsupported_platform_stops_ruby_legacy(home, os, arch, version, before);
    }
    if events == seq![EventView::Begin] {
        assert(events.last() == EventView::Begin);
        assert(before.len() == 0);
    }
}

/// The registry is touched last. An installation forms the records only
/// once the artifact is on disk: once the binary is stored, or once the
/// aliases of the bundle are created and the archive is removed. It asks for
/// the registry to be persisted only with those records, in answer to the
/// registry it has read, and after that it only ends: with success, or with
/// the failure to persist. So an installation that fails at any other step
/// has not asked for the registry to be changed.
pub proof fn registry_is_updated_last(
    home: Seq<char>,
    os: Seq<char>,
    arch: Seq<char>,
    version: Option<Seq<char>>,
    state: InstallStateView,
    event: EventView,
)
    ensures
        ({
            let step = pactflow_ai_step(home, os, arch, version, state, event);
            &&& step.1 is SaveRegistry ==> state is Loading && event is Loaded && step.0 is Saving
            &&& step.0 is Saving ==> step.1 is SaveRegistry
            &&& state is Saving ==> step.1 is Finish || step.1 is Fail
            &&& step.0 is Loading ==> state is Storing && event is Done
        }),
        ({
            let step = ruby_legacy_step(home, os, arch, version, state, event, event_tag(event));
            &&& step.1 is SaveRegistry ==> state is Loading && event is Loaded && step.0 is Saving
            &&& step.0 is Saving ==> step.1 is SaveRegistry
            &&& state is Saving ==> step.1 is Finish || step.1 is Fail
            &&& step.0 is Loading ==> state is Cleaning && event is Done
            &&& step.0 is Cleaning ==> state is Linking && event is Done
            &&& step.0 is Linking ==> state is Surveying && event is Present
        }),
{
}

/// The master record owns the tools: the record of each tool points into
/// the extraction directory, which is the path of the master record, at
/// the file that the tool's alias stands for.
pub proof fn bundle_owns_its_tools(
    home: Seq<char>,
    os: Seq<char>,
    version: Seq<char>,
    present: Set<Seq<char>>,
    i: int,
)
    ensures
        master_record(home, version, present).binary_path == extract_dir(home),
        crate::text::has_prefix(
            derived_record(home, os, version, i).binary_path,
            master_record(home, version, present).binary_path + "/"@,
        ),
        tool_alias(home, os, i).source == derived_record(home, os, version, i).binary_path,
        derived_record(home, os, version, i).version == version,
        derived_record(home, os, version, i).extension_type == ExtensionType::PactRubyStandalone,
{
    reveal_strlit("/pact-legacy/bin/");
    reveal_strlit("/pact-legacy");
    reveal_strlit("/");
    let source = source_path(home, os, legacy_source(i));
    let prefix = extract_dir(home) + "/"@;
    assert("/pact-legacy/bin/"@.len() == 17);
    assert("/pact-legacy"@.len() == 12);
    assert("/"@.len() == 1);
    assert(prefix.len() == home.len() + 13);
    assert(source.subrange(0, prefix.len() as int) =~= prefix);
}

/// Whether some record of `records` has the name `name`.
pub open spec fn names(records: Seq<ExtensionRecord>, name: Seq<char>) -> bool {
    exists|j: int| 0 <= j < records.len() && #[trigger] records[j].name == name
}

proof fn lemma_with_records_insert(
    registry: Map<Seq<char>, ExtensionRecord>,
    records: Seq<ExtensionRecord>,
    name: Seq<char>,
    record: ExtensionRecord,
)
    ensures
        with_records(registry.insert(name, record), records) == if names(records, name) {
            with_records(registry, records)
        } else {
            with_records(registry, records).insert(name, record)
        },
    decreases records.len(),
{
    if records.len() == 0 {
    } else {
        let front = records.drop_last();
        let last = records.last();
        lemma_with_records_insert(registry, front, name, record);
        assert(records[records.len() - 1].name == last.name);
        if names(front, name) {
            let j = choose|j: int| 0 <= j < front.len() && #[trigger] front[j].name == name;
            assert(records[j].name == name);
        }
        if names(records, name) {
            let j = choose|j: int| 0 <= j < records.len() && #[trigger] records[j].name == name;
            if j < front.len() {
                assert(front[j].name == name);
            }
        }
        let a = with_records(registry.insert(name, record), records);
        let b = with_records(registry, records);
        if names(records, name) {
            assert(a =~= b);
        } else {
            assert(a =~= b.insert(name, record));
        }
    }
}

/// Registering the same records a second time changes nothing: installing
/// twice leaves one record under each name, the one of the last
/// installation.
pub proof fn registering_twice_is_registering_once(
    registry: Map<Seq<char>, ExtensionRecord>,
    records: Seq<ExtensionRecord>,
)
    ensures
        with_records(with_records(registry, records), records) == with_records(registry, records),
    decreases records.len(),
{
    if records.len() > 0 {
        let front = records.drop_last();
        let last = records.last();
        registering_twice_is_registering_once(registry, front);
        let once = with_records(registry, front);
        lemma_with_records_insert(once, front, last.name, last);
        assert(with_records(with_records(registry, records), records) =~= with_records(
            registry,
            records,
        ));
    }
}

/// The registry that an installation of the single-binary family persists
/// holds the new record under the family's name and every other record as
/// it was; installing the same version again persists the same registry.
pub proof fn installing_pactflow_ai_twice(
    home: Seq<char>,
    os: Seq<char>,
    version: Seq<char>,
    registry: Map<Seq<char>, ExtensionRecord>,
)
    ensures
        ({
            let record = pactflow_ai_record(home, os, version);
            let once = with_records(registry, seq![record]);
            &&& once == registry.insert("pactflow-ai"@, record)
            &&& once["pactflow-ai"@].version == version
            &&& once["pactflow-ai"@].installed
            &&& with_records(once, seq![record]) == once
        }),
{
    let record = pactflow_ai_record(home, os, version);
    let records = seq![record];
    assert(records.drop_last() =~= Seq::<ExtensionRecord>::empty());
    assert(records.last() == record);
    assert(with_records(registry, records.drop_last()) == registry);
    registering_twice_is_registering_once(registry, records);
}

proof fn lemma_with_records_names(
    registry: Map<Seq<char>, ExtensionRecord>,
    records: Seq<ExtensionRecord>,
    name: Seq<char>,
)
    ensures
        with_records(registry, records).contains_key(name) <==> registry.contains_key(name) || names(
            records,
            name,
        ),
        !names(records, name) && registry.contains_key(name) ==> with_records(registry, records)[name]
            == registry[name],
        names(records, name) ==> exists|j: int|
            0 <= j < records.len() && #[trigger] records[j].name == name && with_records(
                registry,
                records,
            )[name] == records[j],
    decreases records.len(),
{
    if records.len() > 0 {
        let front = records.drop_last();
        lemma_with_records_names(registry, front, name);
        if names(records, name) {
            if records.last().name == name {
                let j = records.len() - 1;
                assert(records[j].name == name && with_records(registry, records)[name] == records[j]);
            } else {
                let t = choose|t: int| 0 <= t < records.len() && #[trigger] records[t].name == name;
                assert(front[t].name == name);
                let j = choose|j: int|
                    0 <= j < front.len() && #[trigger] front[j].name == name && with_records(
                        registry,
                        front,
                    )[name] == front[j];
                assert(records[j].name == name && with_records(registry, records)[name] == records[j]);
            }
        }
        assert(records[records.len() - 1].name == records.last().name);
        if names(front, name) {
            let j = choose|j: int| 0 <= j < front.len() && #[trigger] front[j].name == name;
            assert(records[j].name == name);
        }
        if names(records, name) {
            let j = choose|j: int| 0 <= j < records.len() && #[trigger] records[j].name == name;
            if j < front.len() {
                assert(front[j].name == name);
            }
        }
    }
}

/// The names of the tools of the legacy bundle differ from each other and
/// from the master name.
pub proof fn legacy_names_distinct(i: int, j: int)
    requires
        0 <= i < LEGACY_TOOL_COUNT,
        0 <= j < LEGACY_TOOL_COUNT,
    ensures
        legacy_target(i) != master_name(),
        i != j ==> legacy_target(i) != legacy_target(j),
{
    builtin_names_distinct(i + 1);
    builtin_names_distinct(j + 1);
    reveal_strlit("pact-legacy");
    reveal_strlit("pact-broker-legacy");
    reveal_strlit("pactflow-legacy");
    reveal_strlit("message-legacy");
    reveal_strlit("mock-legacy");
    reveal_strlit("verifier-legacy");
    reveal_strlit("stub-legacy");
    assert("pact-legacy"@.len() == 11 && "pact-legacy"@[0] == 'p');
    assert("pact-broker-legacy"@.len() == 18);
    assert("pactflow-legacy"@.len() == 15);
    assert("message-legacy"@.len() == 14);
    assert("mock-legacy"@.len() == 11 && "mock-legacy"@[0] == 'm');
    assert("verifier-legacy"@.len() == 15);
    assert("stub-legacy"@.len() == 11 && "stub-legacy"@[0] == 's');
}

proof fn lemma_bridge_names(
    home: Seq<char>,
    os: Seq<char>,
    version: Seq<char>,
    present: Set<Seq<char>>,
    n: int,
    name: Seq<char>,
)
    requires
        0 <= n <= LEGACY_TOOL_COUNT,
    ensures
        names(bridge_records(home, os, version, present, n), name) <==> name == master_name() || exists|
            i: int,
        |
            0 <= i < n && name == #[trigger] legacy_target(i) && present.contains(
                source_path(home, os, legacy_source(i)),
            ),
    decreases n,
{
    let records = bridge_records(home, os, version, present, n);
    if n == 0 {
        assert(records[0].name == master_name());
        if names(records, name) {
            let j = choose|j: int| 0 <= j < records.len() && #[trigger] records[j].name == name;
            assert(j == 0);
        }
    } else {
        let front = bridge_records(home, os, version, present, n - 1);
        lemma_bridge_names(home, os, version, present, n - 1, name);
        let found = present.contains(source_path(home, os, legacy_source(n - 1)));
        if found {
            assert(records == front.push(derived_record(home, os, version, n - 1)));
            assert(records[records.len() - 1].name == legacy_target(n - 1));
        }
        if names(front, name) {
            let j = choose|j: int| 0 <= j < front.len() && #[trigger] front[j].name == name;
            assert(records[j].name == name);
        }
        if names(records, name) {
            let j = choose|j: int| 0 <= j < records.len() && #[trigger] records[j].name == name;
            if j < front.len() {
                assert(front[j].name == name);
            } else {
                assert(name == legacy_target(n - 1));
            }
        }
        if exists|i: int|
            0 <= i < n && name == #[trigger] legacy_target(i) && present.contains(
                source_path(home, os, legacy_source(i)),
            ) {
            let i = choose|i: int|
                0 <= i < n && name == #[trigger] legacy_target(i) && present.contains(
                    source_path(home, os, legacy_source(i)),
                );
            if i == n - 1 {
                assert(names(records, name));
            } else {
                assert(0 <= i < n - 1 && name == legacy_target(i));
            }
        }
    }
}

/// The number of the first `n` tools of the legacy bundle whose file exists
/// in the extracted bundle.
pub open spec fn found_tools(home: Seq<char>, os: Seq<char>, present: Set<Seq<char>>, n: int) -> int
    decreases n,
{
    if n <= 0 {
        0
    } else if present.contains(source_path(home, os, legacy_source(n - 1))) {
        found_tools(home, os, present, n - 1) + 1
    } else {
        found_tools(home, os, present, n - 1)
    }
}

proof fn lemma_bridge_count(
    home: Seq<char>,
    os: Seq<char>,
    version: Seq<char>,
    present: Set<Seq<char>>,
    n: int,
)
    requires
        0 <= n,
    ensures
        bridge_records(home, os, version, present, n).len() == 1 + found_tools(home, os, present, n),
    decreases n,
{
    if n > 0 {
        lemma_bridge_count(home, os, version, present, n - 1);
    }
}

/// The bridge registers the tools that the extracted bundle holds, and no
/// others: one master record, and one record for each tool whose file
/// exists. After the installation the registry has a record under the name
/// of a tool if and only if the bundle held the tool or the registry had
/// such a record before; a tool that the bundle lacks is not registered as
/// not installed, it is not registered at all.
pub proof fn bridge_registers_found_tools(
    home: Seq<char>,
    os: Seq<char>,
    version: Seq<char>,
    present: Set<Seq<char>>,
    registry: Map<Seq<char>, ExtensionRecord>,
    i: int,
)
    requires
        0 <= i < LEGACY_TOOL_COUNT,
    ensures
        ({
            let records = bridge_records(home, os, version, present, LEGACY_TOOL_COUNT as int);
            let after = with_records(registry, records);
            &&& records.len() == 1 + found_tools(home, os, present, LEGACY_TOOL_COUNT as int)
            &&& after.contains_key(master_name())
            &&& after.contains_key(legacy_target(i)) <==> registry.contains_key(legacy_target(i))
                || present.contains(source_path(home, os, legacy_source(i)))
            &&& forall|k: Seq<char>|
                after.contains_key(k) && !registry.contains_key(k) ==> k == master_name() || exists|
                    t: int,
                |
                    0 <= t < LEGACY_TOOL_COUNT && k == #[trigger] legacy_target(t) && present.contains(
                        source_path(home, os, legacy_source(t)),
                    )
        }),
{
    let n = LEGACY_TOOL_COUNT as int;
    let records = bridge_records(home, os, version, present, n);
    let after = with_records(registry, records);
    lemma_bridge_count(home, os, version, present, n);
    lemma_with_records_names(registry, records, master_name());
    lemma_bridge_names(home, os, version, present, n, master_name());
    lemma_with_records_names(registry, records, legacy_target(i));
    lemma_bridge_names(home, os, version, present, n, legacy_target(i));
    legacy_names_distinct(i, i);
    if names(records, legacy_target(i)) {
        let t = choose|t: int|
            0 <= t < n && legacy_target(i) == #[trigger] legacy_target(t) && present.contains(
                source_path(home, os, legacy_source(t)),
            );
        legacy_names_distinct(i, t);
    }
    assert forall|k: Seq<char>| after.contains_key(k) && !registry.contains_key(k) implies k
        == master_name() || exists|t: int|
        0 <= t < LEGACY_TOOL_COUNT && k == #[trigger] legacy_target(t) && present.contains(
            source_path(home, os, legacy_source(t)),
        ) by {
        lemma_with_records_names(registry, records, k);
        lemma_bridge_names(home, os, version, present, n, k);
    }
}

/// No alias lies where the extracted bundle lies: the path of a command
/// differs from the path of every tool inside the bundle and from the
/// extraction directory.
pub proof fn aliases_lie_outside_the_bundle(home: Seq<char>, os: Seq<char>, i: int, j: int)
    ensures
        tool_path(home, os, legacy_target(j)) != source_path(home, os, legacy_source(i)),
        tool_path(home, os, legacy_target(j)) != extract_dir(home),
{
    reveal_strlit("/bin/");
    reveal_strlit("/pact-legacy/bin/");
    reveal_strlit("/pact-legacy");
    let at = home.len() as int + 1;
    let alias = tool_path(home, os, legacy_target(j));
    let source = source_path(home, os, legacy_source(i));
    assert("/bin/"@.len() == 5 && "/bin/"@[1] == 'b');
    assert("/pact-legacy/bin/"@.len() == 17 && "/pact-legacy/bin/"@[1] == 'p');
    assert("/pact-legacy"@.len() == 12 && "/pact-legacy"@[1] == 'p');
    assert(alias[at] == 'b');
    assert(source[at] == 'p');
    assert(extract_dir(home)[at] == 'p');
}

/// Aliases that exist already do not change what the bridge does: with the
/// aliases of an earlier installation on disk, the bridge asks for the same
/// aliases and registers the same records. Each alias is created anew in
/// place of the one that is there.
pub proof fn existing_aliases_do_not_change_the_bridge(
    home: Seq<char>,
    os: Seq<char>,
    version: Seq<char>,
    present: Set<Seq<char>>,
    aliases: Set<Seq<char>>,
    n: int,
)
    requires
        0 <= n <= LEGACY_TOOL_COUNT,
        forall|p: Seq<char>|
            aliases.contains(p) ==> exists|j: int|
                0 <= j < LEGACY_TOOL_COUNT && p == tool_path(home, os, #[trigger] legacy_target(j)),
    ensures
        bridge_aliases(home, os, present.union(aliases), n) == bridge_aliases(home, os, present, n),
        bridge_records(home, os, version, present.union(aliases), n) == bridge_records(
            home,
            os,
            version,
            present,
            n,
        ),
    decreases n,
{
    let both = present.union(aliases);
    assert forall|i: int| !aliases.contains(#[trigger] source_path(home, os, legacy_source(i))) by {
        let p = source_path(home, os, legacy_source(i));
        if aliases.contains(p) {
            let j = choose|j: int|
                0 <= j < LEGACY_TOOL_COUNT && p == tool_path(home, os, #[trigger] legacy_target(j));
            aliases_lie_outside_the_bundle(home, os, i, j);
        }
    }
    if aliases.contains(extract_dir(home)) {
        let j = choose|j: int|
            0 <= j < LEGACY_TOOL_COUNT && extract_dir(home) == tool_path(
                home,
                os,
                #[trigger] legacy_target(j),
            );
        aliases_lie_outside_the_bundle(home, os, 0, j);
    }
    if n > 0 {
        existing_aliases_do_not_change_the_bridge(home, os, version, present, aliases, n - 1);
        let p = source_path(home, os, legacy_source(n - 1));
        assert(both.contains(p) == present.contains(p));
    } else {
        assert(master_record(home, version, both) == master_record(home, version, present));
    }
}

proof fn lemma_bridge_types(
    home: Seq<char>,
    os: Seq<char>,
    version: Seq<char>,
    present: Set<Seq<char>>,
    n: int,
    j: int,
)
    requires
        0 <= n,
        0 <= j < bridge_records(home, os, version, present, n).len(),
    ensures
        bridge_records(home, os, version, present, n)[j].extension_type
            == ExtensionType::PactRubyStandalone,
    decreases n,
{
    if n > 0 {
        let front = bridge_records(home, os, version, present, n - 1);
        if j < front.len() {
            lemma_bridge_types(home, os, version, present, n - 1, j);
        }
    }
}

/// Removing undoes installing, as far as the registry goes: the registry
/// after the single-binary extension is installed and removed is the
/// registry without a record of it, and the registry after the legacy
/// bundle is installed and removed is the registry without the bundle.
///
/// The second is stated for a registry in which no record of another
/// family stands under the name of a tool of the bundle: the installation
/// replaces such a record, and the removal does not bring it back.
pub proof fn uninstalling_undoes_installing(
    home: Seq<char>,
    os: Seq<char>,
    version: Seq<char>,
    present: Set<Seq<char>>,
    registry: Map<Seq<char>, ExtensionRecord>,
)
    requires
        forall|i: int| 0 <= i < LEGACY_TOOL_COUNT ==> !claimed(registry, #[trigger] legacy_target(i)),
    ensures
        with_records(registry, seq![pactflow_ai_record(home, os, version)]).remove("pactflow-ai"@)
            == registry.remove("pactflow-ai"@),
        without_bundle(
            with_records(
                registry,
                bridge_records(home, os, version, present, LEGACY_TOOL_COUNT as int),
            ),
        ) == without_bundle(registry),
{
    installing_pactflow_ai_twice(home, os, version, registry);
    assert(registry.insert("pactflow-ai"@, pactflow_ai_record(home, os, version)).remove(
        "pactflow-ai"@,
    ) =~= registry.remove("pactflow-ai"@));
    let records = bridge_records(home, os, version, present, LEGACY_TOOL_COUNT as int);
    let after = with_records(registry, records);
    assert forall|k: Seq<char>| without_bundle(after).contains_key(k) == without_bundle(
        registry,
    ).contains_key(k) by {
        lemma_with_records_names(registry, records, k);
        if names(records, k) {
            let j = choose|j: int|
                0 <= j < records.len() && #[trigger] records[j].name == k && after[k] == records[j];
            lemma_bridge_types(home, os, version, present, LEGACY_TOOL_COUNT as int, j);
            lemma_bridge_names(home, os, version, present, LEGACY_TOOL_COUNT as int, k);
            if k != master_name() {
                let i = choose|i: int|
                    0 <= i < LEGACY_TOOL_COUNT && k == #[trigger] legacy_target(i)
                        && present.contains(source_path(home, os, legacy_source(i)));
                assert(!claimed(registry, legacy_target(i)));
                legacy_names_distinct(i, i);
            }
        }
    }
    assert forall|k: Seq<char>| without_bundle(after).contains_key(k) implies without_bundle(after)[k]
        == without_bundle(registry)[k] by {
        lemma_with_records_names(registry, records, k);
        if names(records, k) {
            let j = choose|j: int|
                0 <= j < records.len() && #[trigger] records[j].name == k && after[k] == records[j];
            lemma_bridge_types(home, os, version, present, LEGACY_TOOL_COUNT as int, j);
        }
    }
    assert(without_bundle(after) =~= without_bundle(registry));
}

/// What is on disk after the files and directories are removed: nothing
/// that was removed as a file, and nothing at or below a directory that was
/// removed.
pub open spec fn disk_after(
    present: Set<Seq<char>>,
    files: Seq<Seq<char>>,
    directories: Seq<Seq<char>>,
) -> Set<Seq<char>> {
    Set::new(
        |p: Seq<char>|
            present.contains(p) && !files.contains(p) && !exists|j: int|
                0 <= j < directories.len() && (p == directories[j] || crate::text::has_prefix(
                    p,
                    #[trigger] directories[j] + "/"@,
                )),
    )
}

proof fn lemma_existing(paths: Seq<Seq<char>>, present: Set<Seq<char>>, p: Seq<char>)
    ensures
        existing(paths, present).contains(p) <==> paths.contains(p) && present.contains(p),
    decreases paths.len(),
{
    if paths.len() > 0 {
        let front = paths.drop_last();
        lemma_existing(front, present, p);
        let found = existing(paths, present);
        let before = existing(front, present);
        if present.contains(paths.last()) {
            assert(found == before.push(paths.last()));
            assert(found[found.len() - 1] == paths.last());
            if before.contains(p) {
                let j = choose|j: int| 0 <= j < before.len() && before[j] == p;
                assert(found[j] == p);
            }
            if found.contains(p) {
                let j = choose|j: int| 0 <= j < found.len() && found[j] == p;
                if j < before.len() {
                    assert(before[j] == p);
                }
            }
        }
        if front.contains(p) {
            let j = choose|j: int| 0 <= j < front.len() && front[j] == p;
            assert(paths[j] == p);
        }
        if paths.contains(p) {
            let j = choose|j: int| 0 <= j < paths.len() && paths[j] == p;
            if j < front.len() {
                assert(front[j] == p);
            } else {
                assert(p == paths.last());
            }
        }
        assert(paths[paths.len() - 1] == paths.last());
    }
}

/// What goes with the bundle holds what goes with each record bridged out
/// of it that the listing order names.
proof fn lemma_further_paths(
    home: Seq<char>,
    os: Seq<char>,
    order: Seq<Seq<char>>,
    registry: Map<Seq<char>, ExtensionRecord>,
    name: Seq<char>,
    path: Seq<char>,
)
    requires
        order.contains(name),
        is_derived(registry, name),
        record_paths(home, os, name, registry[name]).contains(path),
    ensures
        further_paths(home, os, order, registry).contains(path),
    decreases order.len(),
{
    let paths = further_paths(home, os, order, registry);
    let front = order.drop_last();
    let before = further_paths(home, os, front, registry);
    if order.last() == name {
        let own = record_paths(home, os, name, registry[name]);
        let t = choose|t: int| 0 <= t < own.len() && own[t] == path;
        assert(paths == before + own);
        assert(paths[before.len() + t] == own[t]);
    } else {
        let j = choose|j: int| 0 <= j < order.len() && order[j] == name;
        assert(front[j] == name);
        lemma_further_paths(home, os, front, registry, name, path);
        let t = choose|t: int| 0 <= t < before.len() && before[t] == path;
        if is_derived(registry, order.last()) {
            let own = record_paths(home, os, order.last(), registry[order.last()]);
            assert(paths == before + own);
            assert(paths[t] == before[t]);
        }
    }
}

/// The aliases of the tools hold the alias of every tool under whose name
/// no record of another family stands.
proof fn lemma_known_aliases(
    home: Seq<char>,
    os: Seq<char>,
    registry: Map<Seq<char>, ExtensionRecord>,
    n: int,
    i: int,
)
    requires
        0 <= i < n,
        !claimed(registry, legacy_target(i)),
    ensures
        known_aliases(home, os, registry, n).contains(tool_path(home, os, legacy_target(i))),
    decreases n,
{
    let paths = known_aliases(home, os, registry, n);
    let before = known_aliases(home, os, registry, n - 1);
    if i == n - 1 {
        assert(paths == before.push(tool_path(home, os, legacy_target(i))));
        assert(paths[paths.len() - 1] == tool_path(home, os, legacy_target(i)));
    } else {
        lemma_known_aliases(home, os, registry, n - 1, i);
        let t = choose|t: int|
            0 <= t < before.len() && before[t] == tool_path(home, os, legacy_target(i));
        if !claimed(registry, legacy_target(n - 1)) {
            assert(paths == before.push(tool_path(home, os, legacy_target(n - 1))));
        }
        assert(paths[t] == before[t]);
    }
}

/// The position of the name of a tool in the table of the tools.
proof fn lemma_tool_position(name: Seq<char>) -> (i: int)
    requires
        is_tool_name(name),
    ensures
        0 <= i < LEGACY_TOOL_COUNT,
        name == legacy_target(i),
{
    if name == legacy_target(0) {
        0
    } else if name == legacy_target(1) {
        1
    } else if name == legacy_target(2) {
        2
    } else if name == legacy_target(3) {
        3
    } else if name == legacy_target(4) {
        4
    } else {
        5
    }
}

/// Removing the master record of the legacy bundle removes the bundle. The
/// registry that is persisted is the registry without the master record
/// and without every record of the bundle's family; every other record
/// stays as it was. The alias of every tool of the bundle is removed if it
/// exists, unless a record of another family stands under the tool's name.
/// Afterwards the listing shows each tool of the bundle, and not as
/// installed.
///
/// The last is stated for tool `i` where no installed record of another
/// family stands under the tool's name: such a record stays and is listed
/// as it is.
pub proof fn uninstalling_the_bundle_uninstalls_its_tools(
    home: Seq<char>,
    os: Seq<char>,
    registry: Map<Seq<char>, ExtensionRecord>,
    order: Seq<Seq<char>>,
    present: Set<Seq<char>>,
    i: int,
)
    requires
        0 <= i < LEGACY_TOOL_COUNT,
        claimed(registry, legacy_target(i)) ==> !registry[legacy_target(i)].installed,
    ensures
        ({
            let step = uninstall_step(
                home,
                os,
                master_name(),
                UninstallStateView::Surveying { registry, order },
                EventView::Present { paths: present },
            );
            let kept = without_bundle(registry);
            &&& step.0 == UninstallStateView::Removing {
                registry: kept,
                order: order_without_bundle(order, registry),
            }
            &&& step.1 is Remove
            &&& forall|k: Seq<char>|
                kept.contains_key(k) <==> registry.contains_key(k) && k != master_name()
                    && registry[k].extension_type != ExtensionType::PactRubyStandalone
            &&& forall|k: Seq<char>| kept.contains_key(k) ==> kept[k] == registry[k]
            &&& !claimed(registry, legacy_target(i)) && present.contains(
                tool_path(home, os, legacy_target(i)),
            ) ==> step.1->Remove_files.contains(tool_path(home, os, legacy_target(i)))
            &&& ({
                let disk = disk_after(present, step.1->Remove_files, step.1->Remove_directories);
                let listed = listing(home, os, kept, disk);
                listed.contains_key(legacy_target(i)) && !listed[legacy_target(i)].installed
            })
        }),
{
    let step = uninstall_step(
        home,
        os,
        master_name(),
        UninstallStateView::Surveying { registry, order },
        EventView::Present { paths: present },
    );
    let paths = bundle_paths(home, os, order, registry);
    let files = existing(paths, present);
    assert(step.1->Remove_files == files);
    let name = legacy_target(i);
    let path = tool_path(home, os, name);
    builtin_names_distinct(i + 1);
    assert(builtin_name(i + 1) == name);
    legacy_names_distinct(i, i);
    let kept = without_bundle(registry);
    let disk = disk_after(present, files, step.1->Remove_directories);
    let listed = listing(home, os, kept, disk);
    if claimed(registry, name) {
        assert(kept.contains_key(name));
        assert(listed[name] == registry[name]);
    } else {
        let known = known_aliases(home, os, registry, LEGACY_TOOL_COUNT as int);
        lemma_known_aliases(home, os, registry, LEGACY_TOOL_COUNT as int, i);
        let t = choose|t: int| 0 <= t < known.len() && known[t] == path;
        assert(paths[t] == known[t]);
        lemma_existing(paths, present, path);
        assert(!disk.contains(path));
        assert(!kept.contains_key(name));
    }
    assert(listed.contains_key(name));
}

/// After the master record of the legacy bundle is removed, nothing is left
/// of the bundle on disk: not the extraction directory, and for each record
/// bridged out of it neither its alias nor what the record points to.
///
/// This is stated for a disk on which what lies in the extraction directory
/// exists only if the directory does.
pub proof fn uninstalling_the_bundle_leaves_nothing_of_it(
    home: Seq<char>,
    os: Seq<char>,
    registry: Map<Seq<char>, ExtensionRecord>,
    order: Seq<Seq<char>>,
    present: Set<Seq<char>>,
    name: Seq<char>,
)
    requires
        order.contains(name),
        is_derived(registry, name),
        forall|p: Seq<char>|
            present.contains(p) && lies_in_bundle(home, p) ==> present.contains(extract_dir(home)),
    ensures
        ({
            let step = uninstall_step(
                home,
                os,
                master_name(),
                UninstallStateView::Surveying { registry, order },
                EventView::Present { paths: present },
            );
            let disk = disk_after(present, step.1->Remove_files, step.1->Remove_directories);
            &&& step.1 is Remove
            &&& !disk.contains(extract_dir(home))
            &&& !disk.contains(tool_path(home, os, name))
            &&& !disk.contains(registry[name].binary_path)
        }),
{
    let step = uninstall_step(
        home,
        os,
        master_name(),
        UninstallStateView::Surveying { registry, order },
        EventView::Present { paths: present },
    );
    let known = known_aliases(home, os, registry, LEGACY_TOOL_COUNT as int);
    let further = further_paths(home, os, order, registry);
    let paths = bundle_paths(home, os, order, registry);
    let files = existing(paths, present);
    let directories = existing(seq![extract_dir(home)], present);
    assert(step.1->Remove_files == files);
    assert(step.1->Remove_directories == directories);
    let disk = disk_after(present, files, directories);
    let alias = tool_path(home, os, name);
    let target = registry[name].binary_path;
    let own = record_paths(home, os, name, registry[name]);
    // The extraction directory goes if it is there.
    let homes = seq![extract_dir(home)];
    assert(homes[0] == extract_dir(home));
    lemma_existing(homes, present, extract_dir(home));
    if present.contains(extract_dir(home)) {
        let d = choose|d: int| 0 <= d < directories.len() && directories[d] == extract_dir(home);
        assert(directories[d] == extract_dir(home));
    }
    // The alias goes: with the aliases of the tools, or with the record.
    if is_tool_name(name) {
        let i = lemma_tool_position(name);
        lemma_known_aliases(home, os, registry, LEGACY_TOOL_COUNT as int, i);
        let t = choose|t: int| 0 <= t < known.len() && known[t] == alias;
        assert(paths[t] == known[t]);
    } else {
        assert(own[0] == alias);
        lemma_further_paths(home, os, order, registry, name, alias);
        let t = choose|t: int| 0 <= t < further.len() && further[t] == alias;
        assert(paths[known.len() + t] == further[t]);
    }
    lemma_existing(paths, present, alias);
    // What the record points to goes: as the alias, with the directory, or
    // on its own.
    if target == alias {
    } else if lies_in_bundle(home, target) {
        if present.contains(target) {
            let d = choose|d: int|
                0 <= d < directories.len() && directories[d] == extract_dir(home);
            assert(crate::text::has_prefix(target, directories[d] + "/"@));
        }
    } else {
        assert(own[own.len() - 1] == target);
        lemma_further_paths(home, os, order, registry, name, target);
        let t = choose|t: int| 0 <= t < further.len() && further[t] == target;
        assert(paths[known.len() + t] == further[t]);
        lemma_existing(paths, present, target);
    }
}

} // verus!
