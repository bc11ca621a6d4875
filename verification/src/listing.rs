//! The rows that the `list` form of the `extension` command shows, and the
//! versions that go into them.

use crate::effect::{strings_view, Action, ActionView};
use crate::error::ExtensionError;
use crate::manager::ExtensionManager;
use crate::registry::{ExtensionConfig, ExtensionRecord, ExtensionType, PathSet, Registry};
use crate::text::{nth_word, word_at};
use vstd::prelude::*;
use vstd::string::*;

verus! {

/// One row of the listing.
#[derive(Debug)]
pub struct ExtensionRow {
    pub name: String,
    pub kind: String,
    pub installed_version: String,
    pub latest_version: String,
    pub status: String,
}

/// The mathematical value of an [`ExtensionRow`].
pub struct RowView {
    pub name: Seq<char>,
    pub kind: Seq<char>,
    pub installed_version: Seq<char>,
    pub latest_version: Seq<char>,
    pub status: Seq<char>,
}

impl View for ExtensionRow {
    type V = RowView;

    open spec fn view(&self) -> RowView {
        RowView {
            name: self.name@,
            kind: self.kind@,
            installed_version: self.installed_version@,
            latest_version: self.latest_version@,
            status: self.status@,
        }
    }
}

/// The values of a sequence of rows.
pub open spec fn rows_view(v: Seq<ExtensionRow>) -> Seq<RowView> {
    Seq::new(v.len(), |i: int| v[i]@)
}

/// What stands for a version that is not known.
pub open spec fn unknown_version() -> Seq<char> {
    "unknown"@
}

/// How a family is called in the listing.
pub open spec fn kind_label(extension_type: ExtensionType) -> Seq<char> {
    match extension_type {
        ExtensionType::PactflowAi => "PactFlow AI"@,
        ExtensionType::PactRubyStandalone => "Pact Legacy"@,
        ExtensionType::External => "External"@,
    }
}

/// How the listing says whether an extension is installed.
pub open spec fn status_label(installed: bool) -> Seq<char> {
    if installed {
        "\u{2705} Installed"@
    } else {
        "\u{274c} Not Installed"@
    }
}

/// The row of the record under `name`.
///
/// The installed version of a single-binary extension is what the binary
/// reports, `installed_ai`; that of any other installed extension is the
/// recorded one; an extension that is not installed has a dash. The latest
/// version is that of the family; an external extension has a dash.
pub open spec fn row_of(
    name: Seq<char>,
    record: ExtensionRecord,
    latest_ruby: Seq<char>,
    latest_ai: Seq<char>,
    installed_ai: Seq<char>,
) -> RowView {
    RowView {
        name,
        kind: kind_label(record.extension_type),
        installed_version: if !record.installed {
            "-"@
        } else if record.extension_type == ExtensionType::PactflowAi {
            installed_ai
        } else {
            record.version
        },
        latest_version: match record.extension_type {
            ExtensionType::PactRubyStandalone => latest_ruby,
            ExtensionType::PactflowAi => latest_ai,
            ExtensionType::External => "-"@,
        },
        status: status_label(record.installed),
    }
}

/// The rows of the listing, in listing order: one for each extension
/// listed, or for each installed one where only those are asked for.
pub open spec fn rows_of(
    order: Seq<Seq<char>>,
    listed: Map<Seq<char>, ExtensionRecord>,
    installed_only: bool,
    latest_ruby: Seq<char>,
    latest_ai: Seq<char>,
    installed_ai: Seq<char>,
) -> Seq<RowView>
    decreases order.len(),
{
    if order.len() == 0 {
        Seq::empty()
    } else if installed_only && !listed[order.last()].installed {
        rows_of(order.drop_last(), listed, installed_only, latest_ruby, latest_ai, installed_ai)
    } else {
        rows_of(order.drop_last(), listed, installed_only, latest_ruby, latest_ai, installed_ai).push(
            row_of(order.last(), listed[order.last()], latest_ruby, latest_ai, installed_ai),
        )
    }
}

/// The version that an installed single-binary extension reports, given
/// what it printed when asked for its version: the second word, as in
/// `pactflow-ai 1.11.4`. Unknown where there is no report or no second word.
pub open spec fn reported_version(report: Option<Seq<char>>) -> Seq<char> {
    match report {
        Some(output) => match nth_word(output, 1) {
            Some(version) => version,
            None => unknown_version(),
        },
        None => unknown_version(),
    }
}

/// The binary to ask for the installed version of the single-binary
/// extension: the recorded one, if the extension is recorded as installed
/// and the binary exists.
pub open spec fn version_binary(
    registry: Map<Seq<char>, ExtensionRecord>,
    present: Set<Seq<char>>,
) -> Option<Seq<char>> {
    if registry.contains_key("pactflow-ai"@) && registry["pactflow-ai"@].installed
        && present.contains(registry["pactflow-ai"@].binary_path) {
        Some(registry["pactflow-ai"@].binary_path)
    } else {
        None
    }
}

/// The row of the record under `name`.
fn make_row(
    name: &str,
    config: &ExtensionConfig,
    latest_ruby: &str,
    latest_ai: &str,
    installed_ai: &str,
) -> (r: ExtensionRow)
    ensures
        r@ == row_of(name@, config@, latest_ruby@, latest_ai@, installed_ai@),
{
    let kind = match config.extension_type {
        ExtensionType::PactflowAi => "PactFlow AI",
        ExtensionType::PactRubyStandalone => "Pact Legacy",
        ExtensionType::External => "External",
    };
    let single = match config.extension_type {
        ExtensionType::PactflowAi => true,
        _ => false,
    };
    let installed_version = if !config.installed {
        "-".to_owned()
    } else if single {
        installed_ai.to_owned()
    } else {
        config.version.clone()
    };
    let latest_version = match config.extension_type {
        ExtensionType::PactRubyStandalone => latest_ruby.to_owned(),
        ExtensionType::PactflowAi => latest_ai.to_owned(),
        ExtensionType::External => "-".to_owned(),
    };
    let status = if config.installed {
        "\u{2705} Installed"
    } else {
        "\u{274c} Not Installed"
    };
    ExtensionRow {
        name: name.to_owned(),
        kind: kind.to_owned(),
        installed_version,
        latest_version,
        status: status.to_owned(),
    }
}

/// The rows of the listing.
///
/// `latest_ruby` and `latest_ai` are the latest versions of the two
/// families, and `installed_ai` the version that the installed single-binary
/// extension reports.
pub fn extension_rows(
    listed: &Registry,
    installed_only: bool,
    latest_ruby: &str,
    latest_ai: &str,
    installed_ai: &str,
) -> (r: Vec<ExtensionRow>)
    ensures
        rows_view(r@) == rows_of(
            listed.keys(),
            listed@,
            installed_only,
            latest_ruby@,
            latest_ai@,
            installed_ai@,
        ),
{
    let ghost order = listed.keys();
    let n = listed.len();
    let mut rows: Vec<ExtensionRow> = Vec::new();
    assert(rows_view(rows@) =~= rows_of(
        order.subrange(0, 0),
        listed@,
        installed_only,
        latest_ruby@,
        latest_ai@,
        installed_ai@,
    ));
    let mut i: usize = 0;
    while i < n
        invariant
            i <= n,
            n == listed.keys().len(),
            order == listed.keys(),
            rows_view(rows@) == rows_of(
                order.subrange(0, i as int),
                listed@,
                installed_only,
                latest_ruby@,
                latest_ai@,
                installed_ai@,
            ),
        decreases n - i,
    {
        let name = listed.key_at(i);
        let config = listed.config_at(i);
        proof {
            let next = order.subrange(0, i + 1);
            assert(next.drop_last() == order.subrange(0, i as int));
            assert(next.last() == order[i as int]);
        }
        if !installed_only || config.installed {
            let ghost before = rows_view(rows@);
            rows.push(make_row(name.as_str(), config, latest_ruby, latest_ai, installed_ai));
            assert(rows_view(rows@) =~= before.push(
                row_of(order[i as int], listed@[order[i as int]], latest_ruby@, latest_ai@, installed_ai@),
            ));
        }
        i += 1;
    }
    proof {
        assert(order.subrange(0, n as int) == order);
    }
    rows
}

/// The version to show for a family whose latest version was asked for:
/// the answer, or unknown where the request failed.
pub fn latest_or_unknown(resolved: Result<String, ExtensionError>) -> (r: String)
    ensures
        r@ == (match resolved {
            Ok(version) => version@,
            Err(_) => unknown_version(),
        }),
{
    match resolved {
        Ok(version) => version,
        Err(_) => "unknown".to_owned(),
    }
}

impl ExtensionManager {
    /// The action that asks the installed single-binary extension for its
    /// version, if there is a binary to ask.
    pub fn installed_version_query(&self, registry: &Registry, present: &PathSet) -> (r: Option<
        Action,
    >)
        ensures
            match r {
                Some(action) => version_binary(registry@, present@) is Some && action@ == (
                ActionView::Run {
                    program: version_binary(registry@, present@).unwrap(),
                    args: seq!["--version"@],
                }),
                None => version_binary(registry@, present@) is None,
            },
    {
        match registry.get("pactflow-ai") {
            Some(config) => if config.installed && present.contains(config.binary_path.as_str()) {
                let mut args: Vec<String> = Vec::new();
                args.push("--version".to_owned());
                assert(strings_view(args@) =~= seq!["--version"@]);
                Some(Action::Run { program: config.binary_path.clone(), args })
            } else {
                None
            },
            None => None,
        }
    }

    /// The version that the installed single-binary extension reports.
    /// `report` is what it printed when asked for its version, or `None`
    /// where there was no binary to ask, it could not be run, or it failed.
    pub fn get_installed_pactflow_ai_version(&self, report: Option<&str>) -> (r: String)
        ensures
            r@ == reported_version(crate::install::optional_text(report)),
    {
        match report {
            Some(output) => match word_at(output, 1) {
                Some(version) => version,
                None => "unknown".to_owned(),
            },
            None => "unknown".to_owned(),
        }
    }
}

} // verus!
