//! The `extension` command: what each of its forms asks for, as a plan of
//! operations.

use crate::effect::strings_view;
use crate::error::{ErrorView, ExtensionError, Family};
use crate::registry::{ExtensionConfig, ExtensionRecord, ExtensionType, Registry};
use crate::text::{join2, str_eq};
use vstd::prelude::*;
use vstd::string::*;

verus! {

/// A form of the `extension` command, as parsed from the command line.
pub enum ExtensionCommand {
    /// `list [--installed]`
    List { installed_only: bool },
    /// `install [<name>] [--all] [--version V]`
    Install { extension: Option<String>, all: bool, version: Option<String> },
    /// `update [<name>] [--all]`
    Update { extension: Option<String>, all: bool },
    /// `uninstall [<name>] [--all]`
    Uninstall { extension: Option<String>, all: bool },
    /// Any other token: an extension to invoke. `arguments` is the whole
    /// argument vector of the process.
    External { arguments: Vec<String> },
    /// No subcommand.
    Nothing,
}

/// The mathematical value of an [`ExtensionCommand`].
pub enum ExtensionCommandView {
    List { installed_only: bool },
    Install { extension: Option<Seq<char>>, all: bool, version: Option<Seq<char>> },
    Update { extension: Option<Seq<char>>, all: bool },
    Uninstall { extension: Option<Seq<char>>, all: bool },
    External { arguments: Seq<Seq<char>> },
    Nothing,
}

/// The character sequence of an optional string.
pub open spec fn optional_view(text: Option<String>) -> Option<Seq<char>> {
    match text {
        Some(t) => Some(t@),
        None => None,
    }
}

impl View for ExtensionCommand {
    type V = ExtensionCommandView;

    open spec fn view(&self) -> ExtensionCommandView {
        match self {
            ExtensionCommand::List { installed_only } => ExtensionCommandView::List {
                installed_only: *installed_only,
            },
            ExtensionCommand::Install { extension, all, version } => ExtensionCommandView::Install {
                extension: optional_view(*extension),
                all: *all,
                version: optional_view(*version),
            },
            ExtensionCommand::Update { extension, all } => ExtensionCommandView::Update {
                extension: optional_view(*extension),
                all: *all,
            },
            ExtensionCommand::Uninstall { extension, all } => ExtensionCommandView::Uninstall {
                extension: optional_view(*extension),
                all: *all,
            },
            ExtensionCommand::External { arguments } => ExtensionCommandView::External {
                arguments: strings_view(arguments@),
            },
            ExtensionCommand::Nothing => ExtensionCommandView::Nothing,
        }
    }
}

/// One thing that the `extension` command does.
pub enum Operation {
    /// Show the listing.
    List { installed_only: bool },
    /// Install a family, in the given version or the latest.
    Install { family: Family, version: Option<String> },
    /// Tell the user something and go on.
    Warn { message: String },
    /// Remove the extension of that name.
    Uninstall { name: String },
    /// Invoke the extension of that name with the arguments, and end the
    /// process with its exit code if it fails.
    Run { name: String, args: Vec<String> },
}

/// The mathematical value of an [`Operation`].
pub enum OperationView {
    List { installed_only: bool },
    Install { family: Family, version: Option<Seq<char>> },
    Warn { message: Seq<char> },
    Uninstall { name: Seq<char> },
    Run { name: Seq<char>, args: Seq<Seq<char>> },
}

impl View for Operation {
    type V = OperationView;

    open spec fn view(&self) -> OperationView {
        match self {
            Operation::List { installed_only } => OperationView::List {
                installed_only: *installed_only,
            },
            Operation::Install { family, version } => OperationView::Install {
                family: *family,
                version: optional_view(*version),
            },
            Operation::Warn { message } => OperationView::Warn { message: message@ },
            Operation::Uninstall { name } => OperationView::Uninstall { name: name@ },
            Operation::Run { name, args } => OperationView::Run {
                name: name@,
                args: strings_view(args@),
            },
        }
    }
}

/// The values of a sequence of operations.
pub open spec fn operations_view(v: Seq<Operation>) -> Seq<OperationView> {
    Seq::new(v.len(), |i: int| v[i]@)
}

/// What the `extension` command comes to.
pub enum CommandPlan {
    /// The plan depends on what is listed: ask again with the listing.
    NeedListing,
    /// Perform the operations in order; stop at the first that fails.
    Perform { operations: Vec<Operation> },
    /// The command fails before anything is done.
    Fail { error: ExtensionError },
}

/// The mathematical value of a [`CommandPlan`].
pub enum CommandPlanView {
    NeedListing,
    Perform { operations: Seq<OperationView> },
    Fail { error: ErrorView },
}

impl View for CommandPlan {
    type V = CommandPlanView;

    open spec fn view(&self) -> CommandPlanView {
        match self {
            CommandPlan::NeedListing => CommandPlanView::NeedListing,
            CommandPlan::Perform { operations } => CommandPlanView::Perform {
                operations: operations_view(operations@),
            },
            CommandPlan::Fail { error } => CommandPlanView::Fail { error: error@ },
        }
    }
}

/// The position of the first occurrence of `token` in `items`, or the length
/// of `items` where it does not occur.
pub open spec fn first_position(items: Seq<Seq<char>>, token: Seq<char>) -> int
    decreases items.len(),
{
    if items.len() == 0 || items[0] == token {
        0
    } else {
        1 + first_position(items.drop_first(), token)
    }
}

/// What follows the first occurrence of `token` in `items`: nothing where
/// it does not occur.
pub open spec fn after_token(items: Seq<Seq<char>>, token: Seq<char>) -> Seq<Seq<char>> {
    let at = first_position(items, token);
    if at < items.len() {
        items.subrange(at + 1, items.len() as int)
    } else {
        Seq::empty()
    }
}

/// The arguments of an extension invoked through the `extension` command:
/// what follows the first occurrence of `extension` in the argument vector,
/// or the whole vector where it does not occur.
pub open spec fn external_arguments(arguments: Seq<Seq<char>>) -> Seq<Seq<char>> {
    if first_position(arguments, "extension"@) < arguments.len() {
        after_token(arguments, "extension"@)
    } else {
        arguments
    }
}

/// How an installed extension is updated: by installing the latest version
/// of its family. An external extension cannot be updated.
pub open spec fn update_operation(name: Seq<char>, record: ExtensionRecord) -> OperationView {
    match record.extension_type {
        ExtensionType::PactflowAi => OperationView::Install {
            family: Family::PactflowAi,
            version: None,
        },
        ExtensionType::PactRubyStandalone => OperationView::Install {
            family: Family::PactLegacy,
            version: None,
        },
        ExtensionType::External => OperationView::Warn {
            message: "Cannot update external extension: "@ + name,
        },
    }
}

/// The update of every installed extension listed, in listing order.
pub open spec fn update_operations(
    order: Seq<Seq<char>>,
    listed: Map<Seq<char>, ExtensionRecord>,
) -> Seq<OperationView>
    decreases order.len(),
{
    if order.len() == 0 {
        Seq::empty()
    } else if listed[order.last()].installed {
        update_operations(order.drop_last(), listed).push(
            update_operation(order.last(), listed[order.last()]),
        )
    } else {
        update_operations(order.drop_last(), listed)
    }
}

/// Whether removing everything removes the record under `name` by its own
/// name: it is installed, and it is not a tool of the legacy bundle, which
/// goes with the master record.
pub open spec fn removed_by_name(name: Seq<char>, record: ExtensionRecord) -> bool {
    record.installed && (record.extension_type != ExtensionType::PactRubyStandalone || name
        == "pact-legacy"@)
}

/// The removal of every installed extension listed, in listing order.
pub open spec fn uninstall_operations(
    order: Seq<Seq<char>>,
    listed: Map<Seq<char>, ExtensionRecord>,
) -> Seq<OperationView>
    decreases order.len(),
{
    if order.len() == 0 {
        Seq::empty()
    } else if removed_by_name(order.last(), listed[order.last()]) {
        uninstall_operations(order.drop_last(), listed).push(
            OperationView::Uninstall { name: order.last() },
        )
    } else {
        uninstall_operations(order.drop_last(), listed)
    }
}

/// What the `install` form comes to.
pub open spec fn install_plan(
    extension: Option<Seq<char>>,
    all: bool,
    version: Option<Seq<char>>,
) -> CommandPlanView {
    if all {
        CommandPlanView::Perform {
            operations: seq![
                OperationView::Install { family: Family::PactflowAi, version },
                OperationView::Install { family: Family::PactLegacy, version },
            ],
        }
    } else {
        match extension {
            Some(name) => if name == "pactflow-ai"@ {
                CommandPlanView::Perform {
                    operations: seq![OperationView::Install { family: Family::PactflowAi, version }],
                }
            } else if name == "pact-legacy"@ {
                CommandPlanView::Perform {
                    operations: seq![OperationView::Install { family: Family::PactLegacy, version }],
                }
            } else {
                CommandPlanView::Fail { error: ErrorView::UnknownExtension { name } }
            },
            None => CommandPlanView::Fail { error: ErrorView::MissingTarget },
        }
    }
}

/// What the `update` form comes to, given what is listed.
pub open spec fn update_plan(
    extension: Option<Seq<char>>,
    all: bool,
    order: Seq<Seq<char>>,
    listed: Map<Seq<char>, ExtensionRecord>,
) -> CommandPlanView {
    if all {
        if update_operations(order, listed).len() == 0 {
            CommandPlanView::Fail { error: ErrorView::NothingInstalled }
        } else {
            CommandPlanView::Perform { operations: update_operations(order, listed) }
        }
    } else {
        match extension {
            Some(name) => if !listed.contains_key(name) {
                CommandPlanView::Fail { error: ErrorView::NotFound { name } }
            } else if !listed[name].installed {
                CommandPlanView::Fail { error: ErrorView::NotInstalled { name } }
            } else {
                CommandPlanView::Perform { operations: seq![update_operation(name, listed[name])] }
            },
            None => CommandPlanView::Fail { error: ErrorView::MissingTarget },
        }
    }
}

/// What the `uninstall` form for all extensions comes to, given what is
/// listed.
pub open spec fn uninstall_all_plan(
    order: Seq<Seq<char>>,
    listed: Map<Seq<char>, ExtensionRecord>,
) -> CommandPlanView {
    if uninstall_operations(order, listed).len() == 0 {
        CommandPlanView::Perform {
            operations: seq![
                OperationView::Warn { message: "No extensions are currently installed."@ },
            ],
        }
    } else {
        CommandPlanView::Perform { operations: uninstall_operations(order, listed) }
    }
}

/// What the invocation of an extension through the `extension` command
/// comes to.
pub open spec fn external_plan(arguments: Seq<Seq<char>>) -> CommandPlanView {
    let rest = external_arguments(arguments);
    if rest.len() == 0 {
        CommandPlanView::Perform { operations: Seq::empty() }
    } else {
        CommandPlanView::Perform {
            operations: seq![
                OperationView::Run { name: rest[0], args: rest.subrange(1, rest.len() as int) },
            ],
        }
    }
}

/// What a form of the `extension` command comes to. `listing` is what is
/// listed, with its listing order, where the caller has it.
pub open spec fn command_plan(
    command: ExtensionCommandView,
    listing: Option<(Seq<Seq<char>>, Map<Seq<char>, ExtensionRecord>)>,
) -> CommandPlanView {
    match command {
        ExtensionCommandView::List { installed_only } => CommandPlanView::Perform {
            operations: seq![OperationView::List { installed_only }],
        },
        ExtensionCommandView::Install { extension, all, version } => install_plan(
            extension,
            all,
            version,
        ),
        ExtensionCommandView::Update { extension, all } => if !all && extension is None {
            CommandPlanView::Fail { error: ErrorView::MissingTarget }
        } else {
            match listing {
                Some((order, listed)) => update_plan(extension, all, order, listed),
                None => CommandPlanView::NeedListing,
            }
        },
        ExtensionCommandView::Uninstall { extension, all } => if all {
            match listing {
                Some((order, listed)) => uninstall_all_plan(order, listed),
                None => CommandPlanView::NeedListing,
            }
        } else {
            match extension {
                Some(name) => CommandPlanView::Perform {
                    operations: seq![OperationView::Uninstall { name }],
                },
                None => CommandPlanView::Fail { error: ErrorView::MissingTarget },
            }
        },
        ExtensionCommandView::External { arguments } => external_plan(arguments),
        ExtensionCommandView::Nothing => CommandPlanView::Perform {
            operations: seq![
                OperationView::Warn {
                    message: "No subcommand provided. Use 'pact extension --help' for available commands."@,
                },
            ],
        },
    }
}

/// What is listed, with its listing order, where there is a listing.
pub open spec fn listing_view(listed: Option<&Registry>) -> Option<
    (Seq<Seq<char>>, Map<Seq<char>, ExtensionRecord>),
> {
    match listed {
        Some(registry) => Some((registry.keys(), registry@)),
        None => None,
    }
}

proof fn lemma_first_position(items: Seq<Seq<char>>, token: Seq<char>, i: int)
    requires
        0 <= i <= items.len(),
        forall|j: int| 0 <= j < i ==> items[j] != token,
        i == items.len() || items[i] == token,
    ensures
        first_position(items, token) == i,
    decreases i,
{
    if i > 0 {
        let rest = items.drop_first();
        assert forall|j: int| 0 <= j < i - 1 implies rest[j] != token by {
            assert(rest[j] == items[j + 1]);
        }
        if i < items.len() {
            assert(rest[i - 1] == items[i]);
        }
        lemma_first_position(rest, token, i - 1);
    }
}

/// The position of the first occurrence of `token` in `items`, or the
/// length of `items` where it does not occur.
pub fn find_token(items: &[String], token: &str) -> (r: usize)
    ensures
        r == first_position(strings_view(items@), token@),
        r <= items@.len(),
{
    let wanted = token.to_owned();
    let mut i: usize = 0;
    while i < items.len() && items[i] != wanted
        invariant
            i <= items@.len(),
            wanted@ == token@,
            forall|j: int| 0 <= j < i ==> items@[j]@ != token@,
        decreases items@.len() - i,
    {
        i += 1;
    }
    proof {
        lemma_first_position(strings_view(items@), token@, i as int);
    }
    i
}

/// A copy of the items from position `from` on.
pub fn items_from(items: &[String], from: usize) -> (r: Vec<String>)
    requires
        from <= items@.len(),
    ensures
        strings_view(r@) == strings_view(items@).subrange(from as int, items@.len() as int),
{
    let mut rest: Vec<String> = Vec::new();
    let mut i: usize = from;
    while i < items.len()
        invariant
            from <= i <= items@.len(),
            rest@.len() == i - from,
            forall|j: int| 0 <= j < i - from ==> rest@[j]@ == items@[from + j]@,
        decreases items@.len() - i,
    {
        rest.push(items[i].clone());
        i += 1;
    }
    assert(strings_view(rest@) =~= strings_view(items@).subrange(
        from as int,
        items@.len() as int,
    ));
    rest
}

/// What follows the first occurrence of `token` in `items`.
pub fn items_after(items: &[String], token: &str) -> (r: Vec<String>)
    ensures
        strings_view(r@) == after_token(strings_view(items@), token@),
{
    let at = find_token(items, token);
    if at < items.len() {
        items_from(items, at + 1)
    } else {
        let rest: Vec<String> = Vec::new();
        assert(strings_view(rest@) =~= Seq::<Seq<char>>::empty());
        rest
    }
}

/// A copy of an optional string.
fn copy_optional(text: &Option<String>) -> (r: Option<String>)
    ensures
        optional_view(r) == optional_view(*text),
{
    match text {
        Some(t) => Some(t.clone()),
        None => None,
    }
}

/// How an installed extension is updated.
fn update_of(name: &str, config: &ExtensionConfig) -> (r: Operation)
    ensures
        r@ == update_operation(name@, config@),
{
    match config.extension_type {
        ExtensionType::PactflowAi => Operation::Install { family: Family::PactflowAi, version: None },
        ExtensionType::PactRubyStandalone => Operation::Install {
            family: Family::PactLegacy,
            version: None,
        },
        ExtensionType::External => Operation::Warn {
            message: join2("Cannot update external extension: ", name),
        },
    }
}

/// The update of every installed extension listed.
fn updates(listed: &Registry) -> (r: Vec<Operation>)
    ensures
        operations_view(r@) == update_operations(listed.keys(), listed@),
{
    let ghost order = listed.keys();
    let n = listed.len();
    let mut operations: Vec<Operation> = Vec::new();
    assert(operations_view(operations@) =~= update_operations(order.subrange(0, 0), listed@));
    let mut i: usize = 0;
    while i < n
        invariant
            i <= n,
            n == listed.keys().len(),
            order == listed.keys(),
            operations_view(operations@) == update_operations(order.subrange(0, i as int), listed@),
        decreases n - i,
    {
        let name = listed.key_at(i);
        let config = listed.config_at(i);
        proof {
            let next = order.subrange(0, i + 1);
            assert(next.drop_last() == order.subrange(0, i as int));
            assert(next.last() == order[i as int]);
        }
        if config.installed {
            let ghost before = operations_view(operations@);
            operations.push(update_of(name.as_str(), config));
            assert(operations_view(operations@) =~= before.push(
                update_operation(order[i as int], listed@[order[i as int]]),
            ));
        }
        i += 1;
    }
    proof {
        assert(order.subrange(0, n as int) == order);
    }
    operations
}

/// The removal of every installed extension listed.
fn removals(listed: &Registry) -> (r: Vec<Operation>)
    ensures
        operations_view(r@) == uninstall_operations(listed.keys(), listed@),
{
    let ghost order = listed.keys();
    let n = listed.len();
    let mut operations: Vec<Operation> = Vec::new();
    assert(operations_view(operations@) =~= uninstall_operations(order.subrange(0, 0), listed@));
    let mut i: usize = 0;
    while i < n
        invariant
            i <= n,
            n == listed.keys().len(),
            order == listed.keys(),
            operations_view(operations@) == uninstall_operations(
                order.subrange(0, i as int),
                listed@,
            ),
        decreases n - i,
    {
        let name = listed.key_at(i);
        let config = listed.config_at(i);
        proof {
            let next = order.subrange(0, i + 1);
            assert(next.drop_last() == order.subrange(0, i as int));
            assert(next.last() == order[i as int]);
        }
        let legacy = match config.extension_type {
            ExtensionType::PactRubyStandalone => true,
            _ => false,
        };
        if config.installed && (!legacy || str_eq(name.as_str(), "pact-legacy")) {
            let ghost before = operations_view(operations@);
            operations.push(Operation::Uninstall { name: name.clone() });
            assert(operations_view(operations@) =~= before.push(
                OperationView::Uninstall { name: order[i as int] },
            ));
        }
        i += 1;
    }
    proof {
        assert(order.subrange(0, n as int) == order);
    }
    operations
}

/// A plan of one operation.
fn single(operation: Operation) -> (r: CommandPlan)
    ensures
        r@ == (CommandPlanView::Perform { operations: seq![operation@] }),
{
    let mut operations: Vec<Operation> = Vec::new();
    operations.push(operation);
    assert(operations_view(operations@) =~= seq![operation@]);
    CommandPlan::Perform { operations }
}

/// What the `install` form comes to.
fn plan_install(extension: &Option<String>, all: bool, version: &Option<String>) -> (r:
    CommandPlan)
    ensures
        r@ == install_plan(optional_view(*extension), all, optional_view(*version)),
{
    if all {
        let mut operations: Vec<Operation> = Vec::new();
        operations.push(
            Operation::Install { family: Family::PactflowAi, version: copy_optional(version) },
        );
        operations.push(
            Operation::Install { family: Family::PactLegacy, version: copy_optional(version) },
        );
        assert(operations_view(operations@) =~= seq![
            OperationView::Install { family: Family::PactflowAi, version: optional_view(*version) },
            OperationView::Install { family: Family::PactLegacy, version: optional_view(*version) },
        ]);
        CommandPlan::Perform { operations }
    } else {
        match extension {
            Some(name) => if str_eq(name.as_str(), "pactflow-ai") {
                single(
                    Operation::Install {
                        family: Family::PactflowAi,
                        version: copy_optional(version),
                    },
                )
            } else if str_eq(name.as_str(), "pact-legacy") {
                single(
                    Operation::Install {
                        family: Family::PactLegacy,
                        version: copy_optional(version),
                    },
                )
            } else {
                CommandPlan::Fail { error: ExtensionError::UnknownExtension { name: name.clone() } }
            },
            None => CommandPlan::Fail { error: ExtensionError::MissingTarget },
        }
    }
}

/// What the `update` form comes to, given what is listed.
fn plan_update(extension: &Option<String>, all: bool, listed: &Registry) -> (r: CommandPlan)
    ensures
        r@ == update_plan(optional_view(*extension), all, listed.keys(), listed@),
{
    if all {
        let operations = updates(listed);
        if operations.len() == 0 {
            CommandPlan::Fail { error: ExtensionError::NothingInstalled }
        } else {
            CommandPlan::Perform { operations }
        }
    } else {
        match extension {
            Some(name) => match listed.get(name.as_str()) {
                None => CommandPlan::Fail { error: ExtensionError::NotFound { name: name.clone() } },
                Some(config) => if !config.installed {
                    CommandPlan::Fail { error: ExtensionError::NotInstalled { name: name.clone() } }
                } else {
                    single(update_of(name.as_str(), config))
                },
            },
            None => CommandPlan::Fail { error: ExtensionError::MissingTarget },
        }
    }
}

/// What a form of the `extension` command comes to.
///
/// The plans of `update`, and of `uninstall` for all extensions, depend on
/// what is listed: without a listing the answer is
/// [`CommandPlan::NeedListing`], and the caller asks again with one. The
/// other forms take no notice of `listed`.
pub fn run_extension_command(command: &ExtensionCommand, listed: Option<&Registry>) -> (r:
    CommandPlan)
    ensures
        r@ == command_plan(command@, listing_view(listed)),
{
    match command {
        ExtensionCommand::List { installed_only } => single(
            Operation::List { installed_only: *installed_only },
        ),
        ExtensionCommand::Install { extension, all, version } => plan_install(
            extension,
            *all,
            version,
        ),
        ExtensionCommand::Update { extension, all } => if !*all && extension.is_none() {
            CommandPlan::Fail { error: ExtensionError::MissingTarget }
        } else {
            match listed {
                Some(registry) => plan_update(extension, *all, registry),
                None => CommandPlan::NeedListing,
            }
        },
        ExtensionCommand::Uninstall { extension, all } => if *all {
            match listed {
                Some(registry) => {
                    let operations = removals(registry);
                    if operations.len() == 0 {
                        single(
                            Operation::Warn {
                                message: "No extensions are currently installed.".to_owned(),
                            },
                        )
                    } else {
                        CommandPlan::Perform { operations }
                    }
                },
                None => CommandPlan::NeedListing,
            }
        } else {
            match extension {
                Some(name) => single(Operation::Uninstall { name: name.clone() }),
                None => CommandPlan::Fail { error: ExtensionError::MissingTarget },
            }
        },
        ExtensionCommand::External { arguments } => {
            let at = find_token(arguments.as_slice(), "extension");
            let rest = if at < arguments.len() {
                items_from(arguments.as_slice(), at + 1)
            } else {
                items_from(arguments.as_slice(), 0)
            };
            proof {
                let all = strings_view(arguments@);
                assert(all.subrange(0, all.len() as int) == all);
            }
            if rest.len() == 0 {
                let operations: Vec<Operation> = Vec::new();
                assert(operations_view(operations@) =~= Seq::<OperationView>::empty());
                CommandPlan::Perform { operations }
            } else {
                let name = rest[0].clone();
                let args = items_from(rest.as_slice(), 1);
                single(Operation::Run { name, args })
            }
        },
        ExtensionCommand::Nothing => single(
            Operation::Warn {
                message: "No subcommand provided. Use 'pact extension --help' for available commands.".to_owned(),
            },
        ),
    }
}

} // verus!
