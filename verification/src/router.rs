//! The command router: whether a top-level command is one of the static
//! commands or the invocation of an extension, and what the invocation comes
//! to for the process.

use crate::command::{after_token, items_after, items_from};
use crate::effect::{strings_view, Action, ActionView};
use crate::error::message_text;
use crate::invoke::{exit_byte, exit_code, relayed_code};
use crate::registry::{ExtensionRecord, Registry};
use crate::text::{has_prefix, join2, starts_with, str_eq, tail_from};
use vstd::prelude::*;
use vstd::string::*;

verus! {

/// Where a command line goes.
pub enum Route {
    /// No command: show the top-level help.
    Help,
    /// One of the static commands.
    Static { command: String },
    /// A nested command of `pactflow` that is an installed extension.
    PactflowExtension { command: String, args: Vec<String> },
    /// A top-level command that is not static: tried as an extension.
    External { name: String, args: Vec<String> },
}

/// The mathematical value of a [`Route`].
pub enum RouteView {
    Help,
    Static { command: Seq<char> },
    PactflowExtension { command: Seq<char>, args: Seq<Seq<char>> },
    External { name: Seq<char>, args: Seq<Seq<char>> },
}

impl View for Route {
    type V = RouteView;

    open spec fn view(&self) -> RouteView {
        match self {
            Route::Help => RouteView::Help,
            Route::Static { command } => RouteView::Static { command: command@ },
            Route::PactflowExtension { command, args } => RouteView::PactflowExtension {
                command: command@,
                args: strings_view(args@),
            },
            Route::External { name, args } => RouteView::External {
                name: name@,
                args: strings_view(args@),
            },
        }
    }
}

/// The top-level commands that are built in.
pub open spec fn is_static_command(command: Seq<char>) -> bool {
    ||| command == "broker"@
    ||| command == "extension"@
    ||| command == "pactflow"@
    ||| command == "stub"@
    ||| command == "completions"@
    ||| command == "plugin"@
    ||| command == "mock"@
    ||| command == "verifier"@
}

/// The nested commands of `pactflow` that installed extensions provide: of
/// each installed extension listed whose name begins with `pactflow-`, the
/// rest of the name, in listing order.
pub open spec fn pactflow_extensions(
    order: Seq<Seq<char>>,
    listed: Map<Seq<char>, ExtensionRecord>,
) -> Seq<Seq<char>>
    decreases order.len(),
{
    if order.len() == 0 {
        Seq::empty()
    } else if listed[order.last()].installed && has_prefix(order.last(), "pactflow-"@) {
        pactflow_extensions(order.drop_last(), listed).push(
            order.last().subrange("pactflow-"@.len() as int, order.last().len() as int),
        )
    } else {
        pactflow_extensions(order.drop_last(), listed)
    }
}

/// The arguments of a top-level command: the argument vector without the
/// program and the command.
pub open spec fn command_arguments(arguments: Seq<Seq<char>>) -> Seq<Seq<char>> {
    if arguments.len() >= 2 {
        arguments.subrange(2, arguments.len() as int)
    } else {
        Seq::empty()
    }
}

/// Where a command line goes.
///
/// `command` is the top-level command and `nested` the command below it, if
/// any; `known` are the nested commands that `pactflow` has built in;
/// `order` and `listed` say what is listed; `arguments` is the argument
/// vector of the process.
///
/// A nested command of `pactflow` goes to an extension if and only if it is
/// not built in and an installed extension provides it; the extension gets
/// what follows the command. A top-level command that is not static is tried
/// as an extension, with what follows it.
pub open spec fn routed(
    command: Option<Seq<char>>,
    nested: Option<Seq<char>>,
    known: Seq<Seq<char>>,
    order: Seq<Seq<char>>,
    listed: Map<Seq<char>, ExtensionRecord>,
    arguments: Seq<Seq<char>>,
) -> RouteView {
    match command {
        None => RouteView::Help,
        Some(c) => if c == "pactflow"@ {
            match nested {
                Some(n) => if !known.contains(n) && pactflow_extensions(order, listed).contains(n) {
                    RouteView::PactflowExtension { command: n, args: after_token(arguments, n) }
                } else {
                    RouteView::Static { command: c }
                },
                None => RouteView::Static { command: c },
            }
        } else if is_static_command(c) {
            RouteView::Static { command: c }
        } else {
            RouteView::External { name: c, args: command_arguments(arguments) }
        },
    }
}

/// What an invocation comes to for the process.
pub struct Conclusion {
    /// The exit code of the process.
    pub exit_code: u8,
    /// Whether the top-level help is to be shown.
    pub show_help: bool,
    /// The message to show, if any.
    pub message: Option<String>,
    /// What telemetry records as the error, if anything.
    pub recorded: Option<String>,
}

/// The mathematical value of a [`Conclusion`].
pub struct ConclusionView {
    pub exit_code: u8,
    pub show_help: bool,
    pub message: Option<Seq<char>>,
    pub recorded: Option<Seq<char>>,
}

impl View for Conclusion {
    type V = ConclusionView;

    open spec fn view(&self) -> ConclusionView {
        ConclusionView {
            exit_code: self.exit_code,
            show_help: self.show_help,
            message: match self.message {
                Some(m) => Some(m@),
                None => None,
            },
            recorded: match self.recorded {
                Some(m) => Some(m@),
                None => None,
            },
        }
    }
}

/// What the last action of an invocation comes to for the process.
///
/// A child that ran decides the exit code: zero for success, else its code
/// modulo 256, or one where it has none. An invocation that failed ends the
/// process with one. For a top-level command the failure means that the
/// command is unknown, and the help is shown; for a nested command of
/// `pactflow` the failure is reported. Telemetry records the failure as it
/// reads, or that the command is unknown.
pub open spec fn concluded(nested: bool, last: ActionView) -> ConclusionView {
    match last {
        ActionView::Relay { success, code } => ConclusionView {
            exit_code: (relayed_code(success, code) % 256) as u8,
            show_help: false,
            message: None,
            recorded: None,
        },
        ActionView::Fail { error } => if nested {
            ConclusionView {
                exit_code: 1,
                show_help: false,
                message: Some("PactFlow extension error: "@ + message_text(error)),
                recorded: Some(message_text(error)),
            }
        } else {
            ConclusionView {
                exit_code: 1,
                show_help: true,
                message: None,
                recorded: Some("Unknown command"@),
            }
        },
        _ => ConclusionView { exit_code: 1, show_help: false, message: None, recorded: None },
    }
}

/// Whether `items` holds `item`.
pub fn contains_item(items: &[String], item: &str) -> (r: bool)
    ensures
        r == strings_view(items@).contains(item@),
{
    let wanted = item.to_owned();
    let mut i: usize = 0;
    while i < items.len()
        invariant
            i <= items@.len(),
            wanted@ == item@,
            forall|j: int| 0 <= j < i ==> strings_view(items@)[j] != item@,
        decreases items@.len() - i,
    {
        if items[i] == wanted {
            assert(strings_view(items@)[i as int] == item@);
            return true;
        }
        i += 1;
    }
    false
}

/// The nested commands of `pactflow` that installed extensions provide.
pub fn get_pactflow_extensions(listed: &Registry) -> (r: Vec<String>)
    ensures
        strings_view(r@) == pactflow_extensions(listed.keys(), listed@),
{
    let ghost order = listed.keys();
    let n = listed.len();
    let mut commands: Vec<String> = Vec::new();
    assert(strings_view(commands@) =~= pactflow_extensions(order.subrange(0, 0), listed@));
    let mut i: usize = 0;
    while i < n
        invariant
            i <= n,
            n == listed.keys().len(),
            order == listed.keys(),
            strings_view(commands@) == pactflow_extensions(order.subrange(0, i as int), listed@),
        decreases n - i,
    {
        let name = listed.key_at(i);
        let config = listed.config_at(i);
        proof {
            let next = order.subrange(0, i + 1);
            assert(next.drop_last() == order.subrange(0, i as int));
            assert(next.last() == order[i as int]);
            reveal_strlit("pactflow-");
        }
        if config.installed && starts_with(name.as_str(), "pactflow-") {
            let ghost before = strings_view(commands@);
            commands.push(tail_from(name.as_str(), 9));
            assert(strings_view(commands@) =~= before.push(
                order[i as int].subrange(9, order[i as int].len() as int),
            ));
        }
        i += 1;
    }
    proof {
        assert(order.subrange(0, n as int) == order);
    }
    commands
}

/// Whether `command` is a nested command of `pactflow` that an installed
/// extension provides.
pub fn is_pactflow_extension(command: &str, listed: &Registry) -> (r: bool)
    ensures
        r == pactflow_extensions(listed.keys(), listed@).contains(command@),
{
    let commands = get_pactflow_extensions(listed);
    contains_item(commands.as_slice(), command)
}

/// Whether `command` is one of the static top-level commands.
pub fn is_static(command: &str) -> (r: bool)
    ensures
        r == is_static_command(command@),
{
    str_eq(command, "broker") || str_eq(command, "extension") || str_eq(command, "pactflow")
        || str_eq(command, "stub") || str_eq(command, "completions") || str_eq(command, "plugin")
        || str_eq(command, "mock") || str_eq(command, "verifier")
}

/// Where a command line goes.
pub fn route(
    command: Option<&str>,
    nested: Option<&str>,
    known: &[String],
    listed: &Registry,
    arguments: &[String],
) -> (r: Route)
    ensures
        r@ == routed(
            crate::install::optional_text(command),
            crate::install::optional_text(nested),
            strings_view(known@),
            listed.keys(),
            listed@,
            strings_view(arguments@),
        ),
{
    match command {
        None => Route::Help,
        Some(c) => if str_eq(c, "pactflow") {
            match nested {
                Some(n) => if !contains_item(known, n) && is_pactflow_extension(n, listed) {
                    Route::PactflowExtension {
                        command: n.to_owned(),
                        args: items_after(arguments, n),
                    }
                } else {
                    Route::Static { command: c.to_owned() }
                },
                None => Route::Static { command: c.to_owned() },
            }
        } else if is_static(c) {
            Route::Static { command: c.to_owned() }
        } else {
            let args = if arguments.len() >= 2 {
                items_from(arguments, 2)
            } else {
                let none: Vec<String> = Vec::new();
                assert(strings_view(none@) =~= Seq::<Seq<char>>::empty());
                none
            };
            Route::External { name: c.to_owned(), args }
        },
    }
}

/// What the last action of an invocation comes to for the process. `nested`
/// says that the invocation was that of a nested command of `pactflow`.
pub fn conclude(nested: bool, last: &Action) -> (r: Conclusion)
    ensures
        r@ == concluded(nested, last@),
{
    match last {
        Action::Relay { success, code } => Conclusion {
            exit_code: exit_byte(exit_code(*success, *code)),
            show_help: false,
            message: None,
            recorded: None,
        },
        Action::Fail { error } => if nested {
            let text = error.message();
            Conclusion {
                exit_code: 1,
                show_help: false,
                message: Some(join2("PactFlow extension error: ", text.as_str())),
                recorded: Some(text),
            }
        } else {
            Conclusion {
                exit_code: 1,
                show_help: true,
                message: None,
                recorded: Some("Unknown command".to_owned()),
            }
        },
        _ => Conclusion { exit_code: 1, show_help: false, message: None, recorded: None },
    }
}

} // verus!
