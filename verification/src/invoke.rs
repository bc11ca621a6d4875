//! Invocation of an extension, as a step function, and the exit code that
//! stands for how the child ended.
//!
//! A name is resolved through the registry first. A name that the registry
//! lacks is tried as a binary on the search path, named `pact-` and the name.

use crate::effect::{strings_view, Action, ActionView, Event, EventView};
use crate::error::{ErrorView, ExtensionError};
use crate::manager::ExtensionManager;
use crate::text::join2;
use vstd::prelude::*;
use vstd::string::*;

verus! {

/// How far an invocation has come.
#[derive(Debug, Clone, Copy, PartialEq, Eq, Structural)]
pub enum RunState {
    /// Nothing has been asked for yet.
    Idle,
    /// The registry is being read.
    Loading,
    /// The extension is running. `fallback` says that the name was not in
    /// the registry and a binary on the search path is tried.
    Running { fallback: bool },
    /// The extension has run.
    Finished,
    /// The invocation failed.
    Failed,
}

/// The name of the binary on the search path that stands for the extension
/// `name` where the registry has no record of it.
pub open spec fn external_binary(name: Seq<char>) -> Seq<char> {
    "pact-"@ + name
}

/// The name under which the extension behind the nested command `command`
/// of the `pactflow` command is registered.
pub open spec fn pactflow_extension_name(command: Seq<char>) -> Seq<char> {
    "pactflow-"@ + command
}

/// The failed state, with the action that reports `error`.
pub open spec fn refused(error: ErrorView) -> (RunState, ActionView) {
    (RunState::Failed, ActionView::Fail { error })
}

/// The next state and action of the invocation of the extension `name` with
/// the arguments `args`.
///
/// A registered and installed extension runs from its recorded path. A
/// registered extension that is not installed is not run. An unregistered
/// name runs as a binary on the search path; if that cannot be launched, the
/// extension is not found. How the child ends is passed on as it is.
pub open spec fn run_step(
    name: Seq<char>,
    args: Seq<Seq<char>>,
    state: RunState,
    event: EventView,
) -> (RunState, ActionView) {
    match state {
        RunState::Idle => match event {
            EventView::Begin => (RunState::Loading, ActionView::LoadRegistry),
            _ => refused(ErrorView::OutOfOrder),
        },
        RunState::Loading => match event {
            EventView::Loaded { registry, order } => if registry.contains_key(name) {
                if registry[name].installed {
                    (
                        RunState::Running { fallback: false },
                        ActionView::Run { program: registry[name].binary_path, args },
                    )
                } else {
                    refused(ErrorView::NotInstalled { name })
                }
            } else {
                (
                    RunState::Running { fallback: true },
                    ActionView::Run { program: external_binary(name), args },
                )
            },
            _ => refused(ErrorView::OutOfOrder),
        },
        RunState::Running { fallback } => match event {
            EventView::Exit { success, code } => (
                RunState::Finished,
                ActionView::Relay { success, code },
            ),
            EventView::Failed { message } => if fallback {
                refused(ErrorView::NotFound { name })
            } else {
                refused(ErrorView::Filesystem { message })
            },
            _ => refused(ErrorView::OutOfOrder),
        },
        RunState::Finished => refused(ErrorView::OutOfOrder),
        RunState::Failed => refused(ErrorView::OutOfOrder),
    }
}

/// The exit code that stands for how a child ended: zero for success, else
/// its code, or one where it has none.
pub open spec fn relayed_code(success: bool, code: Option<i32>) -> int {
    if success {
        0
    } else {
        match code {
            Some(c) => c as int,
            None => 1,
        }
    }
}

/// The failed state, with the action that reports `error`.
fn refuse(error: ExtensionError) -> (r: (RunState, Action))
    ensures
        (r.0, r.1@) == refused(error@),
{
    (RunState::Failed, Action::Fail { error })
}

/// A copy of the arguments.
pub fn copy_args(args: &[String]) -> (r: Vec<String>)
    ensures
        strings_view(r@) == strings_view(args@),
{
    let mut copy: Vec<String> = Vec::new();
    let mut i: usize = 0;
    while i < args.len()
        invariant
            i <= args@.len(),
            copy@.len() == i,
            forall|j: int| 0 <= j < i ==> copy@[j]@ == args@[j]@,
        decreases args@.len() - i,
    {
        copy.push(args[i].clone());
        i += 1;
    }
    assert(strings_view(copy@) =~= strings_view(args@));
    copy
}

/// The exit code that stands for how a child ended.
pub fn exit_code(success: bool, code: Option<i32>) -> (r: i32)
    ensures
        r == relayed_code(success, code),
{
    if success {
        0
    } else {
        match code {
            Some(c) => c,
            None => 1,
        }
    }
}

/// The exit code as the byte that a process can end with: the code modulo 256.
pub fn exit_byte(code: i32) -> (r: u8)
    ensures
        r == code as int % 256,
{
    if code >= 0 {
        (code % 256) as u8
    } else {
        // For a negative code, count down from 255.
        let below: i32 = -(code + 1);
        let r = 255 - (below % 256) as u8;
        assert(r == code as int % 256) by (nonlinear_arith)
            requires
                code < 0,
                below == -(code + 1),
                r == 255 - (below % 256),
        ;
        r
    }
}

impl ExtensionManager {
    /// One step of the invocation of the extension `extension_name` with the
    /// arguments `args`.
    ///
    /// Start with [`RunState::Idle`] and [`Event::Begin`]; hand each action's
    /// outcome back as the next event, with the state that came with the
    /// action.
    pub fn run_extension(
        &self,
        extension_name: &str,
        args: &[String],
        state: RunState,
        event: Event,
    ) -> (r: (RunState, Action))
        ensures
            (r.0, r.1@) == run_step(extension_name@, strings_view(args@), state, event@),
    {
        match state {
            RunState::Idle => match event {
                Event::Begin => (RunState::Loading, Action::LoadRegistry),
                _ => refuse(ExtensionError::OutOfOrder),
            },
            RunState::Loading => match event {
                Event::Loaded { registry } => match registry.get(extension_name) {
                    Some(config) => if config.installed {
                        (
                            RunState::Running { fallback: false },
                            Action::Run { program: config.binary_path.clone(), args: copy_args(args) },
                        )
                    } else {
                        refuse(ExtensionError::NotInstalled { name: extension_name.to_owned() })
                    },
                    None => (
                        RunState::Running { fallback: true },
                        Action::Run {
                            program: join2("pact-", extension_name),
                            args: copy_args(args),
                        },
                    ),
                },
                _ => refuse(ExtensionError::OutOfOrder),
            },
            RunState::Running { fallback } => match event {
                Event::Exit { success, code } => (RunState::Finished, Action::Relay { success, code }),
                Event::Failed { message } => if fallback {
                    refuse(ExtensionError::NotFound { name: extension_name.to_owned() })
                } else {
                    refuse(ExtensionError::Filesystem { message })
                },
                _ => refuse(ExtensionError::OutOfOrder),
            },
            RunState::Finished => refuse(ExtensionError::OutOfOrder),
            RunState::Failed => refuse(ExtensionError::OutOfOrder),
        }
    }
}

/// One step of the invocation of a top-level command that is not one of the
/// static commands, as the extension of that name.
pub fn run_external_extension(
    manager: &ExtensionManager,
    extension_name: &str,
    args: &[String],
    state: RunState,
    event: Event,
) -> (r: (RunState, Action))
    ensures
        (r.0, r.1@) == run_step(extension_name@, strings_view(args@), state, event@),
{
    manager.run_extension(extension_name, args, state, event)
}

/// One step of the invocation of the extension behind the nested command
/// `extension_cmd` of the `pactflow` command.
pub fn run_pactflow_extension(
    manager: &ExtensionManager,
    extension_cmd: &str,
    args: &[String],
    state: RunState,
    event: Event,
) -> (r: (RunState, Action))
    ensures
        (r.0, r.1@) == run_step(
            pactflow_extension_name(extension_cmd@),
            strings_view(args@),
            state,
            event@,
        ),
{
    let binary_name = join2("pactflow-", extension_cmd);
    manager.run_extension(binary_name.as_str(), args, state, event)
}

} // verus!
