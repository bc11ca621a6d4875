//! What a lifecycle operation asks of its caller, and what the caller
//! reports back.
//!
//! The operations of this library decide; they do no input or output. Each is
//! a step function: given the state of the operation and the [`Event`] that
//! answers the last [`Action`], it returns the next state and the next action.
//! The caller performs the action and hands back the event, until the action
//! is [`Action::Finish`], [`Action::Relay`] or [`Action::Fail`].

use crate::error::{ErrorView, ExtensionError};
use crate::registry::{ExtensionConfig, ExtensionRecord, PathSet, Registry};
use vstd::prelude::*;
use vstd::string::*;

verus! {

/// The character sequences of a sequence of strings.
pub open spec fn strings_view(v: Seq<String>) -> Seq<Seq<char>> {
    Seq::new(v.len(), |i: int| v[i]@)
}

/// The values of a sequence of records.
pub open spec fn records_view(v: Seq<ExtensionConfig>) -> Seq<ExtensionRecord> {
    Seq::new(v.len(), |i: int| v[i]@)
}

/// An alias to create: the path `target` is to stand for the file `source`.
#[derive(Debug)]
pub struct Alias {
    pub source: String,
    pub target: String,
}

/// The mathematical value of an [`Alias`].
pub struct AliasView {
    pub source: Seq<char>,
    pub target: Seq<char>,
}

impl View for Alias {
    type V = AliasView;

    open spec fn view(&self) -> AliasView {
        AliasView { source: self.source@, target: self.target@ }
    }
}

/// The values of a sequence of aliases.
pub open spec fn aliases_view(v: Seq<Alias>) -> Seq<AliasView> {
    Seq::new(v.len(), |i: int| v[i]@)
}

/// What the caller is to do next.
pub enum Action {
    /// Create the directory and its parents; an existing directory is fine.
    CreateDir { path: String },
    /// Request the address with the `User-Agent` header `user_agent`, and
    /// answer with [`Event::Text`]: the status and the body as text.
    FetchText { url: String, user_agent: String },
    /// Request the address, keep the body for the [`Action::WriteBody`] that
    /// follows, and answer with [`Event::Status`]: the status alone.
    Download { url: String },
    /// Write the body of the response just received to the path, and mark the
    /// file executable if `executable` is set.
    WriteBody { path: String, executable: bool },
    /// Run the program with the arguments and wait for it. The child inherits
    /// the standard streams.
    Run { program: String, args: Vec<String> },
    /// Report which of the paths exist.
    Probe { paths: Vec<String> },
    /// Create each alias, replacing whatever is at its target.
    Link { aliases: Vec<Alias> },
    /// Remove the files, then the directories with all they hold.
    Remove { files: Vec<String>, directories: Vec<String> },
    /// Read the persisted registry; a missing or unreadable document is the
    /// empty registry.
    LoadRegistry,
    /// Persist the registry.
    SaveRegistry { registry: Registry },
    /// The operation is complete.
    Finish,
    /// The operation is complete; the exit of the child is to be passed on.
    Relay { success: bool, code: Option<i32> },
    /// The operation failed.
    Fail { error: ExtensionError },
}

/// The mathematical value of an [`Action`].
pub enum ActionView {
    CreateDir { path: Seq<char> },
    FetchText { url: Seq<char>, user_agent: Seq<char> },
    Download { url: Seq<char> },
    WriteBody { path: Seq<char>, executable: bool },
    Run { program: Seq<char>, args: Seq<Seq<char>> },
    Probe { paths: Seq<Seq<char>> },
    Link { aliases: Seq<AliasView> },
    Remove { files: Seq<Seq<char>>, directories: Seq<Seq<char>> },
    LoadRegistry,
    SaveRegistry { registry: Map<Seq<char>, ExtensionRecord>, order: Seq<Seq<char>> },
    Finish,
    Relay { success: bool, code: Option<i32> },
    Fail { error: ErrorView },
}

impl View for Action {
    type V = ActionView;

    open spec fn view(&self) -> ActionView {
        match self {
            Action::CreateDir { path } => ActionView::CreateDir { path: path@ },
            Action::FetchText { url, user_agent } => ActionView::FetchText {
                url: url@,
                user_agent: user_agent@,
            },
            Action::Download { url } => ActionView::Download { url: url@ },
            Action::WriteBody { path, executable } => ActionView::WriteBody {
                path: path@,
                executable: *executable,
            },
            Action::Run { program, args } => ActionView::Run {
                program: program@,
                args: strings_view(args@),
            },
            Action::Probe { paths } => ActionView::Probe { paths: strings_view(paths@) },
            Action::Link { aliases } => ActionView::Link { aliases: aliases_view(aliases@) },
            Action::Remove { files, directories } => ActionView::Remove {
                files: strings_view(files@),
                directories: strings_view(directories@),
            },
            Action::LoadRegistry => ActionView::LoadRegistry,
            Action::SaveRegistry { registry } => ActionView::SaveRegistry {
                registry: registry@,
                order: registry.keys(),
            },
            Action::Finish => ActionView::Finish,
            Action::Relay { success, code } => ActionView::Relay { success: *success, code: *code },
            Action::Fail { error } => ActionView::Fail { error: error@ },
        }
    }
}

/// What the caller reports.
pub enum Event {
    /// The operation is to start.
    Begin,
    /// The last action was carried out.
    Done,
    /// The answer to [`Action::FetchText`].
    Text { status: u16, body: String },
    /// The answer to [`Action::Download`]; the body stays with the caller.
    Status { status: u16 },
    /// The program that was run has ended.
    Exit { success: bool, code: Option<i32> },
    /// Of the paths asked about, these exist.
    Present { paths: PathSet },
    /// The persisted registry.
    Loaded { registry: Registry },
    /// The last action could not be carried out.
    Failed { message: String },
}

/// The mathematical value of an [`Event`].
pub enum EventView {
    Begin,
    Done,
    Text { status: u16, body: Seq<char> },
    Status { status: u16 },
    Exit { success: bool, code: Option<i32> },
    Present { paths: Set<Seq<char>> },
    Loaded { registry: Map<Seq<char>, ExtensionRecord>, order: Seq<Seq<char>> },
    Failed { message: Seq<char> },
}

impl View for Event {
    type V = EventView;

    open spec fn view(&self) -> EventView {
        match self {
            Event::Begin => EventView::Begin,
            Event::Done => EventView::Done,
            Event::Text { status, body } => EventView::Text { status: *status, body: body@ },
            Event::Status { status } => EventView::Status { status: *status },
            Event::Exit { success, code } => EventView::Exit { success: *success, code: *code },
            Event::Present { paths } => EventView::Present { paths: paths@ },
            Event::Loaded { registry } => EventView::Loaded {
                registry: registry@,
                order: registry.keys(),
            },
            Event::Failed { message } => EventView::Failed { message: message@ },
        }
    }
}

/// Whether a status code stands for success.
pub open spec fn status_is_success(status: u16) -> bool {
    200 <= status < 300
}

/// Whether a status code stands for success.
pub fn is_success(status: u16) -> (r: bool)
    ensures
        r == status_is_success(status),
{
    200 <= status && status < 300
}

} // verus!
