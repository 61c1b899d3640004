//! The loader of a shim: it opens the real library and resolves every slot,
//! or fails without having touched any.
//!
//! Opening a library and looking a symbol up are the host's business. The
//! loader decides what is to be done next: it hands out one action at a time
//! and is told what came of it.

use vstd::prelude::*;
use vstd::string::*;
use crate::reconcile::ReconciledPlan;
use crate::text::join;
use crate::symbols::{
    all_resolved, all_trapped, declared_slots, resolved_slots, slot_exports, SlotView, SymbolTable,
};

verus! {

/// How far the loading has come.
#[derive(Clone, Copy, Debug, PartialEq, Eq, Structural)]
pub enum LoaderState {
    /// Nothing has been asked for yet.
    Idle,
    /// The library is being opened.
    Opening,
    /// The library is open and its symbols are being looked up.
    Resolving,
    /// Every slot holds the address of its export.
    Ready,
    /// The loading has failed.
    Failed,
}

/// What the host reports to the loader.
#[derive(Debug)]
pub enum LoaderEvent {
    /// The program asks for the library to be loaded.
    Start,
    /// The library has been opened.
    Opened,
    /// The library could not be opened.
    OpenFailed { reason: String },
    /// The symbol that was asked for lies at this address.
    Resolved { address: usize },
    /// The symbol that was asked for is not in the library.
    Missing { reason: String },
}

/// Why the loading failed.
#[derive(Debug)]
pub enum LoadError {
    /// The library at `path` could not be opened.
    Open { path: String, reason: String },
    /// The library does not hold the symbol of `export`.
    Symbol { export: String, reason: String },
}

/// What the loader asks of the host.
#[derive(Debug)]
pub enum LoaderAction {
    /// Open the library at this path.
    Open { path: String },
    /// Look up the symbol of this export in the open library.
    Resolve { export: String },
    /// Nothing is left to do: the slots are resolved.
    Done,
    /// Stop the program with this error.
    Fatal(LoadError),
    /// The report does not answer what the loader asked for; nothing changed.
    Rejected,
}

/// The mathematical value of a [`LoaderEvent`].
pub enum EventView {
    Start,
    Opened,
    OpenFailed { reason: Seq<char> },
    Resolved { address: usize },
    Missing { reason: Seq<char> },
}

/// The mathematical value of a [`LoadError`].
pub enum LoadFault {
    Open { path: Seq<char>, reason: Seq<char> },
    Symbol { export: Seq<char>, reason: Seq<char> },
}

/// The mathematical value of a [`LoaderAction`].
pub enum ActionView {
    Open { path: Seq<char> },
    Resolve { export: Seq<char> },
    Done,
    Fatal(LoadFault),
    Rejected,
}

impl View for LoaderEvent {
    type V = EventView;

    open spec fn view(&self) -> EventView {
        match *self {
            LoaderEvent::Start => EventView::Start,
            LoaderEvent::Opened => EventView::Opened,
            LoaderEvent::OpenFailed { reason } => EventView::OpenFailed { reason: reason@ },
            LoaderEvent::Resolved { address } => EventView::Resolved { address },
            LoaderEvent::Missing { reason } => EventView::Missing { reason: reason@ },
        }
    }
}

impl View for LoadError {
    type V = LoadFault;

    open spec fn view(&self) -> LoadFault {
        match *self {
            LoadError::Open { path, reason } => LoadFault::Open { path: path@, reason: reason@ },
            LoadError::Symbol { export, reason } => LoadFault::Symbol {
                export: export@,
                reason: reason@,
            },
        }
    }
}

impl View for LoaderAction {
    type V = ActionView;

    open spec fn view(&self) -> ActionView {
        match *self {
            LoaderAction::Open { path } => ActionView::Open { path: path@ },
            LoaderAction::Resolve { export } => ActionView::Resolve { export: export@ },
            LoaderAction::Done => ActionView::Done,
            LoaderAction::Fatal(e) => ActionView::Fatal(e@),
            LoaderAction::Rejected => ActionView::Rejected,
        }
    }
}

impl LoadError {
    /// The words of the error.
    pub open spec fn spec_message(fault: LoadFault) -> Seq<char> {
        match fault {
            LoadFault::Open { path, reason } => "Failed to load library `"@ + path + "`: "@
                + reason,
            LoadFault::Symbol { export, reason } => "Failed to get symbol `"@ + export + "`: "@
                + reason,
        }
    }

    /// The words of the error: what could not be had, and why.
    pub fn message(&self) -> (r: String)
        ensures
            r@ == Self::spec_message(self@),
    {
        match self {
            LoadError::Open { path, reason } => {
                let mut r = join("Failed to load library `", path.as_str());
                r.append("`: ");
                r.append(reason.as_str());
                r
            },
            LoadError::Symbol { export, reason } => {
                let mut r = join("Failed to get symbol `", export.as_str());
                r.append("`: ");
                r.append(reason.as_str());
                r
            },
        }
    }
}

/// The mathematical value of a [`Loader`].
pub struct LoaderView {
    /// The slots and what they hold.
    pub slots: Seq<SlotView>,
    /// Where the real library lies.
    pub path: Seq<char>,
    /// How far the loading has come.
    pub state: LoaderState,
    /// The addresses found so far, in the order of the slots. They reach the
    /// slots only when none is missing.
    pub staged: Seq<usize>,
}

/// The loader of a shim.
#[derive(Debug)]
pub struct Loader {
    table: SymbolTable,
    path: String,
    state: LoaderState,
    staged: Vec<usize>,
}

/// What holds of a loader at every time: unless it is ready every slot holds
/// its trap, and once it is ready none does. Addresses are staged only while
/// symbols are looked up, and then one slot at least is still without one.
pub open spec fn loader_wf(v: LoaderView) -> bool {
    match v.state {
        LoaderState::Idle | LoaderState::Opening | LoaderState::Failed => all_trapped(v.slots)
            && v.staged.len() == 0,
        LoaderState::Resolving => all_trapped(v.slots) && v.staged.len() < v.slots.len(),
        LoaderState::Ready => all_resolved(v.slots) && v.staged.len() == 0,
    }
}

/// The loader as it is made for the slots of these exports.
pub open spec fn initial_loader(exports: Seq<Seq<char>>, path: Seq<char>) -> LoaderView {
    LoaderView {
        slots: declared_slots(exports),
        path,
        state: LoaderState::Idle,
        staged: Seq::empty(),
    }
}

/// One step of the loader: the loader after a report, and what it asks for
/// next.
pub open spec fn spec_step(v: LoaderView, event: EventView) -> (LoaderView, ActionView) {
    match (v.state, event) {
        (LoaderState::Idle, EventView::Start) => (
            LoaderView { state: LoaderState::Opening, ..v },
            ActionView::Open { path: v.path },
        ),
        (LoaderState::Opening, EventView::Opened) => if v.slots.len() == 0 {
            (LoaderView { state: LoaderState::Ready, ..v }, ActionView::Done)
        } else {
            (
                LoaderView { state: LoaderState::Resolving, ..v },
                ActionView::Resolve { export: v.slots[0].export },
            )
        },
        (LoaderState::Opening, EventView::OpenFailed { reason }) => (
            LoaderView { state: LoaderState::Failed, ..v },
            ActionView::Fatal(LoadFault::Open { path: v.path, reason }),
        ),
        (LoaderState::Resolving, EventView::Resolved { address }) => {
            let staged = v.staged.push(address);
            if staged.len() == v.slots.len() {
                (
                    LoaderView {
                        slots: resolved_slots(v.slots, staged),
                        state: LoaderState::Ready,
                        staged: Seq::empty(),
                        ..v
                    },
                    ActionView::Done,
                )
            } else {
                (
                    LoaderView { staged, ..v },
                    ActionView::Resolve { export: v.slots[staged.len() as int].export },
                )
            }
        },
        (LoaderState::Resolving, EventView::Missing { reason }) => (
            LoaderView { state: LoaderState::Failed, staged: Seq::empty(), ..v },
            ActionView::Fatal(
                LoadFault::Symbol { export: v.slots[v.staged.len() as int].export, reason },
            ),
        ),
        _ => (v, ActionView::Rejected),
    }
}

/// The loader after a run of reports.
pub open spec fn spec_run(v: LoaderView, events: Seq<EventView>) -> LoaderView
    decreases events.len(),
{
    if events.len() == 0 {
        v
    } else {
        spec_step(spec_run(v, events.drop_last()), events.last()).0
    }
}

/// A step keeps what holds of a loader at every time, and never changes the
/// exports of the slots or the path.
pub proof fn lemma_step_keeps_wf(v: LoaderView, event: EventView)
    requires
        loader_wf(v),
    ensures
        loader_wf(spec_step(v, event).0),
        spec_step(v, event).0.path == v.path,
        spec_step(v, event).0.slots.len() == v.slots.len(),
        forall|i: int|
            0 <= i < v.slots.len() ==> (#[trigger] spec_step(v, event).0.slots[i]).export
                == v.slots[i].export,
{
}

/// Whatever is reported to a new loader, in whatever order: as long as it is
/// not ready a call through any slot fails as not loaded, and once it is
/// ready every slot holds an address and a call through it goes there.
pub proof fn lemma_slots_trap_until_ready(
    exports: Seq<Seq<char>>,
    path: Seq<char>,
    events: Seq<EventView>,
)
    ensures
        ({
            let v = spec_run(initial_loader(exports, path), events);
            &&& loader_wf(v)
            &&& v.slots.len() == exports.len()
            &&& forall|i: int|
                0 <= i < v.slots.len() ==> (#[trigger] v.slots[i]).export == exports[i]
            &&& forall|i: int|
                0 <= i < v.slots.len() ==> ((#[trigger] v.slots[i]).value.spec_invoke() is Ok
                    <==> v.state == LoaderState::Ready)
        }),
    decreases events.len(),
{
    let start = initial_loader(exports, path);
    if events.len() == 0 {
    } else {
        lemma_slots_trap_until_ready(exports, path, events.drop_last());
        let before = spec_run(start, events.drop_last());
        lemma_step_keeps_wf(before, events.last());
        let v = spec_run(start, events);
        assert forall|i: int| 0 <= i < v.slots.len() implies (#[trigger] v.slots[i]).export
            == exports[i] by {
            assert(v.slots[i].export == before.slots[i].export);
        }
    }
}

/// A failure leaves every slot as it was, and so with its trap: a library
/// that cannot be opened and a symbol that is missing both end the loading
/// with an error that names what was asked for.
pub proof fn lemma_failure_mutates_nothing(v: LoaderView, event: EventView)
    requires
        loader_wf(v),
        spec_step(v, event).1 is Fatal,
    ensures
        spec_step(v, event).0.slots == v.slots,
        all_trapped(v.slots),
        spec_step(v, event).0.state == LoaderState::Failed,
        match spec_step(v, event).1->Fatal_0 {
            LoadFault::Open { path, reason } => v.state == LoaderState::Opening && path == v.path
                && event == (EventView::OpenFailed { reason }),
            LoadFault::Symbol { export, reason } => v.state == LoaderState::Resolving && export
                == v.slots[v.staged.len() as int].export && event == (EventView::Missing {
                reason,
            }),
        },
{
}

impl View for Loader {
    type V = LoaderView;

    closed spec fn view(&self) -> LoaderView {
        LoaderView {
            slots: self.table@,
            path: self.path@,
            state: self.state,
            staged: self.staged@,
        }
    }
}

impl Loader {
    #[verifier::type_invariant]
    spec fn inv(self) -> bool {
        loader_wf(self@)
    }

    /// A loader for the slots of a plan and the path of the real library.
    /// Nothing is loaded yet: every slot holds its trap.
    pub fn new(plan: &ReconciledPlan, path: &str) -> (loader: Loader)
        ensures
            loader@ == initial_loader(slot_exports(plan@), path@),
            loader_wf(loader@),
    {
        Loader {
            table: SymbolTable::declare(plan),
            path: String::from_str(path),
            state: LoaderState::Idle,
            staged: Vec::new(),
        }
    }

    /// How far the loading has come.
    pub fn state(&self) -> (s: LoaderState)
        ensures
            s == self@.state,
            loader_wf(self@),
    {
        proof {
            use_type_invariant(self);
        }
        self.state
    }

    /// The slots and what they hold.
    pub fn table(&self) -> (table: &SymbolTable)
        ensures
            table@ == self@.slots,
            loader_wf(self@),
    {
        proof {
            use_type_invariant(self);
        }
        &self.table
    }

    /// Takes a report and gives the loader after it, with what is to be done
    /// next.
    ///
    /// The first request opens the library. Once it is open its symbols are
    /// looked up one by one, in the order of the slots, and the addresses are
    /// kept aside: they reach the slots together, when the last has been
    /// found. A library that cannot be opened and a symbol that is missing
    /// are fatal and leave every slot with its trap. A report that does not
    /// answer what was asked for changes nothing.
    pub fn step(self, event: LoaderEvent) -> (r: (Loader, LoaderAction))
        ensures
            (r.0@, r.1@) == spec_step(self@, event@),
            loader_wf(r.0@),
    {
        proof {
            use_type_invariant(&self);
            lemma_step_keeps_wf(self@, event@);
        }
        let Loader { table, path, state, staged } = self;
        let mut table = table;
        let mut staged = staged;
        match (state, event) {
            (LoaderState::Idle, LoaderEvent::Start) => {
                let action = LoaderAction::Open { path: path.clone() };
                (Loader { table, path, state: LoaderState::Opening, staged }, action)
            },
            (LoaderState::Opening, LoaderEvent::Opened) => {
                if table.len() == 0 {
                    (Loader { table, path, state: LoaderState::Ready, staged }, LoaderAction::Done)
                } else {
                    let action = LoaderAction::Resolve { export: table.slot(0).export.clone() };
                    (Loader { table, path, state: LoaderState::Resolving, staged }, action)
                }
            },
            (LoaderState::Opening, LoaderEvent::OpenFailed { reason }) => {
                let action = LoaderAction::Fatal(LoadError::Open { path: path.clone(), reason });
                (Loader { table, path, state: LoaderState::Failed, staged }, action)
            },
            (LoaderState::Resolving, LoaderEvent::Resolved { address }) => {
                staged.push(address);
                if staged.len() == table.len() {
                    table.install(&staged);
                    (
                        Loader { table, path, state: LoaderState::Ready, staged: Vec::new() },
                        LoaderAction::Done,
                    )
                } else {
                    let action = LoaderAction::Resolve {
                        export: table.slot(staged.len()).export.clone(),
                    };
                    (Loader { table, path, state: LoaderState::Resolving, staged }, action)
                }
            },
            (LoaderState::Resolving, LoaderEvent::Missing { reason }) => {
                let export = table.slot(staged.len()).export.clone();
                let action = LoaderAction::Fatal(LoadError::Symbol { export, reason });
                (Loader { table, path, state: LoaderState::Failed, staged: Vec::new() }, action)
            },
            (state, _) => (Loader { table, path, state, staged }, LoaderAction::Rejected),
        }
    }
}

} // verus!
