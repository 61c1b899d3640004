//! The symbol slots of a shim: one cell per export, which holds a trap until
//! the loader has resolved the export in the real library.

use vstd::prelude::*;
use vstd::string::*;
use crate::reconcile::{PlanView, ReconciledPlan};
use crate::text::join;

verus! {

/// The name of the slot of an export: the export's name behind two
/// underscores.
pub open spec fn spec_slot_ident(export: Seq<char>) -> Seq<char> {
    "__"@ + export
}

/// The name of the marker type of an overriding function.
pub open spec fn spec_symbol_marker(name: Seq<char>) -> Seq<char> {
    name + "_export_implementation"@
}

/// The name of the function that stands in for an overridden export until
/// the library is loaded.
pub open spec fn spec_stub_ident(name: Seq<char>) -> Seq<char> {
    name + "_stub_fn"@
}

/// The name of the slot that holds the resolved address of an export.
pub fn slot_ident(export: &str) -> (r: String)
    ensures
        r@ == spec_slot_ident(export@),
{
    join("__", export)
}

/// The name of the marker type that an overriding function must match.
pub fn get_symbol_marker(name: &str) -> (r: String)
    ensures
        r@ == spec_symbol_marker(name@),
{
    join(name, "_export_implementation")
}

/// The name of the stand-in of an overridden export.
pub fn stub_ident(name: &str) -> (r: String)
    ensures
        r@ == spec_stub_ident(name@),
{
    join(name, "_stub_fn")
}

/// The slot of an export never has the export's own name, and two exports
/// share a slot name only if they share their name.
pub proof fn lemma_slot_ident_distinct(a: Seq<char>, b: Seq<char>)
    ensures
        spec_slot_ident(a) != a,
        spec_slot_ident(a) == spec_slot_ident(b) <==> a == b,
{
    reveal_strlit("__");
    assert(spec_slot_ident(a).len() == a.len() + 2);
    if spec_slot_ident(a) == spec_slot_ident(b) {
        assert(spec_slot_ident(a).subrange(2, spec_slot_ident(a).len() as int) =~= a);
        assert(spec_slot_ident(b).subrange(2, spec_slot_ident(b).len() as int) =~= b);
    }
}

/// What a slot holds.
#[derive(Clone, Copy, Debug, PartialEq, Eq, Structural)]
pub enum SlotValue {
    /// The stand-in of a slot that has not been resolved: to call through it
    /// fails.
    Trap,
    /// The address of the export in the real library.
    Resolved(usize),
}

/// The failure of a call through a slot that still holds its trap.
#[derive(Clone, Copy, Debug, PartialEq, Eq, Structural)]
pub struct NotLoaded;

impl NotLoaded {
    /// The words of the failure.
    pub fn message(&self) -> (r: String)
        ensures
            r@ == "library was not loaded yet"@,
    {
        String::from_str("library was not loaded yet")
    }
}

impl SlotValue {
    /// The address that a call through the slot is sent to.
    pub open spec fn spec_invoke(self) -> Result<usize, NotLoaded> {
        match self {
            SlotValue::Trap => Err(NotLoaded),
            SlotValue::Resolved(address) => Ok(address),
        }
    }

    /// Calls through the slot: the address to transfer control to, or the
    /// failure of the trap.
    pub fn invoke(&self) -> (r: Result<usize, NotLoaded>)
        ensures
            r == self.spec_invoke(),
    {
        match *self {
            SlotValue::Trap => Err(NotLoaded),
            SlotValue::Resolved(address) => Ok(address),
        }
    }
}

/// One slot: the export it belongs to and what it holds.
#[derive(Debug)]
pub struct SymbolSlot {
    pub export: String,
    pub value: SlotValue,
}

/// The mathematical value of a [`SymbolSlot`].
pub struct SlotView {
    pub export: Seq<char>,
    pub value: SlotValue,
}

impl View for SymbolSlot {
    type V = SlotView;

    open spec fn view(&self) -> SlotView {
        SlotView { export: self.export@, value: self.value }
    }
}

/// The slots of a shim, in the order in which the loader resolves them: first
/// those of the overridden exports, then those of the forwarded ones.
#[derive(Debug)]
pub struct SymbolTable {
    slots: Vec<SymbolSlot>,
}

/// The exports that get a slot, in the order of their slots.
pub open spec fn slot_exports(plan: PlanView) -> Seq<Seq<char>> {
    plan.overridden + plan.forwarded
}

/// The slots as they are declared: one per export, each with its trap.
pub open spec fn declared_slots(exports: Seq<Seq<char>>) -> Seq<SlotView> {
    Seq::new(exports.len(), |i: int| SlotView { export: exports[i], value: SlotValue::Trap })
}

/// The slots with every trap replaced by the address at the same place.
pub open spec fn resolved_slots(slots: Seq<SlotView>, addresses: Seq<usize>) -> Seq<SlotView>
    recommends
        addresses.len() == slots.len(),
{
    Seq::new(
        slots.len(),
        |i: int| SlotView { export: slots[i].export, value: SlotValue::Resolved(addresses[i]) },
    )
}

/// Every slot holds its trap.
pub open spec fn all_trapped(slots: Seq<SlotView>) -> bool {
    forall|i: int| 0 <= i < slots.len() ==> (#[trigger] slots[i]).value == SlotValue::Trap
}

/// No slot holds its trap.
pub open spec fn all_resolved(slots: Seq<SlotView>) -> bool {
    forall|i: int| 0 <= i < slots.len() ==> (#[trigger] slots[i]).value != SlotValue::Trap
}

/// The place of the first slot of an export, if it has one.
pub open spec fn slot_place(slots: Seq<SlotView>, export: Seq<char>, place: Option<int>) -> bool {
    match place {
        Some(i) => 0 <= i < slots.len() && slots[i].export == export && forall|j: int|
            0 <= j < i ==> (#[trigger] slots[j]).export != export,
        None => forall|j: int| 0 <= j < slots.len() ==> (#[trigger] slots[j]).export != export,
    }
}

impl View for SymbolTable {
    type V = Seq<SlotView>;

    closed spec fn view(&self) -> Seq<SlotView> {
        Seq::new(self.slots.len() as nat, |i: int| self.slots[i]@)
    }
}

impl SymbolTable {
    /// Declares the slots of a plan: one for each overridden export, then one
    /// for each forwarded export, every one with its trap.
    ///
    /// A plan that the reconciliation gave names no export twice, and then
    /// every slot is the only one of its export. A plan that was put together
    /// otherwise gets a slot for each of its names all the same, and a name
    /// that it holds twice two slots, of which `find` gives the first.
    pub fn declare(plan: &ReconciledPlan) -> (table: SymbolTable)
        ensures
            table@ == declared_slots(slot_exports(plan@)),
            slot_exports(plan@).no_duplicates() ==> forall|i: int, j: int|
                0 <= i < j < table@.len() ==> (#[trigger] table@[i]).export != (
                #[trigger] table@[j]).export,
    {
        let ghost exports = slot_exports(plan@);
        let mut slots: Vec<SymbolSlot> = Vec::new();
        let mut i: usize = 0;
        while i < plan.overridden.len()
            invariant
                0 <= i <= plan.overridden.len(),
                exports == slot_exports(plan@),
                slots.len() == i,
                forall|j: int| 0 <= j < i ==> (#[trigger] slots[j])@ == declared_slots(exports)[j],
            decreases plan.overridden.len() - i,
        {
            assert(plan.overridden.deep_view()[i as int] == plan.overridden[i as int]@);
            slots.push(SymbolSlot { export: plan.overridden[i].clone(), value: SlotValue::Trap });
            i += 1;
        }
        let mut k: usize = 0;
        while k < plan.forwarded.len()
            invariant
                0 <= k <= plan.forwarded.len(),
                exports == slot_exports(plan@),
                slots.len() == plan.overridden.len() + k,
                forall|j: int|
                    0 <= j < slots.len() ==> (#[trigger] slots[j])@ == declared_slots(exports)[j],
            decreases plan.forwarded.len() - k,
        {
            assert(plan.forwarded.deep_view()[k as int] == plan.forwarded[k as int]@);
            slots.push(SymbolSlot { export: plan.forwarded[k].clone(), value: SlotValue::Trap });
            k += 1;
        }
        let table = SymbolTable { slots };
        assert(table@ =~= declared_slots(exports));
        table
    }

    /// The number of slots.
    pub fn len(&self) -> (n: usize)
        ensures
            n == self@.len(),
    {
        self.slots.len()
    }

    /// The slot at a place.
    pub fn slot(&self, place: usize) -> (slot: &SymbolSlot)
        requires
            place < self@.len(),
        ensures
            slot@ == self@[place as int],
    {
        &self.slots[place]
    }

    /// The place of the first slot of an export.
    pub fn find(&self, export: &str) -> (place: Option<usize>)
        ensures
            slot_place(
                self@,
                export@,
                match place {
                    Some(i) => Some(i as int),
                    None => None,
                },
            ),
    {
        let wanted = String::from_str(export);
        let mut i: usize = 0;
        while i < self.slots.len()
            invariant
                0 <= i <= self.slots.len(),
                wanted@ == export@,
                forall|j: int| 0 <= j < i ==> (#[trigger] self@[j]).export != export@,
            decreases self.slots.len() - i,
        {
            if self.slots[i].export == wanted {
                return Some(i);
            }
            i += 1;
        }
        None
    }

    /// Calls through the slot of an export: the address that control goes
    /// to, or the failure of the trap. An export without a slot gives `None`.
    pub fn invoke(&self, export: &str) -> (r: Option<Result<usize, NotLoaded>>)
        ensures
            match r {
                Some(outcome) => exists|i: int|
                    slot_place(self@, export@, Some(i)) && outcome == self@[i].value.spec_invoke(),
                None => slot_place(self@, export@, None),
            },
    {
        match self.find(export) {
            Some(i) => Some(self.slots[i].value.invoke()),
            None => None,
        }
    }

    /// Whether every slot has been resolved.
    pub fn is_loaded(&self) -> (r: bool)
        ensures
            r == all_resolved(self@),
    {
        let mut i: usize = 0;
        while i < self.slots.len()
            invariant
                0 <= i <= self.slots.len(),
                forall|j: int| 0 <= j < i ==> (#[trigger] self@[j]).value != SlotValue::Trap,
            decreases self.slots.len() - i,
        {
            match self.slots[i].value {
                SlotValue::Trap => {
                    assert(self@[i as int].value == SlotValue::Trap);
                    return false;
                },
                SlotValue::Resolved(_) => {},
            }
            i += 1;
        }
        true
    }

    /// Replaces what every slot holds by the address at the same place.
    pub(crate) fn install(&mut self, addresses: &Vec<usize>)
        requires
            addresses@.len() == old(self)@.len(),
        ensures
            final(self)@ == resolved_slots(old(self)@, addresses@),
    {
        let ghost before = self@;
        let mut i: usize = 0;
        while i < self.slots.len()
            invariant
                0 <= i <= self.slots.len(),
                self.slots.len() == before.len(),
                addresses@.len() == before.len(),
                forall|j: int|
                    0 <= j < i ==> (#[trigger] self.slots[j])@ == resolved_slots(
                        before,
                        addresses@,
                    )[j],
                forall|j: int| i <= j < before.len() ==> (#[trigger] self.slots[j])@ == before[j],
            decreases self.slots.len() - i,
        {
            let export = self.slots[i].export.clone();
            self.slots.set(i, SymbolSlot { export, value: SlotValue::Resolved(addresses[i]) });
            i += 1;
        }
        assert(self@ =~= resolved_slots(before, addresses@));
    }
}

/// Where no export occurs twice and no override occurs twice, every slot of
/// the plan has a name of its own.
pub proof fn lemma_slots_distinct(exports: Seq<Seq<char>>, overrides: Seq<Seq<char>>)
    requires
        exports.no_duplicates(),
        overrides.no_duplicates(),
    ensures
        ({
            let names = slot_exports(crate::reconcile::spec_plan(exports, overrides));
            forall|i: int, j: int|
                0 <= i < j < names.len() ==> spec_slot_ident(#[trigger] names[i])
                    != spec_slot_ident(#[trigger] names[j])
        }),
{
    let plan = crate::reconcile::spec_plan(exports, overrides);
    let names = slot_exports(plan);
    crate::reconcile::lemma_forwarded_keeps_order(exports, overrides);
    let places = choose|places: Seq<int>|
        crate::reconcile::keeps_order(exports, plan.forwarded, places);
    assert forall|i: int, j: int| 0 <= i < j < names.len() implies spec_slot_ident(
        #[trigger] names[i],
    ) != spec_slot_ident(#[trigger] names[j]) by {
        lemma_slot_ident_distinct(names[i], names[j]);
        let n = overrides.len() as int;
        if j < n {
        } else if i < n {
            crate::reconcile::lemma_forwarded_contains(exports, overrides, names[j]);
            assert(plan.forwarded[j - n] == names[j]);
            assert(plan.forwarded.contains(names[j]));
            assert(overrides.contains(names[i]));
        } else {
            assert(places[i - n] < places[j - n]);
            assert(exports[places[i - n]] == plan.forwarded[i - n]);
            assert(exports[places[j - n]] == plan.forwarded[j - n]);
        }
    }
}

/// A plan that the reconciliation gives has a slot of its own name for every
/// export.
pub proof fn lemma_reconciled_slots_distinct(
    exports: Seq<Seq<char>>,
    overrides: Seq<Seq<char>>,
    plan: PlanView,
)
    requires
        crate::reconcile::reconciles_to(exports, overrides, Ok(plan)),
    ensures
        slot_exports(plan).no_duplicates(),
        forall|i: int, j: int|
            0 <= i < j < slot_exports(plan).len() ==> spec_slot_ident(
                #[trigger] slot_exports(plan)[i],
            ) != spec_slot_ident(#[trigger] slot_exports(plan)[j]),
{
    lemma_slots_distinct(exports, overrides);
    let names = slot_exports(plan);
    assert forall|i: int, j: int|
        0 <= i < names.len() && 0 <= j < names.len() && i != j implies names[i] != names[j] by {
        if i < j {
            assert(spec_slot_ident(names[i]) != spec_slot_ident(names[j]));
        } else {
            assert(spec_slot_ident(names[j]) != spec_slot_ident(names[i]));
        }
    }
}

} // verus!
