//! Reconciling the exports of a library with the names that the caller
//! implements by hand.

use vstd::prelude::*;
use vstd::string::*;
use crate::text::join;

verus! {

/// The exports of a library, parted into those that are passed through and
/// those that the caller replaces.
#[derive(Debug)]
pub struct ReconciledPlan {
    /// The exports that are forwarded to the real library, in the order of the
    /// export table.
    pub forwarded: Vec<String>,
    /// The exports that the caller implements, in the order of the caller's
    /// declaration.
    pub overridden: Vec<String>,
}

/// The mathematical value of a [`ReconciledPlan`].
pub struct PlanView {
    pub forwarded: Seq<Seq<char>>,
    pub overridden: Seq<Seq<char>>,
}

impl View for ReconciledPlan {
    type V = PlanView;

    open spec fn view(&self) -> PlanView {
        PlanView { forwarded: self.forwarded.deep_view(), overridden: self.overridden.deep_view() }
    }
}

/// Why the exports and the declared overrides do not fit together.
#[derive(Debug)]
pub enum ReconcileError {
    /// The override at `position` of the declaration is no export.
    NotFound { name: String, position: usize },
    /// The export at `index` of the export table bears the name of an
    /// earlier one.
    RepeatedExport { name: String, index: usize },
    /// The override at `position` of the declaration was declared before.
    RepeatedOverride { name: String, position: usize },
}

/// The mathematical value of a [`ReconcileError`].
pub enum ReconcileFault {
    NotFound { name: Seq<char>, position: int },
    RepeatedExport { name: Seq<char>, index: int },
    RepeatedOverride { name: Seq<char>, position: int },
}

impl View for ReconcileError {
    type V = ReconcileFault;

    open spec fn view(&self) -> ReconcileFault {
        match *self {
            ReconcileError::RepeatedExport { name, index } => ReconcileFault::RepeatedExport {
                name: name@,
                index: index as int,
            },
            ReconcileError::NotFound { name, position } => ReconcileFault::NotFound {
                name: name@,
                position: position as int,
            },
            ReconcileError::RepeatedOverride { name, position } => ReconcileFault::RepeatedOverride {
                name: name@,
                position: position as int,
            },
        }
    }
}

impl ReconcileError {
    /// The words of the error.
    pub open spec fn spec_message(fault: ReconcileFault) -> Seq<char> {
        match fault {
            ReconcileFault::RepeatedExport { name, .. } => "Export `"@ + name
                + "` occurs more than once in library"@,
            ReconcileFault::NotFound { name, .. } => "Export `"@ + name
                + "` not found in library"@,
            ReconcileFault::RepeatedOverride { name, .. } => "Export `"@ + name
                + "` is implemented more than once"@,
        }
    }

    /// The words of the error.
    pub fn message(&self) -> (r: String)
        ensures
            r@ == Self::spec_message(self@),
    {
        match self {
            ReconcileError::RepeatedExport { name, .. } => {
                let mut r = join("Export `", name.as_str());
                r.append("` occurs more than once in library");
                r
            },
            ReconcileError::NotFound { name, .. } => {
                let mut r = join("Export `", name.as_str());
                r.append("` not found in library");
                r
            },
            ReconcileError::RepeatedOverride { name, .. } => {
                let mut r = join("Export `", name.as_str());
                r.append("` is implemented more than once");
                r
            },
        }
    }
}

/// The name at `k` is the first that stood at an earlier place.
pub open spec fn first_repeat(names: Seq<Seq<char>>, k: int) -> bool {
    &&& 0 <= k < names.len()
    &&& names.take(k).contains(names[k])
    &&& names.take(k).no_duplicates()
}

/// Whether `r` is the outcome of reconciling exports and overrides. The
/// first override that is no export is refused before anything else,
/// whatever the exports are; then an export that occurs twice; then an
/// override that is declared twice. Otherwise the exports are parted.
pub open spec fn reconciles_to(
    exports: Seq<Seq<char>>,
    overrides: Seq<Seq<char>>,
    r: Result<PlanView, ReconcileFault>,
) -> bool {
    match r {
        Ok(plan) => all_present(exports, overrides) && exports.no_duplicates()
            && overrides.no_duplicates() && plan == spec_plan(exports, overrides),
        Err(ReconcileFault::NotFound { name, position }) => first_missing(
            exports,
            overrides,
            position,
        ) && name == overrides[position],
        Err(ReconcileFault::RepeatedExport { name, index }) => all_present(exports, overrides)
            && first_repeat(exports, index) && name == exports[index],
        Err(ReconcileFault::RepeatedOverride { name, position }) => all_present(
            exports,
            overrides,
        ) && exports.no_duplicates() && first_repeat(overrides, position) && name
            == overrides[position],
    }
}

pub open spec fn plan_result_view(r: Result<ReconciledPlan, ReconcileError>) -> Result<
    PlanView,
    ReconcileFault,
> {
    match r {
        Ok(plan) => Ok(plan@),
        Err(e) => Err(e@),
    }
}

/// Every declared override is an export.
pub open spec fn all_present(exports: Seq<Seq<char>>, overrides: Seq<Seq<char>>) -> bool {
    forall|j: int| 0 <= j < overrides.len() ==> exports.contains(#[trigger] overrides[j])
}

/// The override at `k` is the first that is no export.
pub open spec fn first_missing(exports: Seq<Seq<char>>, overrides: Seq<Seq<char>>, k: int) -> bool {
    &&& 0 <= k < overrides.len()
    &&& !exports.contains(overrides[k])
    &&& forall|j: int| 0 <= j < k ==> exports.contains(#[trigger] overrides[j])
}

/// The exports that are left to forward: those that are not overridden, in
/// their order.
pub open spec fn spec_forwarded(exports: Seq<Seq<char>>, overrides: Seq<Seq<char>>) -> Seq<
    Seq<char>,
> {
    exports.filter(|name: Seq<char>| !overrides.contains(name))
}

/// The plan for a set of exports and a set of overrides that are all exports.
pub open spec fn spec_plan(exports: Seq<Seq<char>>, overrides: Seq<Seq<char>>) -> PlanView {
    PlanView { forwarded: spec_forwarded(exports, overrides), overridden: overrides }
}

/// An export is forwarded exactly if it is not overridden.
pub proof fn lemma_forwarded_contains(
    exports: Seq<Seq<char>>,
    overrides: Seq<Seq<char>>,
    name: Seq<char>,
)
    ensures
        spec_forwarded(exports, overrides).contains(name) <==> exports.contains(name)
            && !overrides.contains(name),
{
    let keep = |n: Seq<char>| !overrides.contains(n);
    let kept = exports.filter(keep);
    if kept.contains(name) {
        let i = choose|i: int| 0 <= i < kept.len() && kept[i] == name;
        exports.lemma_filter_pred(keep, i);
        exports.lemma_filter_contains_rev(keep, name);
    }
    if exports.contains(name) && !overrides.contains(name) {
        let i = choose|i: int| 0 <= i < exports.len() && exports[i] == name;
        exports.lemma_filter_contains(keep, i);
    }
}

/// Where every override is an export, the two parts of the plan share no
/// name, and together they hold the exports and nothing else.
pub proof fn lemma_plan_partitions_exports(exports: Seq<Seq<char>>, overrides: Seq<Seq<char>>)
    requires
        all_present(exports, overrides),
    ensures
        ({
            let plan = spec_plan(exports, overrides);
            &&& forall|name: Seq<char>|
                !(plan.forwarded.contains(name) && plan.overridden.contains(name))
            &&& forall|name: Seq<char>|
                exports.contains(name) <==> plan.forwarded.contains(name)
                    || plan.overridden.contains(name)
            &&& plan.forwarded.to_set().disjoint(plan.overridden.to_set())
            &&& plan.forwarded.to_set().union(plan.overridden.to_set()) == exports.to_set()
        }),
{
    let plan = spec_plan(exports, overrides);
    assert forall|name: Seq<char>|
        !(plan.forwarded.contains(name) && plan.overridden.contains(name)) && (exports.contains(
            name,
        ) <==> plan.forwarded.contains(name) || plan.overridden.contains(name)) by {
        lemma_forwarded_contains(exports, overrides, name);
        if overrides.contains(name) {
            let j = choose|j: int| 0 <= j < overrides.len() && overrides[j] == name;
            assert(exports.contains(overrides[j]));
        }
    }
    assert(plan.forwarded.to_set().union(plan.overridden.to_set()) =~= exports.to_set());
}

/// `places` sends each name of `part` to a place of its own in `whole`, a
/// later name to a later place.
pub open spec fn keeps_order(whole: Seq<Seq<char>>, part: Seq<Seq<char>>, places: Seq<int>) -> bool {
    &&& places.len() == part.len()
    &&& forall|i: int|
        0 <= i < places.len() ==> 0 <= #[trigger] places[i] < whole.len() && whole[places[i]]
            == part[i]
    &&& forall|i: int, j: int|
        0 <= i < j < places.len() ==> #[trigger] places[i] < #[trigger] places[j]
}

/// The forwarded exports keep the order of the export table: each comes
/// from a place of its own in the table, a later one from a later place.
pub proof fn lemma_forwarded_keeps_order(exports: Seq<Seq<char>>, overrides: Seq<Seq<char>>)
    ensures
        exists|places: Seq<int>|
            keeps_order(exports, spec_forwarded(exports, overrides), places),
    decreases exports.len(),
{
    reveal(Seq::filter);
    let keep = |n: Seq<char>| !overrides.contains(n);
    let forwarded = spec_forwarded(exports, overrides);
    if exports.len() == 0 {
        assert(keeps_order(exports, forwarded, Seq::<int>::empty()));
    } else {
        let front = exports.drop_last();
        lemma_forwarded_keeps_order(front, overrides);
        let before = spec_forwarded(front, overrides);
        let found = choose|places: Seq<int>| keeps_order(front, before, places);
        let places = if keep(exports.last()) {
            found.push(exports.len() - 1)
        } else {
            found
        };
        assert forall|i: int| 0 <= i < places.len() implies 0 <= #[trigger] places[i]
            < exports.len() && exports[places[i]] == forwarded[i] by {
            if i < found.len() {
                assert(front[found[i]] == before[i]);
            }
        }
        assert forall|i: int, j: int| 0 <= i < j < places.len() implies #[trigger] places[i]
            < #[trigger] places[j] by {
            if j < found.len() {
                assert(found[i] < found[j]);
            } else {
                assert(found[i] < front.len());
            }
        }
        assert(keeps_order(exports, forwarded, places));
    }
}

/// An override that is no export makes the reconciliation fail, and exactly
/// one place in the declaration is the first whose name is missing: none
/// after the given one.
pub proof fn lemma_missing_override_found(
    exports: Seq<Seq<char>>,
    overrides: Seq<Seq<char>>,
    k: int,
)
    requires
        0 <= k < overrides.len(),
        !exports.contains(overrides[k]),
    ensures
        !all_present(exports, overrides),
        exists|m: int| 0 <= m <= k && first_missing(exports, overrides, m),
        forall|m: int, n: int|
            first_missing(exports, overrides, m) && first_missing(exports, overrides, n) ==> m
                == n,
    decreases k,
{
    if forall|j: int| 0 <= j < k ==> exports.contains(#[trigger] overrides[j]) {
        assert(first_missing(exports, overrides, k));
    } else {
        let j = choose|j: int| 0 <= j < k && !exports.contains(#[trigger] overrides[j]);
        lemma_missing_override_found(exports, overrides, j);
        let m = choose|m: int| 0 <= m <= j && first_missing(exports, overrides, m);
        assert(0 <= m <= k && first_missing(exports, overrides, m));
    }
    assert forall|m: int, n: int|
        first_missing(exports, overrides, m) && first_missing(exports, overrides, n) implies m
        == n by {
        if m < n {
            assert(exports.contains(overrides[m]));
        } else if n < m {
            assert(exports.contains(overrides[n]));
        }
    }
}

/// An override that is no export makes the reconciliation fail, whatever the
/// exports and the other overrides are, and the error names the first
/// override that is no export: none that is an export, and none behind the
/// given one.
pub proof fn lemma_missing_override_named(
    exports: Seq<Seq<char>>,
    overrides: Seq<Seq<char>>,
    k: int,
    r: Result<PlanView, ReconcileFault>,
)
    requires
        0 <= k < overrides.len(),
        !exports.contains(overrides[k]),
        reconciles_to(exports, overrides, r),
    ensures
        r matches Err(ReconcileFault::NotFound { name, position }) && 0 <= position <= k
            && name == overrides[position] && !exports.contains(name) && first_missing(
            exports,
            overrides,
            position,
        ),
{
    lemma_missing_override_found(exports, overrides, k);
    match r {
        Err(ReconcileFault::NotFound { name, position }) => {
            let m = choose|m: int| 0 <= m <= k && first_missing(exports, overrides, m);
            assert(m == position);
        },
        _ => {},
    }
}

/// Whether a list of names holds a given name.
pub fn contains_name(names: &Vec<String>, name: &String) -> (r: bool)
    ensures
        r == names.deep_view().contains(name@),
{
    let mut i: usize = 0;
    while i < names.len()
        invariant
            0 <= i <= names.len(),
            forall|j: int| 0 <= j < i ==> (#[trigger] names.deep_view()[j]) != name@,
        decreases names.len() - i,
    {
        assert(names.deep_view()[i as int] == names[i as int]@);
        if names[i] == *name {
            return true;
        }
        i += 1;
    }
    false
}

/// The place of the first name of `wanted` that `names` does not hold, if
/// there is one.
pub fn find_missing(names: &Vec<String>, wanted: &Vec<String>) -> (r: Option<usize>)
    ensures
        match r {
            Some(k) => first_missing(names.deep_view(), wanted.deep_view(), k as int),
            None => all_present(names.deep_view(), wanted.deep_view()),
        },
{
    let mut k: usize = 0;
    while k < wanted.len()
        invariant
            0 <= k <= wanted.len(),
            forall|j: int|
                0 <= j < k ==> names.deep_view().contains(#[trigger] wanted.deep_view()[j]),
        decreases wanted.len() - k,
    {
        assert(wanted.deep_view()[k as int] == wanted[k as int]@);
        if !contains_name(names, &wanted[k]) {
            return Some(k);
        }
        k += 1;
    }
    None
}

/// Exports and overrides have exactly one outcome.
pub proof fn lemma_reconciliation_determined(
    exports: Seq<Seq<char>>,
    overrides: Seq<Seq<char>>,
    a: Result<PlanView, ReconcileFault>,
    b: Result<PlanView, ReconcileFault>,
)
    requires
        reconciles_to(exports, overrides, a),
        reconciles_to(exports, overrides, b),
    ensures
        a == b,
{
    lemma_repeat_determined(exports);
    lemma_repeat_determined(overrides);
    assert forall|m: int, n: int|
        first_missing(exports, overrides, m) && first_missing(exports, overrides, n) implies m
        == n by {
        if m < n {
            assert(exports.contains(overrides[m]));
        } else if n < m {
            assert(exports.contains(overrides[n]));
        }
    }
    if exists|m: int| first_missing(exports, overrides, m) {
        let m = choose|m: int| first_missing(exports, overrides, m);
        assert(!exports.contains(overrides[m]));
        assert(!all_present(exports, overrides));
    }
}

/// A list of names has at most one first repeat, and none where no name
/// occurs twice.
pub proof fn lemma_repeat_determined(names: Seq<Seq<char>>)
    ensures
        forall|m: int, n: int| first_repeat(names, m) && first_repeat(names, n) ==> m == n,
        names.no_duplicates() ==> forall|m: int| !first_repeat(names, m),
{
    assert forall|m: int, n: int| first_repeat(names, m) && first_repeat(names, n) implies m
        == n by {
        if m < n {
            lemma_repeat_breaks_prefix(names, m, n);
        } else if n < m {
            lemma_repeat_breaks_prefix(names, n, m);
        }
    }
    if names.no_duplicates() {
        assert forall|m: int| !first_repeat(names, m) by {
            if first_repeat(names, m) {
                let j = choose|j: int| 0 <= j < names.take(m).len() && names.take(m)[j] == names[m];
                assert(names[j] == names[m]);
            }
        }
    }
}

/// Behind a repeat no prefix is free of repeats.
proof fn lemma_repeat_breaks_prefix(names: Seq<Seq<char>>, m: int, n: int)
    requires
        first_repeat(names, m),
        m < n <= names.len(),
    ensures
        !names.take(n).no_duplicates(),
{
    let j = choose|j: int| 0 <= j < names.take(m).len() && names.take(m)[j] == names[m];
    assert(names.take(n)[j] == names.take(n)[m]);
}

/// The first place of a list of names whose name stood at an earlier place,
/// if there is one.
pub fn find_repeat(names: &Vec<String>) -> (r: Option<usize>)
    ensures
        match r {
            Some(k) => first_repeat(names.deep_view(), k as int),
            None => names.deep_view().no_duplicates(),
        },
{
    let ghost view = names.deep_view();
    let mut k: usize = 0;
    while k < names.len()
        invariant
            0 <= k <= names.len(),
            view == names.deep_view(),
            view.take(k as int).no_duplicates(),
        decreases names.len() - k,
    {
        let mut j: usize = 0;
        while j < k
            invariant
                0 <= j <= k < names.len(),
                view == names.deep_view(),
                view.take(k as int).no_duplicates(),
                forall|i: int| 0 <= i < j ==> #[trigger] view[i] != view[k as int],
            decreases k - j,
        {
            assert(view[j as int] == names[j as int]@);
            assert(view[k as int] == names[k as int]@);
            if names[j] == names[k] {
                assert(view.take(k as int)[j as int] == view[k as int]);
                return Some(k);
            }
            j += 1;
        }
        proof {
            let before = view.take(k as int);
            let next = view.take(k as int + 1);
            assert forall|a: int, b: int|
                0 <= a < next.len() && 0 <= b < next.len() && a != b implies #[trigger] next[a]
                != #[trigger] next[b] by {
                if a < k && b < k {
                    assert(before[a] != before[b]);
                }
            }
        }
        k += 1;
    }
    assert(view.take(k as int) =~= view);
    None
}

/// Parts the exports of a library into those to forward and those that the
/// caller overrides.
///
/// Every declared override must be an export, no export may occur twice, and
/// no override may be declared twice: the first name that breaks one of
/// these, in this order, ends the reconciliation, and the error names it. So
/// an override that is no export is named whatever else is wrong. Otherwise the
/// forwarded exports are the exports that are not overridden, in the order of
/// the export table, and the overridden ones are the declared overrides in
/// the order of the declaration.
pub fn reconcile(exports: &Vec<String>, overrides: &Vec<String>) -> (r: Result<
    ReconciledPlan,
    ReconcileError,
>)
    ensures
        reconciles_to(exports.deep_view(), overrides.deep_view(), plan_result_view(r)),
{
    match find_missing(exports, overrides) {
        Some(k) => {
            assert(overrides.deep_view()[k as int] == overrides[k as int]@);
            return Err(ReconcileError::NotFound { name: overrides[k].clone(), position: k });
        },
        None => {},
    }
    match find_repeat(exports) {
        Some(k) => {
            assert(exports.deep_view()[k as int] == exports[k as int]@);
            return Err(ReconcileError::RepeatedExport { name: exports[k].clone(), index: k });
        },
        None => {},
    }
    match find_repeat(overrides) {
        Some(k) => {
            assert(overrides.deep_view()[k as int] == overrides[k as int]@);
            return Err(
                ReconcileError::RepeatedOverride { name: overrides[k].clone(), position: k },
            );
        },
        None => {},
    }
    let ghost all = exports.deep_view();
    let ghost taken = overrides.deep_view();
    let ghost keep = |name: Seq<char>| !taken.contains(name);
    let mut forwarded: Vec<String> = Vec::new();
    let mut i: usize = 0;
    proof {
        reveal(Seq::filter);
        assert(all.take(0).filter(keep) =~= forwarded.deep_view());
    }
    while i < exports.len()
        invariant
            0 <= i <= exports.len(),
            all == exports.deep_view(),
            taken == overrides.deep_view(),
            keep == |name: Seq<char>| !taken.contains(name),
            forwarded.deep_view() == all.take(i as int).filter(keep),
        decreases exports.len() - i,
    {
        let ghost before = forwarded.deep_view();
        assert(all[i as int] == exports[i as int]@);
        proof {
            reveal(Seq::filter);
            assert(all.take(i as int + 1).drop_last() =~= all.take(i as int));
        }
        if !contains_name(overrides, &exports[i]) {
            forwarded.push(exports[i].clone());
            assert(forwarded.deep_view() =~= before.push(all[i as int]));
        }
        i += 1;
    }
    assert(all.take(i as int) =~= all);
    let mut overridden: Vec<String> = Vec::new();
    let mut j: usize = 0;
    while j < overrides.len()
        invariant
            0 <= j <= overrides.len(),
            taken == overrides.deep_view(),
            overridden.deep_view() == taken.take(j as int),
        decreases overrides.len() - j,
    {
        let ghost before = overridden.deep_view();
        assert(taken[j as int] == overrides[j as int]@);
        overridden.push(overrides[j].clone());
        assert(overridden.deep_view() =~= before.push(taken[j as int]));
        assert(taken.take(j as int + 1) =~= taken.take(j as int).push(taken[j as int]));
        j += 1;
    }
    assert(taken.take(j as int) =~= taken);
    Ok(ReconciledPlan { forwarded, overridden })
}

} // verus!
