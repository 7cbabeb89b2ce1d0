//! The scheduler: orders systems into stages from their declared read and
//! write footprints.
//!
//! A system declares which component and resource kinds it reads and writes.
//! The built dispatch runs stages in order; within one stage no system's
//! writes overlap another's reads or writes, so no system ever observes a
//! partially-written result of a same-stage system. A barrier forces
//! everything declared after it into later stages, so deferred mutations
//! flushed at the barrier are visible to what follows.

use vstd::prelude::*;

verus! {

use vstd::string::StringExecFns;

/// One system's declared footprint: the component and resource kinds it
/// reads and writes, as the caller's own kind identifiers.
pub struct SystemDecl {
    pub name: String,
    pub reads: Vec<u32>,
    pub writes: Vec<u32>,
}

/// Some kind in `xs` also occurs in `ys`.
pub open spec fn overlaps(xs: Seq<u32>, ys: Seq<u32>) -> bool {
    exists|i: int| 0 <= i < xs.len() && ys.contains(xs[i])
}

/// Two systems conflict when either writes a kind the other reads or writes;
/// only then must they run in different stages.
pub open spec fn conflicts(a: &SystemDecl, b: &SystemDecl) -> bool {
    ||| overlaps(a.writes@, b.reads@)
    ||| overlaps(a.writes@, b.writes@)
    ||| overlaps(b.writes@, a.reads@)
}

/// Whether some element of `xs` occurs in `ys`.
fn overlaps_exec(xs: &Vec<u32>, ys: &Vec<u32>) -> (r: bool)
    ensures
        r == overlaps(xs@, ys@),
{
    let n = xs.len();
    let mut i: usize = 0;
    while i < n
        invariant
            n == xs@.len(),
            i <= n,
            forall|j: int| 0 <= j < i ==> !ys@.contains(#[trigger] xs@[j]),
        decreases n - i,
    {
        if kind_contains(ys, xs[i]) {
            proof {
                assert(ys@.contains(xs@[i as int]));
            }
            return true;
        }
        i = i + 1;
    }
    proof {
        if overlaps(xs@, ys@) {
            let j = choose|j: int| 0 <= j < xs@.len() && ys@.contains(xs@[j]);
            assert(false);
        }
    }
    false
}

/// Whether a kind occurs in a list.
fn kind_contains(ys: &Vec<u32>, x: u32) -> (r: bool)
    ensures
        r == ys@.contains(x),
{
    let n = ys.len();
    let mut i: usize = 0;
    while i < n
        invariant
            n == ys@.len(),
            i <= n,
            forall|j: int| 0 <= j < i ==> ys@[j] != x,
        decreases n - i,
    {
        if ys[i] == x {
            return true;
        }
        i = i + 1;
    }
    proof {
        if ys@.contains(x) {
            let j = choose|j: int| 0 <= j < ys@.len() && ys@[j] == x;
            assert(false);
        }
    }
    false
}

/// Computes [`conflicts`].
pub fn conflicts_exec(a: &SystemDecl, b: &SystemDecl) -> (r: bool)
    ensures
        r == conflicts(a, b),
{
    if overlaps_exec(&a.writes, &b.reads) {
        return true;
    }
    if overlaps_exec(&a.writes, &b.writes) {
        return true;
    }
    overlaps_exec(&b.writes, &a.reads)
}

/// One build-time declaration: a system, or a barrier after which deferred
/// entity mutations must be flushed before later systems run.
pub enum DispatchItem {
    System(SystemDecl),
    Barrier,
}

/// Collects systems and barriers in declaration order.
pub struct DispatcherBuilder {
    pub items: Vec<DispatchItem>,
}

/// An executable dispatch: stages run in order, and the systems of one stage
/// have pairwise non-conflicting footprints.
pub struct Dispatcher {
    pub stages: Vec<Vec<SystemDecl>>,
}

/// The stages as mathematical sequences.
pub open spec fn stages_view(stages: Seq<Vec<SystemDecl>>) -> Seq<Seq<SystemDecl>> {
    Seq::new(stages.len(), |s: int| stages[s]@)
}

/// Every stage's systems are pairwise non-conflicting.
pub open spec fn stages_disjoint(stages: Seq<Vec<SystemDecl>>) -> bool {
    forall|s: int, i: int, j: int|
        0 <= s < stages.len() && 0 <= i < j < stages[s]@.len() ==> !conflicts(
            &#[trigger] stages[s]@[i],
            &#[trigger] stages[s]@[j],
        )
}

/// A declaration fits a stage: its footprint conflicts with none of the
/// stage's systems.
pub open spec fn stage_accepts(stage: Seq<SystemDecl>, d: SystemDecl) -> bool {
    forall|j: int|
        0 <= j < stage.len() ==> !conflicts(&#[trigger] stage[j], &d) && !conflicts(&d, &stage[j])
}

/// What building a declaration list yields: the stages, and whether the
/// latest stage is sealed (at the start and right after every barrier).
/// Each system joins the latest stage when it is unsealed and accepts the
/// system's footprint, and otherwise opens a new stage.
pub open spec fn build_spec(items: Seq<DispatchItem>) -> (Seq<Seq<SystemDecl>>, bool)
    decreases items.len(),
{
    if items.len() == 0 {
        (Seq::empty(), true)
    } else {
        let prev = build_spec(items.drop_last());
        match items.last() {
            DispatchItem::Barrier => (prev.0, true),
            DispatchItem::System(d) => {
                if !prev.1 && prev.0.len() > 0 && stage_accepts(prev.0.last(), d) {
                    (prev.0.update(prev.0.len() - 1, prev.0.last().push(d)), false)
                } else {
                    (prev.0.push(seq![d]), false)
                }
            },
        }
    }
}

/// The systems a declaration list names, in order, barriers left out.
pub open spec fn systems_of(items: Seq<DispatchItem>) -> Seq<SystemDecl>
    decreases items.len(),
{
    if items.len() == 0 {
        Seq::empty()
    } else {
        let prev = systems_of(items.drop_last());
        match items.last() {
            DispatchItem::System(d) => prev.push(d),
            DispatchItem::Barrier => prev,
        }
    }
}

/// The stages laid end to end.
pub open spec fn flatten_stages(stages: Seq<Seq<SystemDecl>>) -> Seq<SystemDecl>
    decreases stages.len(),
{
    if stages.len() == 0 {
        Seq::empty()
    } else {
        flatten_stages(stages.drop_last()) + stages.last()
    }
}

/// Nothing is lost and nothing is reordered: the built stages, laid end to
/// end, are exactly the declared systems in declaration order.
pub proof fn lemma_build_covers_every_system(items: Seq<DispatchItem>)
    ensures
        flatten_stages(build_spec(items).0) == systems_of(items),
    decreases items.len(),
{
    if items.len() == 0 {
        assert(flatten_stages(build_spec(items).0) =~= systems_of(items));
    } else {
        lemma_build_covers_every_system(items.drop_last());
        let prev = build_spec(items.drop_last());
        match items.last() {
            DispatchItem::Barrier => {},
            DispatchItem::System(d) => {
                if !prev.1 && prev.0.len() > 0 && stage_accepts(prev.0.last(), d) {
                    let grown = prev.0.update(prev.0.len() - 1, prev.0.last().push(d));
                    assert(grown.drop_last() =~= prev.0.drop_last());
                    assert(grown.last() == prev.0.last().push(d));
                    assert(flatten_stages(grown) == flatten_stages(prev.0.drop_last())
                        + prev.0.last().push(d));
                    assert(flatten_stages(prev.0.drop_last()) + prev.0.last().push(d) =~= (
                    flatten_stages(prev.0.drop_last()) + prev.0.last()).push(d));
                } else {
                    let grown = prev.0.push(seq![d]);
                    assert(grown.drop_last() =~= prev.0);
                    assert(flatten_stages(grown) == flatten_stages(prev.0) + seq![d]);
                    assert(flatten_stages(prev.0) + seq![d] =~= flatten_stages(prev.0).push(d));
                }
            },
        }
    }
}

/// A barrier freezes the dispatch: every stage that exists when a barrier is
/// declared is never touched again, so systems declared after the barrier
/// land only in later stages.
pub proof fn lemma_barrier_separates(items: Seq<DispatchItem>, p: int)
    requires
        0 <= p < items.len(),
        items[p] is Barrier,
    ensures
        ({
            let before = build_spec(items.subrange(0, p + 1)).0;
            let after = build_spec(items);
            &&& before.len() <= after.0.len()
            &&& forall|s: int| 0 <= s < before.len() ==> #[trigger] after.0[s] == before[s]
            &&& (!after.1 ==> after.0.len() > before.len())
        }),
    decreases items.len(),
{
    let before = build_spec(items.subrange(0, p + 1)).0;
    if p + 1 == items.len() {
        assert(items.subrange(0, p + 1) =~= items);
        assert(build_spec(items).1) by {
            assert(items.last() == items[p]);
        }
    } else {
        assert(items.drop_last().subrange(0, p + 1) =~= items.subrange(0, p + 1));
        lemma_barrier_separates(items.drop_last(), p);
        let mid = build_spec(items.drop_last());
        match items.last() {
            DispatchItem::Barrier => {},
            DispatchItem::System(d) => {
                if !mid.1 && mid.0.len() > 0 && stage_accepts(mid.0.last(), d) {
                    assert(mid.0.len() > before.len());
                }
            },
        }
    }
}

impl DispatcherBuilder {
    pub fn new() -> (r: DispatcherBuilder)
        ensures
            r.items@ =~= Seq::<DispatchItem>::empty(),
    {
        DispatcherBuilder { items: Vec::new() }
    }

    /// Declares the next system.
    pub fn add(&mut self, decl: SystemDecl)
        ensures
            final(self).items@ == old(self).items@.push(DispatchItem::System(decl)),
    {
        self.items.push(DispatchItem::System(decl));
    }

    /// Declares a barrier: every deferred entity deletion and insertion of
    /// the systems so far is applied before any later system runs.
    pub fn add_barrier(&mut self)
        ensures
            final(self).items@ == old(self).items@.push(DispatchItem::Barrier),
    {
        self.items.push(DispatchItem::Barrier);
    }

    /// Orders the declared systems into stages: exactly what [`build_spec`]
    /// states, so the stages hold every declared system once, in declaration
    /// order ([`lemma_build_covers_every_system`]), no two same-stage systems
    /// conflict, and no stage reaches across a barrier
    /// ([`lemma_barrier_separates`]).
    pub fn build(self) -> (r: Dispatcher)
        ensures
            stages_view(r.stages@) == build_spec(self.items@).0,
            stages_disjoint(r.stages@),
    {
        let ghost all_items = self.items@;
        let mut items = self.items;
        let mut stages: Vec<Vec<SystemDecl>> = Vec::new();
        let mut seal_last = true;
        let n = items.len();
        let mut k: usize = 0;
        while k < n
            invariant
                items@ =~= all_items.subrange(k as int, n as int),
                all_items.len() == n,
                k <= n,
                (stages_view(stages@), seal_last) == build_spec(all_items.subrange(0, k as int)),
                forall|s: int, i: int, j: int|
                    0 <= s < stages@.len() && 0 <= i < j < stages@[s]@.len() ==> !conflicts(
                        &#[trigger] stages@[s]@[i],
                        &#[trigger] stages@[s]@[j],
                    ),
            decreases n - k,
        {
            let item = items.remove(0);
            proof {
                assert(all_items.subrange(0, k as int + 1).drop_last() =~= all_items.subrange(
                    0,
                    k as int,
                ));
                assert(all_items.subrange(0, k as int + 1).last() == all_items[k as int]);
                assert(items@ =~= all_items.subrange(k as int + 1, n as int));
            }
            match item {
                DispatchItem::Barrier => {
                    seal_last = true;
                },
                DispatchItem::System(decl) => {
                    let mut joins_last = false;
                    if !seal_last && stages.len() > 0 {
                        let last = &stages[stages.len() - 1];
                        let mut clean = true;
                        let m = last.len();
                        let mut i: usize = 0;
                        while i < m
                            invariant
                                m == last@.len(),
                                i <= m,
                                clean == forall|j: int|
                                    0 <= j < i ==> !conflicts(&#[trigger] last@[j], &decl)
                                        && !conflicts(&decl, &#[trigger] last@[j]),
                            decreases m - i,
                        {
                            if conflicts_exec(&last[i], &decl) || conflicts_exec(&decl, &last[i]) {
                                clean = false;
                            }
                            i = i + 1;
                        }
                        joins_last = clean;
                        proof {
                            assert(clean == stage_accepts(last@, decl));
                        }
                    }
                    if joins_last {
                        let ghost prev_view = stages_view(stages@);
                        let idx = stages.len() - 1;
                        let mut last = stages.remove(idx);
                        last.push(decl);
                        stages.insert(idx, last);
                        proof {
                            assert(stages_view(stages@) =~= prev_view.update(
                                prev_view.len() - 1,
                                prev_view.last().push(decl),
                            ));
                        }
                    } else {
                        let ghost prev_view = stages_view(stages@);
                        let mut fresh: Vec<SystemDecl> = Vec::new();
                        fresh.push(decl);
                        stages.push(fresh);
                        seal_last = false;
                        proof {
                            assert(stages_view(stages@) =~= prev_view.push(seq![decl]));
                        }
                    }
                },
            }
            k = k + 1;
        }
        proof {
            assert(all_items.subrange(0, n as int) =~= all_items);
        }
        Dispatcher { stages }
    }
}

impl Dispatcher {
    /// How many stages run in order.
    pub fn stage_count(&self) -> (r: usize)
        ensures
            r == self.stages@.len(),
    {
        self.stages.len()
    }
}

/// A footprint declaration from plain kind lists.
pub fn decl(name: &str, reads: Vec<u32>, writes: Vec<u32>) -> (r: SystemDecl)
    ensures
        r.name@ == name@,
        r.reads == reads,
        r.writes == writes,
{
    let owned: String = String::from_str(name);
    SystemDecl { name: owned, reads, writes }
}

} // verus!
