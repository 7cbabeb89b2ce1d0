//! Configuration of a procedurally generated "kill all" maze level.

use vstd::prelude::*;

verus! {

use crate::entity::EntityConf;
use crate::level::MazeRequest;

/// How many entities of turret-like kinds a seeding list asks for.
pub open spec fn spec_turret_total(entities: Seq<(EntityConf, usize)>) -> int
    decreases entities.len(),
{
    if entities.len() == 0 {
        0
    } else {
        spec_turret_total(entities.drop_last()) + if entities.last().0 is Turret {
            entities.last().1 as int
        } else {
            0int
        }
    }
}

/// How many entities of the roaming kinds a seeding list asks for.
pub open spec fn spec_other_total(entities: Seq<(EntityConf, usize)>) -> int
    decreases entities.len(),
{
    if entities.len() == 0 {
        0
    } else {
        spec_other_total(entities.drop_last()) + if entities.last().0 is Turret {
            0int
        } else {
            entities.last().1 as int
        }
    }
}

/// The parameters of one generated level: grid size, wall-removal
/// percentage, generator offset quirk, and the entity seeding list.
pub struct Conf {
    pub size: (i64, i64),
    pub percent: u32,
    pub bug: (i64, i64),
    pub entities: Vec<(EntityConf, usize)>,
}

impl Conf {
    /// Splits the seeding list into turret-like and roaming totals and asks
    /// the maze-generation collaborator for a grid with that many wall and
    /// floor placements. The collaborator owns the maze algorithm; the
    /// request it receives is exactly this configuration's totals.
    pub fn create(&self) -> (r: MazeRequest)
        requires
            spec_turret_total(self.entities@) <= usize::MAX,
            spec_other_total(self.entities@) <= usize::MAX,
        ensures
            r.size == self.size,
            r.percent == self.percent,
            r.bug == self.bug,
            r.turrets == spec_turret_total(self.entities@),
            r.others == spec_other_total(self.entities@),
    {
        let mut turrets: usize = 0;
        let mut others: usize = 0;
        let n = self.entities.len();
        let mut i: usize = 0;
        while i < n
            invariant
                n == self.entities@.len(),
                i <= n,
                turrets == spec_turret_total(self.entities@.subrange(0, i as int)),
                others == spec_other_total(self.entities@.subrange(0, i as int)),
                spec_turret_total(self.entities@) <= usize::MAX,
                spec_other_total(self.entities@) <= usize::MAX,
            decreases n - i,
        {
            proof {
                assert(self.entities@.subrange(0, i as int + 1).drop_last() =~= self.entities@.subrange(
                    0,
                    i as int,
                ));
                assert(self.entities@.subrange(0, i as int + 1).last() == self.entities@[i as int]);
                lemma_totals_bounded(self.entities@, i as int + 1);
            }
            let (conf, nbr) = self.entities[i];
            if conf.is_turret_like() {
                turrets = turrets + nbr;
            } else {
                others = others + nbr;
            }
            i = i + 1;
        }
        proof {
            assert(self.entities@.subrange(0, n as int) =~= self.entities@);
        }
        MazeRequest { size: self.size, percent: self.percent, bug: self.bug, turrets, others }
    }
}

/// The totals over a prefix never exceed the totals over the whole list.
proof fn lemma_totals_bounded(entities: Seq<(EntityConf, usize)>, upto: int)
    requires
        0 <= upto <= entities.len(),
    ensures
        0 <= spec_turret_total(entities.subrange(0, upto)) <= spec_turret_total(entities),
        0 <= spec_other_total(entities.subrange(0, upto)) <= spec_other_total(entities),
    decreases entities.len() - upto,
{
    lemma_totals_nonneg(entities.subrange(0, upto));
    if upto == entities.len() {
        assert(entities.subrange(0, upto) =~= entities);
    } else {
        lemma_totals_bounded(entities, upto + 1);
        assert(entities.subrange(0, upto + 1).drop_last() =~= entities.subrange(0, upto));
        assert(entities.subrange(0, upto + 1).last() == entities[upto]);
    }
}

/// The totals are never negative.
proof fn lemma_totals_nonneg(entities: Seq<(EntityConf, usize)>)
    ensures
        0 <= spec_turret_total(entities),
        0 <= spec_other_total(entities),
    decreases entities.len(),
{
    if entities.len() > 0 {
        lemma_totals_nonneg(entities.drop_last());
    }
}

} // verus!
