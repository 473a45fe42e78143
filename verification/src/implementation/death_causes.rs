use crate::death_causes::{DeathCauses, CAUSE_COUNT};
use vstd::prelude::*;

verus! {

/// The tally in which no cause has been counted yet. It lists every cause.
pub open spec fn empty_tally() -> Map<DeathCauses, nat> {
    Map::new(|cause: DeathCauses| true, |cause: DeathCauses| 0nat)
}

/// The number of kills that a tally holds, all causes together.
pub open spec fn tally_total(tally: Map<DeathCauses, nat>) -> nat {
    tally[DeathCauses::Unknown]
        + tally[DeathCauses::Shotgun]
        + tally[DeathCauses::Gauntlet]
        + tally[DeathCauses::MachineGun]
        + tally[DeathCauses::Grenade]
        + tally[DeathCauses::GrenadeSplash]
        + tally[DeathCauses::Rocket]
        + tally[DeathCauses::RocketSplash]
        + tally[DeathCauses::Plasma]
        + tally[DeathCauses::PlasmaSplash]
        + tally[DeathCauses::Railgun]
        + tally[DeathCauses::Lightning]
        + tally[DeathCauses::Bfg]
        + tally[DeathCauses::BfgSplash]
        + tally[DeathCauses::Water]
        + tally[DeathCauses::Slime]
        + tally[DeathCauses::Lava]
        + tally[DeathCauses::Crush]
        + tally[DeathCauses::Telefrag]
        + tally[DeathCauses::Falling]
        + tally[DeathCauses::Suicide]
        + tally[DeathCauses::TargetLaser]
        + tally[DeathCauses::TriggerHurt]
        + tally[DeathCauses::Nail]
        + tally[DeathCauses::Chaingun]
        + tally[DeathCauses::ProximityMine]
        + tally[DeathCauses::Kamikaze]
        + tally[DeathCauses::Juiced]
        + tally[DeathCauses::Grapple]
}

/// Counting one more kill for a cause raises the total of the tally by one.
pub proof fn lemma_total_after_count(tally: Map<DeathCauses, nat>, cause: DeathCauses)
    ensures
        tally_total(tally.insert(cause, tally[cause] + 1)) == tally_total(tally) + 1,
        tally_total(empty_tally()) == 0,
{
}

/// No cause accounts for more kills than the tally holds.
pub proof fn lemma_total_bounds_each(tally: Map<DeathCauses, nat>, cause: DeathCauses)
    ensures
        tally[cause] <= tally_total(tally),
{
}

/// The sum of the first `n` counts of a row.
pub open spec fn counts_total(counts: Seq<u64>, n: int) -> nat
    decreases n,
{
    if n <= 0 {
        0
    } else {
        counts_total(counts, n - 1) + counts[n - 1] as nat
    }
}

/// The tally that a row of counts stands for: the count at each place is
/// that of the cause listed at that place.
pub open spec fn tally_of_counts(counts: Seq<u64>) -> Map<DeathCauses, nat> {
    Map::new(|cause: DeathCauses| true, |cause: DeathCauses| counts[cause.spec_index()] as nat)
}

/// The total of the tally that a row of counts stands for is the sum of the
/// counts.
pub proof fn lemma_counts_total(counts: Seq<u64>)
    requires
        counts.len() == CAUSE_COUNT,
    ensures
        tally_total(tally_of_counts(counts)) == counts_total(counts, CAUSE_COUNT as int),
{
    reveal_with_fuel(counts_total, 30);
}

/// How many kills of a match each cause of death accounts for. Every cause is
/// listed, also those that did not occur.
#[derive(Debug, Clone)]
pub struct MatchKillMeans {
    counts: Vec<u64>,
}

impl View for MatchKillMeans {
    type V = Map<DeathCauses, nat>;

    closed spec fn view(&self) -> Map<DeathCauses, nat> {
        tally_of_counts(self.counts@)
    }
}

impl MatchKillMeans {
    /// There is one counter for each cause.
    pub closed spec fn wf(&self) -> bool {
        self.counts@.len() == CAUSE_COUNT
    }

    /// A tally lists every cause, and a counter fits in 64 bits.
    pub proof fn lemma_view_total(&self)
        requires
            self.wf(),
        ensures
            forall|cause: DeathCauses| self@.dom().contains(cause),
            forall|cause: DeathCauses| #[trigger] self@[cause] <= u64::MAX,
    {
    }

    pub fn new() -> (tally: Self)
        ensures
            tally.wf(),
            tally@ == empty_tally(),
    {
        let mut counts: Vec<u64> = Vec::new();
        let mut i: usize = 0;
        while i < CAUSE_COUNT
            invariant
                i <= CAUSE_COUNT,
                counts@.len() == i,
                forall|k: int| 0 <= k < i ==> counts@[k] == 0,
            decreases CAUSE_COUNT - i,
        {
            counts.push(0);
            i += 1;
        }
        let tally = MatchKillMeans { counts };
        assert(tally@ =~= empty_tally());
        tally
    }

    /// A tally with the given counts, one for each cause in the fixed order
    /// of the causes. There is no tally for another number of counts.
    pub fn from_counts(counts: Vec<u64>) -> (r: Option<MatchKillMeans>)
        ensures
            match r {
                Some(tally) => {
                    &&& counts@.len() == CAUSE_COUNT
                    &&& tally.wf()
                    &&& forall|cause: DeathCauses|
                        #![trigger cause.spec_index()]
                        tally@[cause] == counts@[cause.spec_index()]
                },
                None => counts@.len() != CAUSE_COUNT,
            },
    {
        if counts.len() == CAUSE_COUNT {
            Some(MatchKillMeans { counts })
        } else {
            None
        }
    }

    /// The number of kills that the tally holds, all causes together.
    pub fn total(&self) -> (total: u128)
        requires
            self.wf(),
        ensures
            total == tally_total(self@),
    {
        let mut total: u128 = 0;
        let mut i: usize = 0;
        while i < CAUSE_COUNT
            invariant
                self.wf(),
                i <= CAUSE_COUNT,
                total == counts_total(self.counts@, i as int),
                total <= i * u64::MAX,
            decreases CAUSE_COUNT - i,
        {
            total = total + self.counts[i] as u128;
            i += 1;
        }
        proof {
            lemma_counts_total(self.counts@);
            assert(self@ =~= tally_of_counts(self.counts@));
        }
        total
    }

    /// The number of kills counted for a cause.
    pub fn count(&self, death_cause: DeathCauses) -> (n: u64)
        requires
            self.wf(),
        ensures
            n == self@[death_cause],
    {
        self.counts[death_cause.index()]
    }

    /// Counts one more kill for a cause. The other causes keep their counts.
    pub fn increase_stat(&mut self, death_cause: DeathCauses)
        requires
            old(self).wf(),
            old(self)@[death_cause] < u64::MAX,
        ensures
            final(self).wf(),
            final(self)@ == old(self)@.insert(death_cause, old(self)@[death_cause] + 1),
    {
        let i = death_cause.index();
        let n = self.counts[i];
        self.counts.set(i, n + 1);
        proof {
            assert forall|cause: DeathCauses|
                self@[cause] == #[trigger] old(self)@.insert(death_cause, old(self)@[death_cause] + 1)[cause] by {
                cause.lemma_index_injective(death_cause);
            }
            assert(self@ =~= old(self)@.insert(death_cause, old(self)@[death_cause] + 1));
        }
    }

    /// The tally as a list: one entry for each cause, in the fixed order of
    /// the causes, with the cause's token and its count.
    pub fn stats(&self) -> (entries: Vec<(String, u64)>)
        requires
            self.wf(),
        ensures
            entries@.len() == CAUSE_COUNT,
            forall|cause: DeathCauses|
                #![trigger cause.spec_index()]
                entries@[cause.spec_index()].0@ == cause.token()
                    && entries@[cause.spec_index()].1 == self@[cause],
    {
        let mut entries: Vec<(String, u64)> = Vec::new();
        let mut i: usize = 0;
        while i < CAUSE_COUNT
            invariant
                self.wf(),
                i <= CAUSE_COUNT,
                entries@.len() == i,
                forall|cause: DeathCauses|
                    #![trigger cause.spec_index()]
                    cause.spec_index() < i ==> entries@[cause.spec_index()].0@ == cause.token()
                        && entries@[cause.spec_index()].1 == self@[cause],
            decreases CAUSE_COUNT - i,
        {
            let cause = DeathCauses::from_index(i);
            let n = self.count(cause);
            entries.push((cause.to_string(), n));
            proof {
                assert forall|other: DeathCauses|
                    #![trigger other.spec_index()]
                    other.spec_index() < i + 1 implies entries@[other.spec_index()].0@ == other.token()
                        && entries@[other.spec_index()].1 == self@[other] by {
                    other.lemma_index_injective(cause);
                }
            }
            i += 1;
        }
        proof {
            assert forall|cause: DeathCauses|
                #![trigger cause.spec_index()]
                entries@[cause.spec_index()].0@ == cause.token()
                    && entries@[cause.spec_index()].1 == self@[cause] by {
                cause.lemma_index_injective(cause);
            }
        }
        entries
    }
}

} // verus!
