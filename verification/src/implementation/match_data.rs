use crate::config::config::KillsRules;
use crate::death_causes::{same_text, DeathCauses, CAUSE_COUNT};
use crate::errors::LineFailure;
use crate::implementation::death_causes::{
    empty_tally, lemma_total_after_count, lemma_total_bounds_each, tally_of_counts, tally_total,
    MatchKillMeans,
};
use crate::implementation::kill_scorer::{
    lemma_row_after_push, lemma_table_after_push, position, score_table, scored, texts, ScoreBoard,
};
use crate::implementation::line_event::{KillFacts, KillLine};
use vstd::prelude::*;

verus! {

/// The tally after a kill with the given token for its cause. A token that
/// names no known cause leaves the tally as it is.
pub open spec fn counted(tally: Map<DeathCauses, nat>, token: Seq<char>) -> Map<DeathCauses, nat> {
    match DeathCauses::of_token(token) {
        Some(cause) => tally.insert(cause, tally[cause] + 1),
        None => tally,
    }
}

/// The statistics of one match.
pub struct MatchView {
    /// The label under which the match is listed. Empty until the match is
    /// completed.
    pub label: Seq<char>,
    /// The number of kills of the match.
    pub total_kills: nat,
    /// The players that were named in the match.
    pub players: Set<Seq<char>>,
    /// The score of each player that took part in a scored kill.
    pub kills: Map<Seq<char>, int>,
    /// The number of kills by cause of death, where causes are tracked.
    pub kill_causes: Option<Map<DeathCauses, nat>>,
}

impl MatchView {
    /// The statistics of a match in which nothing has happened yet.
    pub open spec fn fresh(show_death_causes: bool) -> MatchView {
        MatchView {
            label: Seq::empty(),
            total_kills: 0,
            players: Set::empty(),
            kills: Map::empty(),
            kill_causes: if show_death_causes {
                Some(empty_tally())
            } else {
                None
            },
        }
    }

    /// What holds of the statistics of every match: no score is further from
    /// zero than the number of kills, and a tally lists every cause and
    /// holds no more kills than the match has.
    pub open spec fn wf(self) -> bool {
        &&& forall|player: Seq<char>|
            self.kills.dom().contains(player) ==> -self.total_kills <= #[trigger] self.kills[player]
                <= self.total_kills
        &&& self.kill_causes matches Some(tally) ==> {
            &&& forall|cause: DeathCauses| tally.dom().contains(cause)
            &&& tally_total(tally) <= self.total_kills
        }
    }

    /// The statistics with one more player named. Naming a player again
    /// changes nothing.
    pub open spec fn with_player(self, player: Seq<char>) -> MatchView {
        MatchView { players: self.players.insert(player), ..self }
    }

    /// The statistics after a kill: the kill is counted, the scores follow
    /// the policy, and where causes are tracked the tally counts the cause
    /// if its token names one.
    pub open spec fn with_kill(self, kill: KillFacts, world: Seq<char>, rules: KillsRules) -> MatchView {
        MatchView {
            total_kills: self.total_kills + 1,
            kills: scored(self.kills, kill.killer, kill.victim, world, rules),
            kill_causes: match self.kill_causes {
                Some(tally) => Some(counted(tally, kill.cause)),
                None => None,
            },
            ..self
        }
    }

    /// Whether a kill leaves its cause uncounted although causes are tracked.
    pub open spec fn cause_unknown(self, kill: KillFacts) -> bool {
        self.kill_causes is Some && DeathCauses::of_token(kill.cause) is None
    }

    /// The statistics under a label.
    pub open spec fn labelled(self, label: Seq<char>) -> MatchView {
        MatchView { label, ..self }
    }

    /// The statistics of a match in which nothing has happened yet are well
    /// formed.
    pub proof fn lemma_fresh_wf(show_death_causes: bool)
        ensures
            MatchView::fresh(show_death_causes).wf(),
    {
        lemma_total_after_count(empty_tally(), DeathCauses::Unknown);
    }

    /// A kill keeps the statistics well formed.
    pub proof fn lemma_with_kill_wf(self, kill: KillFacts, world: Seq<char>, rules: KillsRules)
        requires
            self.wf(),
        ensures
            self.with_kill(kill, world, rules).wf(),
    {
        if let Some(tally) = self.kill_causes {
            if let Some(cause) = DeathCauses::of_token(kill.cause) {
                lemma_total_after_count(tally, cause);
            }
        }
    }
}

/// The statistics of one match as plain values: the form in which they
/// are written out and read back.
#[derive(Debug, Clone, PartialEq, Eq)]
pub struct MatchRecord {
    /// The label under which the match is listed.
    pub game_match: String,
    /// The number of kills of the match.
    pub total_kills: u64,
    /// The players that were named in the match.
    pub players: Vec<String>,
    /// The players that have a score, each with the score.
    pub kills: Vec<(String, i64)>,
    /// The number of kills by cause of death, where causes are tracked: one
    /// entry for each cause, in the fixed order of the causes, under the
    /// token of the cause.
    pub kill_means: Option<Vec<(String, u64)>>,
}

impl MatchRecord {
    /// The players that have a score, in the order of their entries.
    pub open spec fn scorers(self) -> Seq<Seq<char>> {
        Seq::new(self.kills@.len(), |i: int| self.kills@[i].0@)
    }

    /// The scores, in the order of their entries.
    pub open spec fn scores(self) -> Seq<i64> {
        Seq::new(self.kills@.len(), |i: int| self.kills@[i].1)
    }

    /// The counts of a list of causes, in the order of their entries.
    pub open spec fn counts(entries: Seq<(String, u64)>) -> Seq<u64> {
        Seq::new(entries.len(), |i: int| entries[i].1)
    }

    /// Whether a list of causes is a tally: it has one entry for each cause,
    /// in the fixed order of the causes, each under the token of its cause.
    pub open spec fn lists_every_cause(entries: Seq<(String, u64)>) -> bool {
        &&& entries.len() == CAUSE_COUNT
        &&& forall|cause: DeathCauses|
            #![trigger cause.spec_index()]
            entries[cause.spec_index()].0@ == cause.token()
    }

    /// Whether the record holds the statistics of a match: no player is
    /// listed twice, no player has two scores, no score is further from zero
    /// than the number of kills, which fits in 63 bits, and the tally, if
    /// there is one, lists every cause and holds no more kills than the
    /// match has.
    pub open spec fn valid(self) -> bool {
        &&& self.total_kills <= i64::MAX
        &&& texts(self.players@).no_duplicates()
        &&& self.scorers().no_duplicates()
        &&& forall|i: int|
            0 <= i < self.kills@.len() ==> -self.total_kills <= (#[trigger] self.kills@[i]).1
                <= self.total_kills
        &&& self.kill_means matches Some(entries) ==> {
            &&& Self::lists_every_cause(entries@)
            &&& tally_total(tally_of_counts(Self::counts(entries@))) <= self.total_kills
        }
    }

    /// The statistics that the record holds.
    pub open spec fn statistics(self) -> MatchView {
        MatchView {
            label: self.game_match@,
            total_kills: self.total_kills as nat,
            players: texts(self.players@).to_set(),
            kills: score_table(self.scorers(), self.scores()),
            kill_causes: match self.kill_means {
                Some(entries) => Some(tally_of_counts(Self::counts(entries@))),
                None => None,
            },
        }
    }

    /// Whether a record is one that holds the statistics of a match.
    pub open spec fn written_from(self, statistics: MatchView) -> bool {
        self.valid() && self.statistics() == statistics
    }

    /// Whether reading the record gave what it should: a match with the
    /// statistics that the record holds, or nothing for a record that does
    /// not hold the statistics of a match.
    pub open spec fn read_as(self, read: Option<MatchData>) -> bool {
        match read {
            Some(record) => self.valid() && record.wf() && record@ == self.statistics(),
            None => !self.valid(),
        }
    }

    /// Writing the statistics of a match out and reading them back gives
    /// a match with the same statistics: the same label, number of kills,
    /// players, scores and tally.
    pub proof fn lemma_round_trip(self, statistics: MatchView, read: Option<MatchData>)
        requires
            self.written_from(statistics),
            self.read_as(read),
        ensures
            read matches Some(record) && record@ == statistics,
    {
    }
}

/// The statistics of one match, as they are gathered.
#[derive(Debug)]
pub struct MatchData {
    game_match: String,
    total_kills: u64,
    players: Vec<String>,
    kills: ScoreBoard,
    kill_means: Option<MatchKillMeans>,
}

impl View for MatchData {
    type V = MatchView;

    closed spec fn view(&self) -> MatchView {
        MatchView {
            label: self.game_match@,
            total_kills: self.total_kills as nat,
            players: texts(self.players@).to_set(),
            kills: self.kills@,
            kill_causes: match self.kill_means {
                Some(tally) => Some(tally@),
                None => None,
            },
        }
    }
}

impl MatchData {
    /// No player is listed twice, and the parts of the record are kept in
    /// order.
    closed spec fn rows_wf(&self) -> bool {
        &&& self.total_kills <= i64::MAX
        &&& texts(self.players@).no_duplicates()
        &&& self.kills.wf()
        &&& self.kill_means matches Some(tally) ==> tally.wf()
    }

    /// The record is kept in order, and its statistics are well formed.
    pub closed spec fn wf(&self) -> bool {
        &&& self.rows_wf()
        &&& self@.wf()
    }

    /// The statistics of a record that is kept in order are well formed.
    pub proof fn lemma_view_wf(&self)
        requires
            self.wf(),
        ensures
            self@.wf(),
            self@.total_kills <= i64::MAX,
    {
    }

    /// A record for a match in which nothing has happened yet. It has a
    /// tally of causes, with every cause at zero, if causes are tracked.
    pub fn new(show_death_causes: bool) -> (record: MatchData)
        ensures
            record.wf(),
            record@ == MatchView::fresh(show_death_causes),
    {
        let record = MatchData {
            game_match: String::new(),
            total_kills: 0,
            players: Vec::new(),
            kills: ScoreBoard::new(),
            kill_means: if show_death_causes {
                Some(MatchKillMeans::new())
            } else {
                None
            },
        };
        proof {
            assert(texts(record.players@) =~= Seq::<Seq<char>>::empty());
            assert(texts(record.players@).to_set() =~= Set::<Seq<char>>::empty());
            MatchView::lemma_fresh_wf(show_death_causes);
        }
        record
    }

    /// Gives the record the label under which the match is listed.
    pub fn set_label(&mut self, label: String)
        requires
            old(self).wf(),
        ensures
            final(self).wf(),
            final(self)@ == old(self)@.labelled(label@),
    {
        self.game_match = label;
    }

    /// Notes that a player was named in the match.
    pub fn add_player(&mut self, player: &str)
        requires
            old(self).wf(),
        ensures
            final(self).wf(),
            final(self)@ == old(self)@.with_player(player@),
    {
        let ghost before = texts(self.players@);
        match position(&self.players, player) {
            Some(i) => {
                proof {
                    assert(before[i as int] == player@);
                    assert(before.to_set() =~= before.to_set().insert(player@));
                }
            },
            None => {
                self.players.push(player.to_string());
                proof {
                    assert(texts(self.players@) =~= before.push(player@));
                    lemma_row_after_push(before, player@);
                }
            },
        }
    }

    /// Counts the cause of a kill, where causes are tracked and the token
    /// names a known one. Says whether the cause went uncounted although
    /// causes are tracked.
    fn count_cause(&mut self, token: &str) -> (unknown: bool)
        requires
            old(self).rows_wf(),
            old(self)@.kill_causes matches Some(tally) ==> tally_total(tally) < u64::MAX,
        ensures
            final(self).rows_wf(),
            final(self)@ == (MatchView {
                kill_causes: match old(self)@.kill_causes {
                    Some(tally) => Some(counted(tally, token@)),
                    None => None,
                },
                ..old(self)@
            }),
            unknown == (old(self)@.kill_causes is Some && DeathCauses::of_token(token@) is None),
    {
        match &mut self.kill_means {
            Some(tally) => match DeathCauses::from_str(token) {
                Ok(cause) => {
                    proof {
                        tally.lemma_view_total();
                        lemma_total_bounds_each(tally@, cause);
                    }
                    tally.increase_stat(cause);
                    false
                },
                Err(_) => true,
            },
            None => false,
        }
    }

    /// Takes a kill into the record: counts it, moves the scores as the
    /// policy says and, where causes are tracked, counts its cause.
    ///
    /// A cause that is not known is the only thing that can go wrong, and it
    /// is reported after the kill was counted and scored.
    pub fn register_kill(&mut self, kill: &KillLine, world: &str, rules: &KillsRules) -> (r: Result<
        (),
        LineFailure,
    >)
        requires
            old(self).wf(),
            old(self)@.total_kills < i64::MAX,
        ensures
            final(self).wf(),
            final(self)@ == old(self)@.with_kill(kill@, world@, *rules),
            r == if old(self)@.cause_unknown(kill@) {
                Err::<(), LineFailure>(LineFailure::UnknownCause)
            } else {
                Ok::<(), LineFailure>(())
            },
    {
        proof {
            old(self)@.lemma_with_kill_wf(kill@, world@, *rules);
        }
        self.total_kills = self.total_kills + 1;
        self.kills.score_kill(kill.killer.as_str(), kill.victim.as_str(), world, rules);
        let unknown = self.count_cause(kill.cause.as_str());
        if unknown {
            Err(LineFailure::UnknownCause)
        } else {
            Ok(())
        }
    }

    /// Writes the statistics of the match out as plain values.
    pub fn to_record(&self) -> (record: MatchRecord)
        requires
            self.wf(),
        ensures
            record.written_from(self@),
    {
        let mut players: Vec<String> = Vec::new();
        let mut i: usize = 0;
        while i < self.players.len()
            invariant
                i <= self.players@.len(),
                players@.len() == i,
                forall|k: int| 0 <= k < i ==> (#[trigger] players@[k])@ == self.players@[k]@,
            decreases self.players@.len() - i,
        {
            players.push(self.players[i].clone());
            i += 1;
        }
        let record = MatchRecord {
            game_match: self.game_match.clone(),
            total_kills: self.total_kills,
            players,
            kills: self.kills.entries(),
            kill_means: match &self.kill_means {
                Some(tally) => Some(tally.stats()),
                None => None,
            },
        };
        proof {
            assert(texts(record.players@) =~= texts(self.players@));
            let names = record.scorers();
            let table = score_table(names, record.scores());
            assert forall|name: Seq<char>| table.dom().contains(name) implies self@.kills.dom().contains(
                name,
            ) && #[trigger] table[name] == self@.kills[name] by {
                let k = names.index_of(name);
                assert(0 <= k < names.len() && names[k] == name);
                assert(record.kills@[k].0@ == name);
            }
            assert forall|name: Seq<char>| self@.kills.dom().contains(name) implies table.dom().contains(
                name,
            ) by {
                let k = choose|k: int| 0 <= k < record.kills@.len() && #[trigger] record.kills@[k].0@ == name;
                assert(names[k] == name);
            }
            assert(table =~= self@.kills);
            if self.kill_means is Some {
                let tally = self.kill_means->0;
                let entries = record.kill_means->0;
                tally.lemma_view_total();
                assert forall|cause: DeathCauses|
                    tally_of_counts(MatchRecord::counts(entries@))[cause] == #[trigger] tally@[cause] by {
                    cause.lemma_index_injective(cause);
                    assert(entries@[cause.spec_index()].1 == tally@[cause]);
                }
                assert(tally_of_counts(MatchRecord::counts(entries@)) =~= tally@);
            }
            assert(record.scorers().no_duplicates());
            assert forall|i: int| 0 <= i < record.kills@.len() implies -record.total_kills <= (
            #[trigger] record.kills@[i]).1 <= record.total_kills by {
                assert(self@.kills.dom().contains(record.kills@[i].0@));
            }
        }
        record
    }

    /// Reads the statistics of a match from plain values. A record that does
    /// not hold the statistics of a match is refused.
    pub fn from_record(record: &MatchRecord) -> (read: Option<MatchData>)
        ensures
            record.read_as(read),
    {
        if record.total_kills > i64::MAX as u64 {
            return None;
        }
        let ghost names = record.scorers();
        let ghost scores = record.scores();
        let mut kills = ScoreBoard::new();
        let mut i: usize = 0;
        assert(score_table(names.take(0), scores.take(0)) =~= Map::<Seq<char>, int>::empty());
        while i < record.kills.len()
            invariant
                record.total_kills <= i64::MAX,
                names == record.scorers(),
                scores == record.scores(),
                i <= record.kills@.len(),
                kills.wf(),
                names.take(i as int).no_duplicates(),
                kills@ == score_table(names.take(i as int), scores.take(i as int)),
                forall|k: int|
                    0 <= k < i ==> -record.total_kills <= (#[trigger] record.kills@[k]).1
                        <= record.total_kills,
            decreases record.kills@.len() - i,
        {
            let score = record.kills[i].1;
            if score < -(record.total_kills as i64) || score > record.total_kills as i64 {
                return None;
            }
            let added = kills.add_entry(record.kills[i].0.as_str(), score);
            proof {
                assert(names[i as int] == record.kills@[i as int].0@);
                assert(names.take(i + 1) =~= names.take(i as int).push(names[i as int]));
                assert(scores.take(i + 1) =~= scores.take(i as int).push(score));
            }
            if !added {
                proof {
                    let k = choose|k: int|
                        0 <= k < names.take(i as int).len() && names.take(i as int)[k] == names[i as int];
                    assert(names[k] == names[i as int]);
                }
                return None;
            }
            proof {
                lemma_table_after_push(names.take(i as int), scores.take(i as int), names[i as int], score);
            }
            i += 1;
        }
        proof {
            assert(names.take(record.kills@.len() as int) =~= names);
            assert(scores.take(record.kills@.len() as int) =~= scores);
        }
        let kill_means = match &record.kill_means {
            Some(entries) => {
                if entries.len() != CAUSE_COUNT {
                    return None;
                }
                let mut counts: Vec<u64> = Vec::new();
                let mut place: usize = 0;
                while place < CAUSE_COUNT
                    invariant
                        record.kill_means == Some(*entries),
                        entries@.len() == CAUSE_COUNT,
                        place <= CAUSE_COUNT,
                        counts@.len() == place,
                        forall|k: int| 0 <= k < place ==> #[trigger] counts@[k] == entries@[k].1,
                        forall|cause: DeathCauses|
                            #![trigger cause.spec_index()]
                            cause.spec_index() < place ==> entries@[cause.spec_index()].0@ == cause.token(),
                    decreases CAUSE_COUNT - place,
                {
                    let cause = DeathCauses::from_index(place);
                    if !same_text(entries[place].0.as_str(), cause.as_str()) {
                        assert(entries@[cause.spec_index()].0@ != cause.token());
                        return None;
                    }
                    counts.push(entries[place].1);
                    proof {
                        assert forall|other: DeathCauses|
                            #![trigger other.spec_index()]
                            other.spec_index() < place + 1 implies entries@[other.spec_index()].0@
                            == other.token() by {
                            other.lemma_index_injective(cause);
                        }
                    }
                    place += 1;
                }
                proof {
                    assert(counts@ =~= MatchRecord::counts(entries@));
                    assert forall|cause: DeathCauses|
                        #![trigger cause.spec_index()]
                        entries@[cause.spec_index()].0@ == cause.token() by {
                        cause.lemma_index_injective(cause);
                    }
                }
                match MatchKillMeans::from_counts(counts) {
                    Some(tally) => {
                        proof {
                            tally.lemma_view_total();
                            assert forall|cause: DeathCauses|
                                #[trigger] tally@[cause] == tally_of_counts(
                                    MatchRecord::counts(entries@),
                                )[cause] by {
                                cause.lemma_index_injective(cause);
                                assert(tally@[cause] == counts@[cause.spec_index()]);
                            }
                            assert(tally@ =~= tally_of_counts(MatchRecord::counts(entries@)));
                        }
                        if tally.total() > record.total_kills as u128 {
                            return None;
                        }
                        Some(tally)
                    },
                    None => {
                        return None;
                    },
                }
            },
            None => None,
        };
        let mut read = MatchData {
            game_match: record.game_match.clone(),
            total_kills: record.total_kills,
            players: Vec::new(),
            kills,
            kill_means,
        };
        proof {
            assert(texts(read.players@) =~= Seq::<Seq<char>>::empty());
            assert(texts(record.players@.take(0)) =~= Seq::<Seq<char>>::empty());
            assert(read@.players =~= texts(record.players@.take(0)).to_set());
            assert forall|player: Seq<char>| read@.kills.dom().contains(player) implies -read@.total_kills
                <= #[trigger] read@.kills[player] <= read@.total_kills by {
                let k = names.index_of(player);
                assert(0 <= k < names.len() && names[k] == player);
                assert(read@.kills[player] == record.kills@[k].1);
            }
        }
        let mut n: usize = 0;
        while n < record.players.len()
            invariant
                n <= record.players@.len(),
                read.wf(),
                texts(record.players@.take(n as int)).no_duplicates(),
                read@ == (MatchView {
                    players: texts(record.players@.take(n as int)).to_set(),
                    ..record.statistics()
                }),
            decreases record.players@.len() - n,
        {
            let ghost before = texts(record.players@.take(n as int));
            proof {
                assert(texts(record.players@.take(n + 1)) =~= before.push(record.players@[n as int]@));
                lemma_row_after_push(before, record.players@[n as int]@);
            }
            if read.has_player(record.players[n].as_str()) {
                proof {
                    let k = choose|k: int| 0 <= k < before.len() && before[k] == record.players@[n as int]@;
                    assert(texts(record.players@)[k] == texts(record.players@)[n as int]);
                }
                return None;
            }
            read.add_player(record.players[n].as_str());
            n += 1;
        }
        proof {
            assert(record.players@.take(record.players@.len() as int) =~= record.players@);
        }
        Some(read)
    }

    /// The label under which the match is listed.
    pub fn game_match(&self) -> (label: &String)
        ensures
            label@ == self@.label,
    {
        &self.game_match
    }

    /// The number of kills of the match.
    pub fn total_kills(&self) -> (n: u64)
        ensures
            n == self@.total_kills,
    {
        self.total_kills
    }

    /// The players that were named in the match, each once.
    pub fn players(&self) -> (names: &Vec<String>)
        requires
            self.wf(),
        ensures
            texts(names@).no_duplicates(),
            texts(names@).to_set() == self@.players,
    {
        &self.players
    }

    /// Whether a player was named in the match.
    pub fn has_player(&self, player: &str) -> (named: bool)
        ensures
            named == self@.players.contains(player@),
    {
        let found = position(&self.players, player);
        proof {
            if let Some(i) = found {
                assert(texts(self.players@)[i as int] == player@);
            }
        }
        found.is_some()
    }

    /// The score of a player, if the player has one.
    pub fn score(&self, player: &str) -> (score: Option<i64>)
        requires
            self.wf(),
        ensures
            match score {
                Some(n) => self@.kills.dom().contains(player@) && self@.kills[player@] == n,
                None => !self@.kills.dom().contains(player@),
            },
    {
        self.kills.score(player)
    }

    /// The scores of the match: each player that has a score once, with the
    /// score.
    pub fn kills(&self) -> (entries: Vec<(String, i64)>)
        requires
            self.wf(),
        ensures
            forall|i: int|
                0 <= i < entries@.len() ==> self@.kills.dom().contains(#[trigger] entries@[i].0@)
                    && self@.kills[entries@[i].0@] == entries@[i].1,
            forall|player: Seq<char>|
                self@.kills.dom().contains(player) ==> exists|i: int|
                    0 <= i < entries@.len() && #[trigger] entries@[i].0@ == player,
            forall|i: int, j: int|
                0 <= i < j < entries@.len() ==> entries@[i].0@ != entries@[j].0@,
    {
        self.kills.entries()
    }

    /// The tally of kills by cause, where causes are tracked.
    pub fn kill_means(&self) -> (tally: &Option<MatchKillMeans>)
        requires
            self.wf(),
        ensures
            match tally {
                Some(means) => means.wf() && self@.kill_causes == Some(means@),
                None => self@.kill_causes is None,
            },
    {
        &self.kill_means
    }
}

} // verus!
