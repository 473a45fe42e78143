//! The scoring of kills: what a kill does to the scores of a match under a
//! scoring policy, and the board on which the scores are kept.

use crate::config::config::KillsRules;
use crate::death_causes::same_text;
use vstd::prelude::*;

verus! {

/// The score of a player under a table of scores. A player without an entry
/// stands at zero.
pub open spec fn score_of(kills: Map<Seq<char>, int>, player: Seq<char>) -> int {
    if kills.dom().contains(player) {
        kills[player]
    } else {
        0
    }
}

/// The table after a player's score went up or down. The player gets an
/// entry if there was none.
pub open spec fn adjusted(kills: Map<Seq<char>, int>, player: Seq<char>, delta: int) -> Map<
    Seq<char>,
    int,
> {
    kills.insert(player, score_of(kills, player) + delta)
}

/// The table of scores after a kill, under a scoring policy.
///
/// A kill by the world costs the victim a point and changes nothing else.
/// Any other kill earns the killer a point, unless it is a kill of oneself
/// and the policy does not reward those; and then, if the policy punishes
/// being killed, costs the victim a point.
pub open spec fn scored(
    kills: Map<Seq<char>, int>,
    killer: Seq<char>,
    victim: Seq<char>,
    world: Seq<char>,
    rules: KillsRules,
) -> Map<Seq<char>, int> {
    if killer == world {
        adjusted(kills, victim, -1)
    } else {
        let rewarded = if killer != victim || rules.kill_yourself_increases_score {
            adjusted(kills, killer, 1)
        } else {
            kills
        };
        if rules.being_killed_decreases_score {
            adjusted(rewarded, victim, -1)
        } else {
            rewarded
        }
    }
}

/// A kill of oneself changes no score where the policy neither rewards it
/// nor punishes being killed. This is said of players; one who bears the
/// name of the world is scored as a victim of the world.
pub proof fn lemma_self_kill_without_effect(
    kills: Map<Seq<char>, int>,
    player: Seq<char>,
    world: Seq<char>,
    rules: KillsRules,
)
    requires
        player != world,
        !rules.kill_yourself_increases_score,
        !rules.being_killed_decreases_score,
    ensures
        scored(kills, player, player, world, rules) == kills,
{
}

/// A kill by the world costs the victim exactly one point, whatever the
/// policy, and leaves every other entry of the table as it was: no score is
/// kept for the world as a killer.
pub proof fn lemma_world_kill(
    kills: Map<Seq<char>, int>,
    victim: Seq<char>,
    world: Seq<char>,
    rules: KillsRules,
)
    ensures
        score_of(scored(kills, world, victim, world, rules), victim) == score_of(kills, victim) - 1,
        forall|other: Seq<char>|
            other != victim ==> {
                &&& scored(kills, world, victim, world, rules).dom().contains(other)
                    == kills.dom().contains(other)
                &&& #[trigger] score_of(scored(kills, world, victim, world, rules), other) == score_of(
                    kills,
                    other,
                )
            },
{
}

/// A kill gives an entry to no one but its killer and its victim, and takes
/// no entry away.
pub proof fn lemma_kill_entries(
    kills: Map<Seq<char>, int>,
    killer: Seq<char>,
    victim: Seq<char>,
    world: Seq<char>,
    rules: KillsRules,
)
    ensures
        forall|player: Seq<char>|
            kills.dom().contains(player) ==> #[trigger] scored(
                kills,
                killer,
                victim,
                world,
                rules,
            ).dom().contains(player),
        forall|player: Seq<char>|
            #[trigger] scored(kills, killer, victim, world, rules).dom().contains(player)
                ==> kills.dom().contains(player) || player == killer || player == victim,
{
}

/// The texts of a row of strings.
pub open spec fn texts(strings: Seq<String>) -> Seq<Seq<char>> {
    Seq::new(strings.len(), |i: int| strings[i]@)
}

/// The table that gives each name of a row the score at the same place of
/// another row.
pub open spec fn score_table(names: Seq<Seq<char>>, scores: Seq<i64>) -> Map<Seq<char>, int> {
    Map::new(|name: Seq<char>| names.contains(name), |name: Seq<char>| scores[names.index_of(name)] as int)
}

/// A row with one more name at its end holds the names that it held and
/// that name, and lists no name twice if it did not before and the name is
/// a new one.
pub proof fn lemma_row_after_push(names: Seq<Seq<char>>, name: Seq<char>)
    ensures
        names.push(name).to_set() == names.to_set().insert(name),
        names.no_duplicates() && !names.contains(name) ==> names.push(name).no_duplicates(),
{
    let longer = names.push(name);
    assert forall|other: Seq<char>| longer.to_set().contains(other) <==> names.to_set().insert(
        name,
    ).contains(other) by {
        if longer.contains(other) {
            let k = choose|k: int| 0 <= k < longer.len() && longer[k] == other;
            if k < names.len() {
                assert(names[k] == other);
            }
        }
        if names.contains(other) {
            let k = choose|k: int| 0 <= k < names.len() && names[k] == other;
            assert(longer[k] == other);
        }
        if other == name {
            assert(longer[names.len() as int] == other);
        }
    }
    assert(longer.to_set() =~= names.to_set().insert(name));
    if names.no_duplicates() && !names.contains(name) {
        assert forall|i: int, j: int| 0 <= i < longer.len() && 0 <= j < longer.len() && i != j implies longer[i]
            != longer[j] by {
            if i < names.len() {
                assert(names.contains(names[i]));
            }
            if j < names.len() {
                assert(names.contains(names[j]));
            }
        }
    }
}

proof fn lemma_index_of(names: Seq<Seq<char>>, i: int)
    requires
        names.no_duplicates(),
        0 <= i < names.len(),
    ensures
        names.contains(names[i]),
        names.index_of(names[i]) == i,
{
    let j = names.index_of(names[i]);
    assert(0 <= j < names.len() && names[j] == names[i]);
}

proof fn lemma_table_after_set(names: Seq<Seq<char>>, scores: Seq<i64>, i: int, score: i64)
    requires
        names.no_duplicates(),
        names.len() == scores.len(),
        0 <= i < names.len(),
    ensures
        score_table(names, scores.update(i, score)) == score_table(names, scores).insert(
            names[i],
            score as int,
        ),
{
    let before = score_table(names, scores);
    let after = score_table(names, scores.update(i, score));
    lemma_index_of(names, i);
    assert forall|name: Seq<char>| after.dom().contains(name) implies #[trigger] after[name]
        == before.insert(names[i], score as int)[name] by {
        let j = names.index_of(name);
        assert(0 <= j < names.len() && names[j] == name);
    }
    assert(after =~= before.insert(names[i], score as int));
}

/// A table with one more name at the end of its rows is the table with an
/// entry for that name, if the name is a new one.
pub proof fn lemma_table_after_push(names: Seq<Seq<char>>, scores: Seq<i64>, name: Seq<char>, score: i64)
    requires
        names.no_duplicates(),
        names.len() == scores.len(),
        !names.contains(name),
    ensures
        names.push(name).no_duplicates(),
        score_table(names.push(name), scores.push(score)) == score_table(names, scores).insert(
            name,
            score as int,
        ),
{
    let longer = names.push(name);
    let before = score_table(names, scores);
    let after = score_table(longer, scores.push(score));
    lemma_row_after_push(names, name);
    assert forall|other: Seq<char>| after.dom().contains(other) <==> before.insert(
        name,
        score as int,
    ).dom().contains(other) by {
        assert(longer.to_set().contains(other) == longer.contains(other));
        assert(names.to_set().contains(other) == names.contains(other));
    }
    assert forall|other: Seq<char>| after.dom().contains(other) implies #[trigger] after[other]
        == before.insert(name, score as int)[other] by {
        let k = longer.index_of(other);
        assert(0 <= k < longer.len() && longer[k] == other);
        lemma_index_of(longer, k);
        if k < names.len() {
            lemma_index_of(names, k);
        }
    }
    assert(after =~= before.insert(name, score as int));
}

/// Finds a name in a row of names.
pub(crate) fn position(names: &Vec<String>, name: &str) -> (found: Option<usize>)
    ensures
        match found {
            Some(i) => i < names@.len() && names@[i as int]@ == name@,
            None => !texts(names@).contains(name@),
        },
{
    let mut i: usize = 0;
    while i < names.len()
        invariant
            i <= names@.len(),
            forall|k: int| 0 <= k < i ==> names@[k]@ != name@,
        decreases names@.len() - i,
    {
        if same_text(names[i].as_str(), name) {
            return Some(i);
        }
        i += 1;
    }
    None
}

/// The scores of the players of a match.
#[derive(Debug)]
pub struct ScoreBoard {
    players: Vec<String>,
    scores: Vec<i64>,
}

impl View for ScoreBoard {
    type V = Map<Seq<char>, int>;

    closed spec fn view(&self) -> Map<Seq<char>, int> {
        score_table(texts(self.players@), self.scores@)
    }
}

impl ScoreBoard {
    /// No player is listed twice, and every player has one score.
    pub closed spec fn wf(&self) -> bool {
        &&& texts(self.players@).no_duplicates()
        &&& self.players@.len() == self.scores@.len()
    }

    /// Whether every score can still move a point up or down.
    pub open spec fn has_room(&self) -> bool {
        forall|player: Seq<char>|
            self@.dom().contains(player) ==> i64::MIN < #[trigger] self@[player] < i64::MAX
    }

    /// A board without entries.
    pub fn new() -> (board: ScoreBoard)
        ensures
            board.wf(),
            board@ == Map::<Seq<char>, int>::empty(),
    {
        let board = ScoreBoard { players: Vec::new(), scores: Vec::new() };
        proof {
            assert(texts(board.players@) =~= Seq::<Seq<char>>::empty());
            assert(board@ =~= Map::<Seq<char>, int>::empty());
        }
        board
    }

    /// The score of a player, if the player has one.
    pub fn score(&self, player: &str) -> (score: Option<i64>)
        requires
            self.wf(),
        ensures
            match score {
                Some(n) => self@.dom().contains(player@) && self@[player@] == n,
                None => !self@.dom().contains(player@),
            },
    {
        match position(&self.players, player) {
            Some(i) => {
                proof {
                    assert(texts(self.players@)[i as int] == player@);
                    lemma_index_of(texts(self.players@), i as int);
                }
                Some(self.scores[i])
            },
            None => None,
        }
    }

    /// The entries of the board: each player that has a score once, with
    /// the score.
    pub fn entries(&self) -> (entries: Vec<(String, i64)>)
        requires
            self.wf(),
        ensures
            forall|i: int|
                0 <= i < entries@.len() ==> self@.dom().contains(#[trigger] entries@[i].0@)
                    && self@[entries@[i].0@] == entries@[i].1,
            forall|player: Seq<char>|
                self@.dom().contains(player) ==> exists|i: int|
                    0 <= i < entries@.len() && #[trigger] entries@[i].0@ == player,
            forall|i: int, j: int|
                0 <= i < j < entries@.len() ==> entries@[i].0@ != entries@[j].0@,
    {
        let ghost names = texts(self.players@);
        let mut entries: Vec<(String, i64)> = Vec::new();
        let mut i: usize = 0;
        while i < self.players.len()
            invariant
                self.wf(),
                names == texts(self.players@),
                i <= self.players@.len(),
                entries@.len() == i,
                forall|k: int|
                    0 <= k < i ==> (#[trigger] entries@[k]).0@ == names[k] && entries@[k].1
                        == self.scores@[k],
            decreases self.players@.len() - i,
        {
            entries.push((self.players[i].clone(), self.scores[i]));
            i += 1;
        }
        proof {
            assert forall|k: int| 0 <= k < entries@.len() implies self@.dom().contains(
                #[trigger] entries@[k].0@,
            ) && self@[entries@[k].0@] == entries@[k].1 by {
                lemma_index_of(names, k);
            }
            assert forall|player: Seq<char>| self@.dom().contains(player) implies exists|k: int|
                0 <= k < entries@.len() && #[trigger] entries@[k].0@ == player by {
                let k = names.index_of(player);
                assert(0 <= k < names.len() && names[k] == player);
                assert(entries@[k].0@ == player);
            }
        }
        entries
    }

    /// Gives a player an entry with a score. A player who has an entry
    /// keeps it, and nothing is added.
    pub fn add_entry(&mut self, player: &str, score: i64) -> (added: bool)
        requires
            old(self).wf(),
        ensures
            final(self).wf(),
            added == !old(self)@.dom().contains(player@),
            final(self)@ == if added {
                old(self)@.insert(player@, score as int)
            } else {
                old(self)@
            },
    {
        let ghost names = texts(self.players@);
        match position(&self.players, player) {
            Some(i) => {
                proof {
                    assert(names[i as int] == player@);
                }
                false
            },
            None => {
                self.players.push(player.to_string());
                self.scores.push(score);
                proof {
                    assert(texts(self.players@) =~= names.push(player@));
                    lemma_table_after_push(names, old(self).scores@, player@, score);
                }
                true
            },
        }
    }

    /// Moves a player's score one point up or down.
    fn adjust(&mut self, player: &str, delta: i64)
        requires
            old(self).wf(),
            -1 <= delta <= 1,
            i64::MIN <= score_of(old(self)@, player@) + delta <= i64::MAX,
        ensures
            final(self).wf(),
            final(self)@ == adjusted(old(self)@, player@, delta as int),
    {
        let ghost names = texts(self.players@);
        match position(&self.players, player) {
            Some(i) => {
                proof {
                    assert(names[i as int] == player@);
                    lemma_index_of(names, i as int);
                }
                let score = self.scores[i];
                self.scores.set(i, score + delta);
                proof {
                    lemma_table_after_set(names, old(self).scores@, i as int, (score + delta) as i64);
                }
            },
            None => {
                self.players.push(player.to_string());
                self.scores.push(delta);
                proof {
                    assert(texts(self.players@) =~= names.push(player@));
                    lemma_table_after_push(names, old(self).scores@, player@, delta);
                }
            },
        }
    }

    /// Moves the scores as the policy says for a kill.
    pub fn score_kill(&mut self, killer: &str, victim: &str, world: &str, rules: &KillsRules)
        requires
            old(self).wf(),
            old(self).has_room(),
        ensures
            final(self).wf(),
            final(self)@ == scored(old(self)@, killer@, victim@, world@, *rules),
    {
        if same_text(killer, world) {
            self.adjust(victim, -1);
        } else {
            if !same_text(killer, victim) || rules.kill_yourself_increases_score {
                self.adjust(killer, 1);
            }
            if rules.being_killed_decreases_score {
                self.adjust(victim, -1);
            }
        }
    }
}

} // verus!
