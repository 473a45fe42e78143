use crate::config::config::KillsRules;
use crate::config::dynamic_config::Config;
use crate::config::static_config::StaticConfig;
use crate::errors::{LineFailure, LogParserError};
use crate::implementation::label::{label_text, match_label};
use crate::implementation::line_event::{decode, EventFacts, LineEvent};
use crate::implementation::log_event::PatternSet;
use crate::implementation::kill_scorer::texts;
use crate::implementation::match_data::{MatchData, MatchView};
use vstd::prelude::*;

verus! {

/// What a run is told besides its patterns.
pub struct Settings {
    /// The name under which the world stands in the killer's place.
    pub world: Seq<char>,
    /// The key from which the labels of the matches are made.
    pub match_key: Seq<char>,
    /// The scoring policy.
    pub rules: KillsRules,
}

/// What a line stands for, or why it is set aside.
pub type Event = Result<EventFacts, LineFailure>;

impl MatchView {
    /// The statistics of a match after a line. Only a player's name and a
    /// kill change them.
    pub open spec fn after(self, settings: Settings, event: Event) -> MatchView {
        match event {
            Ok(EventFacts::PlayerInfo(player)) => self.with_player(player),
            Ok(EventFacts::Kill(kill)) => self.with_kill(kill, settings.world, settings.rules),
            _ => self,
        }
    }

    /// The warning that a line gives rise to when it meets these statistics.
    pub open spec fn failure(self, event: Event) -> Option<LineFailure> {
        match event {
            Err(failure) => Some(failure),
            Ok(EventFacts::Kill(kill)) => if self.cause_unknown(kill) {
                Some(LineFailure::UnknownCause)
            } else {
                None
            },
            _ => None,
        }
    }
}

/// Whether a line starts a match.
pub open spec fn is_match_start(event: Event) -> bool {
    event == Ok::<EventFacts, LineFailure>(EventFacts::InitMatch)
}

/// Whether a line is a kill whose fields could be taken apart.
pub open spec fn is_kill(event: Event) -> bool {
    event matches Ok(EventFacts::Kill(_))
}

/// The number of lines in a row that are of a given sort.
pub open spec fn count(events: Seq<Event>, sort: spec_fn(Event) -> bool) -> nat
    decreases events.len(),
{
    if events.len() == 0 {
        0
    } else {
        count(events.drop_last(), sort) + if sort(events.last()) {
            1nat
        } else {
            0nat
        }
    }
}

/// The number of kills in a row of lines.
pub open spec fn kill_count(events: Seq<Event>) -> nat {
    count(events, |event: Event| is_kill(event))
}

/// A line at the end of a row counts for one if it is of the sort.
pub proof fn lemma_count_push(events: Seq<Event>, event: Event, sort: spec_fn(Event) -> bool)
    ensures
        count(events.push(event), sort) == count(events, sort) + if sort(event) {
            1nat
        } else {
            0nat
        },
        count(seq![event], sort) == if sort(event) {
            1nat
        } else {
            0nat
        },
{
    assert(events.push(event).drop_last() =~= events);
    assert(seq![event].drop_last() =~= Seq::<Event>::empty());
    assert(count(Seq::<Event>::empty(), sort) == 0);
}

/// A row has no more lines of a sort than it has lines, and the lines
/// before a place of a row are no more of a sort than those of the row.
pub proof fn lemma_count_prefix(events: Seq<Event>, sort: spec_fn(Event) -> bool, place: int)
    requires
        0 <= place <= events.len(),
    ensures
        count(events, sort) <= events.len(),
        count(events.take(place), sort) <= count(events, sort),
    decreases events.len(),
{
    if events.len() > 0 {
        lemma_count_prefix(events.drop_last(), sort, if place < events.len() {
            place
        } else {
            0
        });
        if place < events.len() {
            assert(events.drop_last().take(place) =~= events.take(place));
        } else {
            assert(events.take(place) =~= events);
        }
    } else {
        assert(events.take(place) =~= events);
    }
}

/// The state of a run: the matches that are completed, in order, the match
/// that is being played, and whether a match has started at all.
pub struct ParserView {
    pub completed: Seq<MatchView>,
    pub current: MatchView,
    pub started: bool,
}

impl ParserView {
    /// The state in which a run begins.
    pub open spec fn initial(show_death_causes: bool) -> ParserView {
        ParserView {
            completed: Seq::empty(),
            current: MatchView::fresh(show_death_causes),
            started: false,
        }
    }

    /// The state after a line.
    ///
    /// The first start of a match only notes that a match has started. Each
    /// later one completes the match that is being played: its record takes
    /// the label of its place among the completed matches and joins them,
    /// and a new record is begun. Any other line only concerns the record of
    /// the match that is being played.
    pub open spec fn after(self, settings: Settings, event: Event) -> ParserView {
        if is_match_start(event) {
            if self.started {
                ParserView {
                    completed: self.completed.push(
                        self.current.labelled(label_text(settings.match_key, self.completed.len())),
                    ),
                    current: MatchView::fresh(settings.rules.show_death_causes),
                    started: true,
                }
            } else {
                ParserView { started: true, ..self }
            }
        } else {
            ParserView { current: self.current.after(settings, event), ..self }
        }
    }

    /// The state after a row of lines, taken in order.
    pub open spec fn run(self, settings: Settings, events: Seq<Event>) -> ParserView
        decreases events.len(),
    {
        if events.len() == 0 {
            self
        } else {
            self.run(settings, events.drop_last()).after(settings, events.last())
        }
    }

    /// The warnings of a row of lines: one for each line that gives rise to
    /// one, in the order of the lines, with the place of the line in the row.
    pub open spec fn warnings(self, settings: Settings, events: Seq<Event>) -> Seq<LineWarning>
        decreases events.len(),
    {
        if events.len() == 0 {
            Seq::empty()
        } else {
            let before = self.warnings(settings, events.drop_last());
            match self.run(settings, events.drop_last()).current.failure(events.last()) {
                Some(failure) => before.push(
                    LineWarning { line: (events.len() - 1) as usize, failure },
                ),
                None => before,
            }
        }
    }

    /// Every record is well formed, and each completed one has the label of
    /// its place.
    pub open spec fn wf(self, match_key: Seq<char>) -> bool {
        &&& self.current.wf()
        &&& forall|i: int|
            0 <= i < self.completed.len() ==> (#[trigger] self.completed[i]).wf()
                && self.completed[i].label == label_text(match_key, i as nat)
    }

    /// A line keeps the state well formed, and adds at most one kill to the
    /// match that is being played.
    pub proof fn lemma_after_wf(self, settings: Settings, event: Event)
        requires
            self.wf(settings.match_key),
        ensures
            self.after(settings, event).wf(settings.match_key),
            self.after(settings, event).current.total_kills <= self.current.total_kills + if is_kill(
                event,
            ) {
                1nat
            } else {
                0nat
            },
            ParserView::initial(settings.rules.show_death_causes).wf(settings.match_key),
    {
        if let Ok(EventFacts::Kill(kill)) = event {
            self.current.lemma_with_kill_wf(kill, settings.world, settings.rules);
        }
        MatchView::lemma_fresh_wf(settings.rules.show_death_causes);
    }
}

/// What the lines of a log say under a set of patterns, line by line.
pub open spec fn decoded(patterns: PatternSet, lines: Seq<Seq<char>>) -> Seq<Event> {
    Seq::new(lines.len(), |i: int| decode(patterns, lines[i]))
}

/// A line that was set aside: its place among the lines that were handed
/// over, counted from zero, and the reason.
#[derive(Debug, Clone, Copy, PartialEq, Eq, Structural)]
pub struct LineWarning {
    pub line: usize,
    pub failure: LineFailure,
}

/// The result of a step that can only fail as a line fails.
pub open spec fn outcome(failure: Option<LineFailure>) -> Result<(), LineFailure> {
    match failure {
        Some(reason) => Err(reason),
        None => Ok(()),
    }
}

/// Gathers the statistics of the matches of a log, line by line.
pub struct ConcreteLogParser {
    patterns: PatternSet,
    world: String,
    match_key: String,
    rules: KillsRules,
    matches_data: Vec<MatchData>,
    current_match_data: MatchData,
    first_match: bool,
}

impl View for ConcreteLogParser {
    type V = ParserView;

    closed spec fn view(&self) -> ParserView {
        ParserView {
            completed: Seq::new(self.matches_data@.len(), |i: int| self.matches_data@[i]@),
            current: self.current_match_data@,
            started: !self.first_match,
        }
    }
}

impl ConcreteLogParser {
    /// The patterns by which the lines are read.
    pub closed spec fn spec_patterns(&self) -> PatternSet {
        self.patterns
    }

    /// What the run is told besides its patterns.
    pub closed spec fn settings(&self) -> Settings {
        Settings { world: self.world@, match_key: self.match_key@, rules: self.rules }
    }

    /// The parser is kept in order, and its state is well formed.
    pub closed spec fn wf(&self) -> bool {
        &&& self.patterns.wf()
        &&& self.current_match_data.wf()
        &&& forall|i: int| 0 <= i < self.matches_data@.len() ==> (#[trigger] self.matches_data@[i]).wf()
        &&& self@.wf(self.match_key@)
    }

    /// The state of a parser that is kept in order is well formed.
    pub proof fn lemma_view_wf(&self)
        requires
            self.wf(),
        ensures
            self.spec_patterns().wf(),
            self@.wf(self.settings().match_key),
            self@.current.total_kills <= u64::MAX,
    {
        self.current_match_data.lemma_view_wf();
    }

    /// A parser at the beginning of a run, with patterns that are compiled
    /// already.
    pub fn with_patterns(patterns: PatternSet, world: String, match_key: String, rules: KillsRules) -> (parser:
        ConcreteLogParser)
        requires
            patterns.wf(),
        ensures
            parser.wf(),
            parser.spec_patterns() == patterns,
            parser.settings() == (Settings { world: world@, match_key: match_key@, rules }),
            parser@ == ParserView::initial(rules.show_death_causes),
    {
        let parser = ConcreteLogParser {
            patterns,
            world,
            match_key,
            rules,
            matches_data: Vec::new(),
            current_match_data: MatchData::new(rules.show_death_causes),
            first_match: true,
        };
        proof {
            parser.current_match_data.lemma_view_wf();
            assert(parser@.completed =~= Seq::<MatchView>::empty());
        }
        parser
    }

    /// A parser at the beginning of a run. The patterns of the configuration
    /// are compiled, and there is a parser exactly when the pattern engine
    /// compiles every one of them.
    pub fn new(static_config: &StaticConfig, config: &Config) -> (r: Result<
        ConcreteLogParser,
        LogParserError,
    >)
        ensures
            r is Ok == PatternSet::all_compile(static_config.regex_pattern_engine),
            match r {
                Ok(parser) => {
                    &&& parser.wf()
                    &&& parser.spec_patterns().compiled_from(static_config.regex_pattern_engine)
                    &&& parser.settings() == (Settings {
                        world: static_config.log_patterns.world@,
                        match_key: static_config.output_format.match_key@,
                        rules: config.kills_rules,
                    })
                    &&& parser@ == ParserView::initial(config.kills_rules.show_death_causes)
                },
                Err(error) => error == LogParserError::RegexParserError,
            },
    {
        match PatternSet::new(&static_config.regex_pattern_engine) {
            Ok(patterns) => Ok(
                ConcreteLogParser::with_patterns(
                    patterns,
                    static_config.log_patterns.world.clone(),
                    static_config.output_format.match_key.clone(),
                    config.kills_rules,
                ),
            ),
            Err(error) => Err(error),
        }
    }

    /// Changes the scoring policy for the lines to come. Whether causes are
    /// tracked takes effect with the next match that starts.
    pub fn set_rules(&mut self, rules: KillsRules)
        requires
            old(self).wf(),
        ensures
            final(self).wf(),
            final(self)@ == old(self)@,
            final(self).spec_patterns() == old(self).spec_patterns(),
            final(self).settings() == (Settings { rules, ..old(self).settings() }),
    {
        self.rules = rules;
    }

    /// The label that the match being played will get when it is completed.
    pub fn get_match_label(&self) -> (label: String)
        ensures
            label@ == label_text(self.settings().match_key, self@.completed.len()),
    {
        match_label(self.match_key.as_str(), self.matches_data.len())
    }

    /// Puts a record at the end of the completed matches. The record must
    /// carry the label of that place.
    fn register_new_match_stat(&mut self, match_stats: MatchData)
        requires
            old(self).wf(),
            match_stats.wf(),
            match_stats@.label == label_text(old(self).settings().match_key, old(self)@.completed.len()),
        ensures
            final(self).wf(),
            final(self)@ == (ParserView {
                completed: old(self)@.completed.push(match_stats@),
                ..old(self)@
            }),
            final(self).spec_patterns() == old(self).spec_patterns(),
            final(self).settings() == old(self).settings(),
    {
        proof {
            match_stats.lemma_view_wf();
        }
        self.matches_data.push(match_stats);
        assert(self@.completed =~= old(self)@.completed.push(match_stats@));
    }

    /// Takes what a line says into the statistics.
    ///
    /// The only line that is set aside here is a kill whose cause is not
    /// known while causes are tracked, and it is set aside after the kill
    /// was counted and scored. A kill needs room in the counter of kills;
    /// no other line needs any.
    pub fn apply_event(&mut self, event: &LineEvent) -> (r: Result<(), LineFailure>)
        requires
            old(self).wf(),
            event is Kill ==> old(self)@.current.total_kills < i64::MAX,
        ensures
            final(self).wf(),
            final(self).spec_patterns() == old(self).spec_patterns(),
            final(self).settings() == old(self).settings(),
            final(self)@ == old(self)@.after(
                old(self).settings(),
                Ok::<EventFacts, LineFailure>(event@),
            ),
            r == outcome(old(self)@.current.failure(Ok::<EventFacts, LineFailure>(event@))),
    {
        proof {
            self.lemma_view_wf();
            self@.lemma_after_wf(self.settings(), Ok::<EventFacts, LineFailure>(event@));
        }
        match event {
            LineEvent::InitMatch => {
                if self.first_match {
                    self.first_match = false;
                } else {
                    let label = self.get_match_label();
                    let mut done = MatchData::new(self.rules.show_death_causes);
                    core::mem::swap(&mut self.current_match_data, &mut done);
                    done.set_label(label);
                    self.register_new_match_stat(done);
                }
                Ok(())
            },
            LineEvent::PlayerInfo(player) => {
                self.current_match_data.add_player(player.as_str());
                Ok(())
            },
            LineEvent::Kill(kill) => self.current_match_data.register_kill(
                kill,
                self.world.as_str(),
                &self.rules,
            ),
            LineEvent::Other(_) => Ok(()),
        }
    }

    /// Reads one line of the log and takes it into the statistics. A line
    /// that cannot be used is set aside, and the reason is returned; the
    /// statistics are then as they were, except after a kill whose cause is
    /// not known, which is counted and scored all the same. A kill needs
    /// room in the counter of kills; no other line needs any.
    pub fn parse_log_line(&mut self, line: &str) -> (r: Result<(), LineFailure>)
        requires
            old(self).wf(),
            is_kill(decode(old(self).spec_patterns(), line@)) ==> old(self)@.current.total_kills
                < i64::MAX,
        ensures
            final(self).wf(),
            final(self).spec_patterns() == old(self).spec_patterns(),
            final(self).settings() == old(self).settings(),
            final(self)@ == old(self)@.after(
                old(self).settings(),
                decode(old(self).spec_patterns(), line@),
            ),
            r == outcome(old(self)@.current.failure(decode(old(self).spec_patterns(), line@))),
    {
        match LineEvent::decode_line(&self.patterns, line) {
            Ok(event) => self.apply_event(&event),
            Err(failure) => Err(failure),
        }
    }

    /// Reads the lines of a log in order and takes them into the statistics.
    /// No line stops the run: each line that is set aside gives one warning,
    /// and the warnings come in the order of the lines.
    ///
    /// The end of the lines completes nothing: the match that is being
    /// played then stays the match that is being played, and only a further
    /// start of a match would complete it. The kills among the lines need
    /// room in the counter of kills; there are no more of them than lines.
    pub fn parse_lines(&mut self, lines: &Vec<String>) -> (warnings: Vec<LineWarning>)
        requires
            old(self).wf(),
            old(self)@.current.total_kills + kill_count(
                decoded(old(self).spec_patterns(), texts(lines@)),
            ) <= i64::MAX,
        ensures
            final(self).wf(),
            final(self).spec_patterns() == old(self).spec_patterns(),
            final(self).settings() == old(self).settings(),
            final(self)@ == old(self)@.run(
                old(self).settings(),
                decoded(old(self).spec_patterns(), texts(lines@)),
            ),
            warnings@ == old(self)@.warnings(
                old(self).settings(),
                decoded(old(self).spec_patterns(), texts(lines@)),
            ),
    {
        let ghost settings = self.settings();
        let ghost events = decoded(self.spec_patterns(), texts(lines@));
        let mut warnings: Vec<LineWarning> = Vec::new();
        let mut i: usize = 0;
        assert(events.take(0) =~= Seq::<Event>::empty());
        while i < lines.len()
            invariant
                self.wf(),
                self.spec_patterns() == old(self).spec_patterns(),
                self.settings() == settings,
                settings == old(self).settings(),
                events == decoded(old(self).spec_patterns(), texts(lines@)),
                i <= lines@.len(),
                old(self)@.current.total_kills + kill_count(events) <= i64::MAX,
                self@.current.total_kills <= old(self)@.current.total_kills + kill_count(
                    events.take(i as int),
                ),
                self@ == old(self)@.run(settings, events.take(i as int)),
                warnings@ == old(self)@.warnings(settings, events.take(i as int)),
            decreases lines@.len() - i,
        {
            proof {
                self.lemma_view_wf();
                self@.lemma_after_wf(settings, events[i as int]);
                assert(events.take(i + 1).drop_last() =~= events.take(i as int));
                assert(events.take(i + 1).last() == events[i as int]);
                assert(events.take(i + 1) =~= events.take(i as int).push(events[i as int]));
                assert(texts(lines@)[i as int] == lines@[i as int]@);
                lemma_count_push(events.take(i as int), events[i as int], |event: Event| is_kill(event));
                lemma_count_prefix(events, |event: Event| is_kill(event), i + 1);
            }
            match self.parse_log_line(lines[i].as_str()) {
                Ok(()) => {},
                Err(failure) => {
                    warnings.push(LineWarning { line: i, failure });
                },
            }
            i += 1;
        }
        assert(events.take(lines@.len() as int) =~= events);
        warnings
    }

    /// The patterns by which the lines are read.
    pub fn patterns(&self) -> (patterns: &PatternSet)
        ensures
            *patterns == self.spec_patterns(),
    {
        &self.patterns
    }

    /// The completed matches, in the order in which they were played. The
    /// match that is being played is not among them, also when the input
    /// has come to its end: its record is had from `current_match_data`.
    pub fn matches_data(&self) -> (records: &Vec<MatchData>)
        requires
            self.wf(),
        ensures
            records@.len() == self@.completed.len(),
            forall|i: int|
                0 <= i < records@.len() ==> (#[trigger] records@[i]).wf() && records@[i]@
                    == self@.completed[i],
    {
        &self.matches_data
    }

    /// The record of the match that is being played.
    pub fn current_match_data(&self) -> (record: &MatchData)
        requires
            self.wf(),
        ensures
            record.wf(),
            record@ == self@.current,
    {
        &self.current_match_data
    }

    /// Whether a match has started.
    pub fn started(&self) -> (started: bool)
        ensures
            started == self@.started,
    {
        !self.first_match
    }
}

} // verus!
