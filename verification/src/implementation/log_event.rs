use crate::config::config::RegexPatterns;
use crate::errors::LogParserError;
use crate::implementation::pattern::{regex_compiles, regex_is_match, regex_source};
use regex::Regex;
use vstd::prelude::*;

verus! {

/// The kinds of event that a line of the log can stand for.
#[derive(Debug, Clone, Copy, PartialEq, Eq, Structural)]
pub enum LogEvent {
    InitMatch,
    ClientConnect,
    ClientUserinfoChanged,
    ClientBegin,
    ClientDisconnect,
    Item,
    Kill,
    ShutdownGame,
    Exit,
}

/// How many kinds of event there are.
pub const EVENT_COUNT: usize = 9;

impl LogEvent {
    /// The kinds in the order in which their patterns are tried. The order is
    /// fixed: the text of one kind of line can occur inside a line of another
    /// kind, and the kind tried first wins.
    pub open spec fn priority_order() -> Seq<LogEvent> {
        seq![
            LogEvent::Item,
            LogEvent::Kill,
            LogEvent::ClientUserinfoChanged,
            LogEvent::ClientConnect,
            LogEvent::ClientBegin,
            LogEvent::ClientDisconnect,
            LogEvent::InitMatch,
            LogEvent::ShutdownGame,
            LogEvent::Exit,
        ]
    }

    /// The place of this kind in the priority order.
    pub open spec fn rank(self) -> int {
        match self {
            LogEvent::Item => 0,
            LogEvent::Kill => 1,
            LogEvent::ClientUserinfoChanged => 2,
            LogEvent::ClientConnect => 3,
            LogEvent::ClientBegin => 4,
            LogEvent::ClientDisconnect => 5,
            LogEvent::InitMatch => 6,
            LogEvent::ShutdownGame => 7,
            LogEvent::Exit => 8,
        }
    }

    /// The place of this kind in the priority order.
    pub fn rank_index(&self) -> (rank: usize)
        ensures
            rank == self.rank(),
            rank < EVENT_COUNT,
    {
        match self {
            LogEvent::Item => 0,
            LogEvent::Kill => 1,
            LogEvent::ClientUserinfoChanged => 2,
            LogEvent::ClientConnect => 3,
            LogEvent::ClientBegin => 4,
            LogEvent::ClientDisconnect => 5,
            LogEvent::InitMatch => 6,
            LogEvent::ShutdownGame => 7,
            LogEvent::Exit => 8,
        }
    }

    /// Every kind stands in the priority order once, at its rank.
    pub proof fn lemma_rank(self)
        ensures
            0 <= self.rank() < EVENT_COUNT,
            Self::priority_order().len() == EVENT_COUNT,
            Self::priority_order()[self.rank()] == self,
            forall|i: int|
                0 <= i < EVENT_COUNT ==> (#[trigger] Self::priority_order()[i]).rank() == i,
    {
    }

    /// The kind that is tried at a place of the priority order.
    pub fn by_rank(rank: usize) -> (event: LogEvent)
        requires
            rank < EVENT_COUNT,
        ensures
            event == Self::priority_order()[rank as int],
            event.rank() == rank,
    {
        match rank {
            0 => LogEvent::Item,
            1 => LogEvent::Kill,
            2 => LogEvent::ClientUserinfoChanged,
            3 => LogEvent::ClientConnect,
            4 => LogEvent::ClientBegin,
            5 => LogEvent::ClientDisconnect,
            6 => LogEvent::InitMatch,
            7 => LogEvent::ShutdownGame,
            _ => LogEvent::Exit,
        }
    }

    /// The first kind, from place `from` of the priority order on, whose
    /// pattern answered yes. `answers` holds one answer for each place.
    pub open spec fn first_yes(answers: Seq<bool>, from: int) -> Option<LogEvent>
        decreases EVENT_COUNT - from,
    {
        if from < 0 || from >= EVENT_COUNT || from >= answers.len() {
            None
        } else if answers[from] {
            Some(Self::priority_order()[from])
        } else {
            Self::first_yes(answers, from + 1)
        }
    }

    /// The kind of a line, given what each pattern answered for it: the
    /// first kind in priority order whose pattern answered yes, and a
    /// failure where none did.
    pub open spec fn selected(answers: Seq<bool>) -> Result<LogEvent, LogParserError> {
        match Self::first_yes(answers, 0) {
            Some(event) => Ok(event),
            None => Err(LogParserError::RegexParserError),
        }
    }

    /// A kind is selected exactly when its pattern answered yes and no
    /// pattern before it did; none is selected exactly when all answered no.
    pub proof fn lemma_first_yes(answers: Seq<bool>, from: int)
        requires
            0 <= from,
        ensures
            match Self::first_yes(answers, from) {
                Some(event) => {
                    &&& from <= event.rank() < EVENT_COUNT
                    &&& event.rank() < answers.len()
                    &&& answers[event.rank()]
                    &&& forall|i: int| from <= i < event.rank() ==> !answers[i]
                },
                None => forall|i: int| from <= i < EVENT_COUNT && i < answers.len() ==> !answers[i],
            },
        decreases EVENT_COUNT - from,
    {
        if from < EVENT_COUNT && from < answers.len() {
            Self::priority_order()[from].lemma_rank();
            if !answers[from] {
                Self::lemma_first_yes(answers, from + 1);
            }
        }
    }

    /// Picks the kind of a line from the answers of the patterns, which are
    /// given in priority order.
    pub fn select(answers: &Vec<bool>) -> (r: Result<LogEvent, LogParserError>)
        ensures
            r == Self::selected(answers@),
    {
        let mut rank: usize = 0;
        while rank < EVENT_COUNT && rank < answers.len()
            invariant
                rank <= EVENT_COUNT,
                Self::first_yes(answers@, 0) == Self::first_yes(answers@, rank as int),
            decreases EVENT_COUNT - rank,
        {
            if answers[rank] {
                return Ok(LogEvent::by_rank(rank));
            }
            rank += 1;
        }
        Err(LogParserError::RegexParserError)
    }

    /// Finds the kind of a line: the first kind in priority order whose
    /// pattern matches the line. A line that no pattern matches is refused.
    pub fn detect_line_log_event(patterns: &PatternSet, log_line: &str) -> (r: Result<
        LogEvent,
        LogParserError,
    >)
        requires
            patterns.wf(),
        ensures
            r == Self::selected(patterns.answers(log_line@)),
    {
        let mut answers: Vec<bool> = Vec::new();
        let mut rank: usize = 0;
        while rank < EVENT_COUNT
            invariant
                patterns.wf(),
                rank <= EVENT_COUNT,
                answers@.len() == rank,
                forall|k: int|
                    0 <= k < rank ==> #[trigger] answers@[k] == patterns.answers(log_line@)[k],
            decreases EVENT_COUNT - rank,
        {
            answers.push(patterns.detector(LogEvent::by_rank(rank)).is_match(log_line));
            rank += 1;
        }
        assert(answers@ =~= patterns.answers(log_line@));
        LogEvent::select(&answers)
    }
}

/// The compiled patterns of a run: one for each kind of event, by which a
/// line of that kind is recognised, and two that take a line apart, one for
/// kill lines and one for player-info lines.
pub struct PatternSet {
    detectors: Vec<Regex>,
    kill_parser: Regex,
    user_info_parser: Regex,
}

impl PatternSet {
    /// There is one detector for each kind of event, in priority order.
    pub closed spec fn wf(&self) -> bool {
        self.detectors@.len() == EVENT_COUNT
    }

    /// The compiled pattern that recognises lines of a kind.
    pub closed spec fn spec_detector(&self, event: LogEvent) -> Regex {
        self.detectors@[event.rank()]
    }

    /// The compiled pattern that takes a kill line apart.
    pub closed spec fn spec_kill_parser(&self) -> Regex {
        self.kill_parser
    }

    /// The compiled pattern that takes a player-info line apart.
    pub closed spec fn spec_user_info_parser(&self) -> Regex {
        self.user_info_parser
    }

    /// Whether the pattern of a kind matches a line.
    pub open spec fn matches(&self, event: LogEvent, line: Seq<char>) -> bool {
        regex_is_match(self.spec_detector(event), line)
    }

    /// What each pattern answers for a line, in priority order.
    pub open spec fn answers(&self, line: Seq<char>) -> Seq<bool> {
        Seq::new(
            EVENT_COUNT as nat,
            |rank: int| self.matches(LogEvent::priority_order()[rank], line),
        )
    }

    /// The kind of a line, if any pattern matches it.
    pub open spec fn classify(&self, line: Seq<char>) -> Option<LogEvent> {
        LogEvent::first_yes(self.answers(line), 0)
    }

    /// A line has the kind whose pattern matches it while the pattern of no
    /// kind before it in the priority order does, and no kind exactly when
    /// no pattern matches it.
    pub proof fn lemma_classify(&self, line: Seq<char>)
        ensures
            forall|event: LogEvent|
                self.classify(line) == Some(event) <==> #[trigger] self.matches(event, line) && forall|
                    other: LogEvent,
                |
                    other.rank() < event.rank() ==> !self.matches(other, line),
            self.classify(line) is None <==> forall|event: LogEvent| !self.matches(event, line),
    {
        let answers = self.answers(line);
        LogEvent::lemma_first_yes(answers, 0);
        assert forall|event: LogEvent| answers[event.rank()] == self.matches(event, line) by {
            event.lemma_rank();
        }
        assert forall|event: LogEvent|
            self.classify(line) == Some(event) <==> #[trigger] self.matches(event, line) && forall|
                other: LogEvent,
            |
                other.rank() < event.rank() ==> !self.matches(other, line) by {
            event.lemma_rank();
            if self.classify(line) == Some(event) {
                assert forall|other: LogEvent| other.rank() < event.rank() implies !self.matches(
                    other,
                    line,
                ) by {
                    other.lemma_rank();
                    assert(!answers[other.rank()]);
                }
            }
            if self.matches(event, line) && forall|other: LogEvent|
                other.rank() < event.rank() ==> !self.matches(other, line) {
                assert(answers[event.rank()]);
                match self.classify(line) {
                    Some(found) => {
                        found.lemma_rank();
                        assert(answers[found.rank()]);
                        assert(self.matches(found, line));
                        if found.rank() > event.rank() {
                            assert(!answers[event.rank()]);
                        }
                    },
                    None => {
                        assert(!answers[event.rank()]);
                    },
                }
            }
        }
        if self.classify(line) is None {
            assert forall|event: LogEvent| !self.matches(event, line) by {
                event.lemma_rank();
                assert(!answers[event.rank()]);
            }
        }
        if forall|event: LogEvent| !self.matches(event, line) {
            if let Some(found) = self.classify(line) {
                found.lemma_rank();
                assert(self.matches(found, line));
            }
        }
    }

    /// The kind of a line is a matter of the patterns and the line alone:
    /// two classifications of one line under one set of patterns agree.
    pub proof fn lemma_classification_repeats(
        &self,
        line: Seq<char>,
        first: Result<LogEvent, LogParserError>,
        second: Result<LogEvent, LogParserError>,
    )
        requires
            first == LogEvent::selected(self.answers(line)),
            second == LogEvent::selected(self.answers(line)),
        ensures
            first == second,
    {
    }

    /// The pattern text from which the pattern set takes the detector of a
    /// kind of event.
    pub open spec fn detector_source(patterns: RegexPatterns, event: LogEvent) -> Seq<char> {
        match event {
            LogEvent::InitMatch => patterns.init_game_event@,
            LogEvent::ClientConnect => patterns.client_connect_event@,
            LogEvent::ClientUserinfoChanged => patterns.client_info_change_event@,
            LogEvent::ClientBegin => patterns.client_begin_event@,
            LogEvent::ClientDisconnect => patterns.client_disconnect_event@,
            LogEvent::Item => patterns.item_event@,
            LogEvent::Kill => patterns.kill_event@,
            LogEvent::ShutdownGame => patterns.shutdown_event@,
            LogEvent::Exit => patterns.exit_event@,
        }
    }

    /// Whether every pattern of the set was compiled from the text that the
    /// configuration gives for it.
    pub open spec fn compiled_from(&self, patterns: RegexPatterns) -> bool {
        &&& forall|event: LogEvent|
            regex_source(#[trigger] self.spec_detector(event)) == Self::detector_source(
                patterns,
                event,
            )
        &&& regex_source(self.spec_kill_parser()) == patterns.kill_event_line_parser@
        &&& regex_source(self.spec_user_info_parser()) == patterns.user_info_line_parser@
    }

    /// Maps the refusal of a pattern by the engine to the failure that a
    /// run reports for it.
    pub fn compiled(r: Result<Regex, regex::Error>) -> (compiled: Result<Regex, LogParserError>)
        ensures
            match r {
                Ok(re) => compiled == Ok::<Regex, LogParserError>(re),
                Err(_) => compiled == Err::<Regex, LogParserError>(LogParserError::RegexParserError),
            },
    {
        match r {
            Ok(re) => Ok(re),
            Err(_) => Err(LogParserError::RegexParserError),
        }
    }

    /// The pattern text that the configuration gives for the detector of a
    /// kind of event.
    pub fn detector_pattern(patterns: &RegexPatterns, event: LogEvent) -> (source: &String)
        ensures
            source@ == Self::detector_source(*patterns, event),
    {
        match event {
            LogEvent::InitMatch => &patterns.init_game_event,
            LogEvent::ClientConnect => &patterns.client_connect_event,
            LogEvent::ClientUserinfoChanged => &patterns.client_info_change_event,
            LogEvent::ClientBegin => &patterns.client_begin_event,
            LogEvent::ClientDisconnect => &patterns.client_disconnect_event,
            LogEvent::Item => &patterns.item_event,
            LogEvent::Kill => &patterns.kill_event,
            LogEvent::ShutdownGame => &patterns.shutdown_event,
            LogEvent::Exit => &patterns.exit_event,
        }
    }

    /// Whether the pattern engine compiles every pattern of a
    /// configuration: the detector of each kind of event and the two
    /// patterns that take lines apart.
    pub open spec fn all_compile(patterns: RegexPatterns) -> bool {
        &&& forall|event: LogEvent| regex_compiles(#[trigger] Self::detector_source(patterns, event))
        &&& regex_compiles(patterns.kill_event_line_parser@)
        &&& regex_compiles(patterns.user_info_line_parser@)
    }

    /// Compiles the patterns of a configuration. There is a set exactly when
    /// the pattern engine compiles every one of them.
    pub fn new(patterns: &RegexPatterns) -> (r: Result<PatternSet, LogParserError>)
        ensures
            r is Ok == Self::all_compile(*patterns),
            match r {
                Ok(set) => set.wf() && set.compiled_from(*patterns),
                Err(error) => error == LogParserError::RegexParserError,
            },
    {
        let mut detectors: Vec<Regex> = Vec::new();
        let mut rank: usize = 0;
        while rank < EVENT_COUNT
            invariant
                rank <= EVENT_COUNT,
                detectors@.len() == rank,
                forall|k: int|
                    0 <= k < rank ==> regex_source(#[trigger] detectors@[k]) == Self::detector_source(
                        *patterns,
                        LogEvent::priority_order()[k],
                    ),
                forall|event: LogEvent|
                    event.rank() < rank ==> regex_compiles(
                        #[trigger] Self::detector_source(*patterns, event),
                    ),
            decreases EVENT_COUNT - rank,
        {
            let event = LogEvent::by_rank(rank);
            let source = Self::detector_pattern(patterns, event);
            match Self::compiled(Regex::new(source.as_str())) {
                Ok(re) => detectors.push(re),
                Err(error) => {
                    assert(!regex_compiles(Self::detector_source(*patterns, event)));
                    return Err(error);
                },
            }
            proof {
                assert forall|other: LogEvent| other.rank() < rank + 1 implies regex_compiles(
                    #[trigger] Self::detector_source(*patterns, other),
                ) by {
                    if other.rank() == rank {
                        other.lemma_rank();
                        event.lemma_rank();
                    }
                }
            }
            rank += 1;
        }
        let kill_parser = match Self::compiled(Regex::new(patterns.kill_event_line_parser.as_str())) {
            Ok(re) => re,
            Err(error) => {
                return Err(error);
            },
        };
        let user_info_parser = match Self::compiled(
            Regex::new(patterns.user_info_line_parser.as_str()),
        ) {
            Ok(re) => re,
            Err(error) => {
                return Err(error);
            },
        };
        let set = PatternSet { detectors, kill_parser, user_info_parser };
        proof {
            assert forall|event: LogEvent|
                regex_compiles(#[trigger] Self::detector_source(*patterns, event)) by {
                event.lemma_rank();
            }
            assert forall|event: LogEvent|
                regex_source(#[trigger] set.spec_detector(event)) == Self::detector_source(
                    *patterns,
                    event,
                ) by {
                event.lemma_rank();
            }
        }
        Ok(set)
    }

    /// The pattern text that the detector of a kind of event was compiled
    /// from.
    pub fn detector_text(&self, event: LogEvent) -> (source: &str)
        requires
            self.wf(),
        ensures
            source@ == regex_source(self.spec_detector(event)),
    {
        self.detector(event).as_str()
    }

    /// The compiled pattern that recognises lines of a kind.
    pub fn detector(&self, event: LogEvent) -> (re: &Regex)
        requires
            self.wf(),
        ensures
            *re == self.spec_detector(event),
    {
        &self.detectors[event.rank_index()]
    }

    /// The compiled pattern that takes a kill line apart.
    pub fn kill_parser(&self) -> (re: &Regex)
        ensures
            *re == self.spec_kill_parser(),
    {
        &self.kill_parser
    }

    /// The compiled pattern that takes a player-info line apart.
    pub fn user_info_parser(&self) -> (re: &Regex)
        ensures
            *re == self.spec_user_info_parser(),
    {
        &self.user_info_parser
    }
}

} // verus!
