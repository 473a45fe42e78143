use crate::errors::{LineFailure, LogParserError};
use crate::implementation::log_event::{LogEvent, PatternSet};
use crate::implementation::pattern::{captures, groups_view, regex_captures};
use vstd::prelude::*;

verus! {

/// The fields of a kill line, as texts.
pub struct KillFacts {
    pub killer: Seq<char>,
    pub victim: Seq<char>,
    pub cause: Seq<char>,
}

/// The fields of a kill line: who killed, who was killed, and the token of
/// the cause of death as it stands in the line.
#[derive(Debug, Clone)]
pub struct KillLine {
    pub killer: String,
    pub victim: String,
    pub cause: String,
}

impl View for KillLine {
    type V = KillFacts;

    open spec fn view(&self) -> KillFacts {
        KillFacts { killer: self.killer@, victim: self.victim@, cause: self.cause@ }
    }
}

/// What a line says, as far as the statistics are concerned.
pub enum EventFacts {
    InitMatch,
    PlayerInfo(Seq<char>),
    Kill(KillFacts),
    Other(LogEvent),
}

/// What a line says, as far as the statistics are concerned: a match starts,
/// a player is named, a kill happened, or something that is only passed over.
#[derive(Debug, Clone)]
pub enum LineEvent {
    InitMatch,
    PlayerInfo(String),
    Kill(KillLine),
    Other(LogEvent),
}

impl View for LineEvent {
    type V = EventFacts;

    open spec fn view(&self) -> EventFacts {
        match self {
            LineEvent::InitMatch => EventFacts::InitMatch,
            LineEvent::PlayerInfo(player) => EventFacts::PlayerInfo(player@),
            LineEvent::Kill(kill) => EventFacts::Kill(kill@),
            LineEvent::Other(event) => EventFacts::Other(*event),
        }
    }
}

/// The fields of a kill line among the groups that its pattern captured:
/// the third group is the killer, the fourth the victim, the fifth the cause.
/// All three must have taken part in the match.
pub open spec fn kill_fields(groups: Seq<Option<Seq<char>>>) -> Option<KillFacts> {
    if groups.len() > 5 && groups[3] is Some && groups[4] is Some && groups[5] is Some {
        Some(KillFacts { killer: groups[3]->0, victim: groups[4]->0, cause: groups[5]->0 })
    } else {
        None
    }
}

/// The player's name among the groups that the pattern of a player-info line
/// captured: the first group, which must have taken part in the match.
pub open spec fn player_field(groups: Seq<Option<Seq<char>>>) -> Option<Seq<char>> {
    if groups.len() > 1 {
        groups[1]
    } else {
        None
    }
}

/// What a line says, given its kind and the groups that the pattern for
/// lines of that kind captured in it. Only kill lines and player-info lines
/// have fields; where these cannot be had the line is set aside.
pub open spec fn event_of_parts(
    kind: Option<LogEvent>,
    groups: Option<Seq<Option<Seq<char>>>>,
) -> Result<EventFacts, LineFailure> {
    match kind {
        None => Err(LineFailure::Classification),
        Some(LogEvent::InitMatch) => Ok(EventFacts::InitMatch),
        Some(LogEvent::ClientUserinfoChanged) => match groups {
            Some(found) => match player_field(found) {
                Some(player) => Ok(EventFacts::PlayerInfo(player)),
                None => Err(LineFailure::Capture),
            },
            None => Err(LineFailure::Capture),
        },
        Some(LogEvent::Kill) => match groups {
            Some(found) => match kill_fields(found) {
                Some(kill) => Ok(EventFacts::Kill(kill)),
                None => Err(LineFailure::Capture),
            },
            None => Err(LineFailure::Capture),
        },
        Some(event) => Ok(EventFacts::Other(event)),
    }
}

/// The groups that a line's fields are taken from: those of the kill pattern
/// for a kill line, those of the player-info pattern for a player-info line.
pub open spec fn field_groups(patterns: PatternSet, kind: Option<LogEvent>, line: Seq<char>) -> Option<
    Seq<Option<Seq<char>>>,
> {
    match kind {
        Some(LogEvent::Kill) => regex_captures(patterns.spec_kill_parser(), line),
        Some(LogEvent::ClientUserinfoChanged) => regex_captures(
            patterns.spec_user_info_parser(),
            line,
        ),
        _ => None,
    }
}

/// What a line says under a set of patterns.
pub open spec fn decode(patterns: PatternSet, line: Seq<char>) -> Result<EventFacts, LineFailure> {
    let kind = patterns.classify(line);
    event_of_parts(kind, field_groups(patterns, kind, line))
}

/// Whether the outcome of reading a line is the one that is called for:
/// the same failure, or an event that says the same.
pub open spec fn decoded_as(r: Result<LineEvent, LineFailure>, facts: Result<EventFacts, LineFailure>) -> bool {
    match r {
        Ok(event) => facts == Ok::<EventFacts, LineFailure>(event@),
        Err(failure) => facts == Err::<EventFacts, LineFailure>(failure),
    }
}

impl KillLine {
    /// Takes the fields of a kill line from the groups that its pattern
    /// captured.
    pub fn from_groups(groups: &Vec<Option<String>>) -> (r: Option<KillLine>)
        ensures
            match r {
                Some(kill) => kill_fields(groups_view(groups@)) == Some(kill@),
                None => kill_fields(groups_view(groups@)) is None,
            },
    {
        if groups.len() <= 5 {
            return None;
        }
        match (&groups[3], &groups[4], &groups[5]) {
            (Some(killer), Some(victim), Some(cause)) => Some(
                KillLine { killer: killer.clone(), victim: victim.clone(), cause: cause.clone() },
            ),
            _ => None,
        }
    }
}

impl LineEvent {
    /// Takes the player's name from the groups that the pattern of a
    /// player-info line captured.
    pub fn player_from_groups(groups: &Vec<Option<String>>) -> (r: Option<String>)
        ensures
            match r {
                Some(player) => player_field(groups_view(groups@)) == Some(player@),
                None => player_field(groups_view(groups@)) is None,
            },
    {
        if groups.len() <= 1 {
            return None;
        }
        match &groups[1] {
            Some(player) => Some(player.clone()),
            None => None,
        }
    }

    /// Says what a line stands for, from the kind that the patterns gave it
    /// and the groups that the pattern for lines of that kind captured.
    pub fn from_parts(kind: Result<LogEvent, LogParserError>, groups: Option<Vec<Option<String>>>) -> (r:
        Result<LineEvent, LineFailure>)
        ensures
            decoded_as(
                r,
                event_of_parts(
                    match kind {
                        Ok(event) => Some(event),
                        Err(_) => None,
                    },
                    match groups {
                        Some(found) => Some(groups_view(found@)),
                        None => None,
                    },
                ),
            ),
    {
        match kind {
            Err(_) => Err(LineFailure::Classification),
            Ok(LogEvent::InitMatch) => Ok(LineEvent::InitMatch),
            Ok(LogEvent::ClientUserinfoChanged) => match groups {
                Some(found) => match LineEvent::player_from_groups(&found) {
                    Some(player) => Ok(LineEvent::PlayerInfo(player)),
                    None => Err(LineFailure::Capture),
                },
                None => Err(LineFailure::Capture),
            },
            Ok(LogEvent::Kill) => match groups {
                Some(found) => match KillLine::from_groups(&found) {
                    Some(kill) => Ok(LineEvent::Kill(kill)),
                    None => Err(LineFailure::Capture),
                },
                None => Err(LineFailure::Capture),
            },
            Ok(event) => Ok(LineEvent::Other(event)),
        }
    }

    /// Reads a line: finds its kind and, for a kill line or a player-info
    /// line, takes its fields apart.
    pub fn decode_line(patterns: &PatternSet, line: &str) -> (r: Result<LineEvent, LineFailure>)
        requires
            patterns.wf(),
        ensures
            decoded_as(r, decode(*patterns, line@)),
    {
        let kind = LogEvent::detect_line_log_event(patterns, line);
        let groups = match kind {
            Ok(LogEvent::Kill) => captures(patterns.kill_parser(), line),
            Ok(LogEvent::ClientUserinfoChanged) => captures(patterns.user_info_parser(), line),
            _ => None,
        };
        LineEvent::from_parts(kind, groups)
    }
}

} // verus!
