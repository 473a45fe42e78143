//! What the observers of a run are told, and in which order.

use crate::errors::{LineFailure, LogParserError};
use crate::implementation::log_parser::{Event, LineWarning, ParserView, Settings};
use crate::implementation::kill_scorer::texts;
use crate::interface::{
    payload_of, warning_payload, CallbackPayload, CallbackType, Notice, Notification,
};
use vstd::prelude::*;

verus! {

/// How a run ended: with its result written out, or with a failure and a
/// word on the circumstances.
pub type Outcome = Result<Seq<char>, (LogParserError, Seq<char>)>;

/// The call that tells of a line that was set aside: a warning with the tag
/// of the kind of failure and the line as it stands in the log.
pub open spec fn warning_notice(lines: Seq<Seq<char>>, warning: LineWarning) -> Notice {
    Notice {
        cb_type: CallbackType::Warning,
        payload: warning_payload(
            warning.failure,
            if warning.line < lines.len() {
                Some(lines[warning.line as int])
            } else {
                None
            },
        ),
    }
}

/// The call that ends a run: a success with the result, or an error with the
/// tag of the failure and the circumstances.
pub open spec fn closing_notice(outcome: Outcome) -> Notice {
    match outcome {
        Ok(result) => Notice {
            cb_type: CallbackType::Success,
            payload: payload_of(CallbackType::Success, None, Some(result)),
        },
        Err((failure, context)) => Notice {
            cb_type: CallbackType::Error,
            payload: payload_of(CallbackType::Error, Some(failure), Some(context)),
        },
    }
}

/// The calls of a run, in order: one warning for each line that was set
/// aside, in the order of the lines, and then one call that ends the run,
/// which is either a success or an error and never both.
pub open spec fn notices(lines: Seq<Seq<char>>, warnings: Seq<LineWarning>, outcome: Outcome) -> Seq<
    Notice,
> {
    Seq::new(warnings.len(), |i: int| warning_notice(lines, warnings[i])).push(
        closing_notice(outcome),
    )
}

/// The calls of a row of notifications, as texts.
pub open spec fn notice_views(calls: Seq<Notification>) -> Seq<Notice> {
    Seq::new(calls.len(), |i: int| calls[i]@)
}

/// How a run ended, as texts.
pub open spec fn outcome_view(outcome: Result<String, (LogParserError, String)>) -> Outcome {
    match outcome {
        Ok(result) => Ok(result@),
        Err((failure, context)) => Err((failure, context@)),
    }
}

/// Lists the calls by which the observers of a run are told of it: the
/// warnings of the lines that were set aside, then the end of the run.
pub fn report(
    lines: &Vec<String>,
    warnings: &Vec<LineWarning>,
    outcome: Result<String, (LogParserError, String)>,
) -> (calls: Vec<Notification>)
    ensures
        notice_views(calls@) == notices(texts(lines@), warnings@, outcome_view(outcome)),
{
    let ghost told = Seq::new(
        warnings@.len(),
        |i: int| warning_notice(texts(lines@), warnings@[i]),
    );
    let mut calls: Vec<Notification> = Vec::new();
    let mut i: usize = 0;
    while i < warnings.len()
        invariant
            i <= warnings@.len(),
            calls@.len() == i,
            forall|k: int| 0 <= k < i ==> (#[trigger] calls@[k])@ == warning_notice(texts(lines@), warnings@[k]),
        decreases warnings@.len() - i,
    {
        let warning = warnings[i];
        let line = if warning.line < lines.len() {
            Some(lines[warning.line].clone())
        } else {
            None
        };
        let payload = CallbackPayload::warning(warning.failure, line);
        calls.push(Notification { cb_type: CallbackType::Warning, payload });
        i += 1;
    }
    let closing = match outcome {
        Ok(result) => Notification {
            cb_type: CallbackType::Success,
            payload: CallbackPayload::new(CallbackType::Success, None, Some(result)),
        },
        Err((failure, context)) => Notification {
            cb_type: CallbackType::Error,
            payload: CallbackPayload::new(CallbackType::Error, Some(failure), Some(context)),
        },
    };
    calls.push(closing);
    assert(notice_views(calls@) =~= told.push(closing_notice(outcome_view(outcome))));
    calls
}

/// The failure that a line of a run gives rise to, if any: what becomes of
/// the line in the state that the lines before it have led to.
pub open spec fn failure_at(state: ParserView, settings: Settings, events: Seq<Event>, place: int) -> Option<
    LineFailure,
> {
    state.run(settings, events.take(place)).current.failure(events[place])
}

/// Whether a row of warnings tells of the lines of a run that were set
/// aside, and of no others: a line has a warning exactly when it gives rise
/// to a failure, the warning names that failure, and the warnings stand in
/// the order of the lines, so that no line has two.
pub open spec fn warnings_tell(
    warnings: Seq<LineWarning>,
    state: ParserView,
    settings: Settings,
    events: Seq<Event>,
) -> bool {
    &&& forall|i: int|
        0 <= i < warnings.len() ==> (#[trigger] warnings[i]).line < events.len() && failure_at(
            state,
            settings,
            events,
            warnings[i].line as int,
        ) == Some(warnings[i].failure)
    &&& forall|i: int, j: int|
        0 <= i < j < warnings.len() ==> (#[trigger] warnings[i]).line < (#[trigger] warnings[j]).line
    &&& forall|place: int|
        0 <= place < events.len() && (#[trigger] failure_at(state, settings, events, place)) is Some
            ==> exists|i: int| 0 <= i < warnings.len() && (#[trigger] warnings[i]).line == place
}

proof fn lemma_failure_at_earlier(state: ParserView, settings: Settings, events: Seq<Event>, place: int)
    requires
        0 <= place < events.len() - 1,
    ensures
        failure_at(state, settings, events.drop_last(), place) == failure_at(
            state,
            settings,
            events,
            place,
        ),
{
    assert(events.drop_last().take(place) =~= events.take(place));
}

/// The warnings of a run tell of the lines that were set aside, and of no
/// others.
pub proof fn lemma_warnings(state: ParserView, settings: Settings, events: Seq<Event>)
    requires
        events.len() <= usize::MAX,
    ensures
        warnings_tell(state.warnings(settings, events), state, settings, events),
    decreases events.len(),
{
    let warnings = state.warnings(settings, events);
    if events.len() > 0 {
        let earlier = events.drop_last();
        let before = state.warnings(settings, earlier);
        let last = events.len() - 1;
        lemma_warnings(state, settings, earlier);
        assert(events.take(last) =~= earlier);
        assert forall|i: int| 0 <= i < before.len() implies (#[trigger] before[i]).line < last && failure_at(
            state,
            settings,
            events,
            before[i].line as int,
        ) == Some(before[i].failure) by {
            lemma_failure_at_earlier(state, settings, events, before[i].line as int);
        }
        assert forall|place: int|
            0 <= place < events.len() && (#[trigger] failure_at(
                state,
                settings,
                events,
                place,
            )) is Some implies exists|i: int|
            0 <= i < warnings.len() && (#[trigger] warnings[i]).line == place by {
            if place < last {
                lemma_failure_at_earlier(state, settings, events, place);
                let i = choose|i: int| 0 <= i < before.len() && (#[trigger] before[i]).line == place;
                assert(warnings[i] == before[i]);
            } else {
                assert(warnings[warnings.len() - 1].line == place);
            }
        }
    }
}

} // verus!
