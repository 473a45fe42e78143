//! What holds of a whole run: how the lines of a log fall into matches, and
//! what the record of each match owes to the lines of its span.

use crate::death_causes::DeathCauses;
use crate::implementation::death_causes::{lemma_total_after_count, tally_total};
use crate::implementation::label::label_text;
use crate::implementation::line_event::{decode, EventFacts};
use crate::implementation::log_event::{LogEvent, PatternSet};
use crate::implementation::log_parser::{
    count, decoded, is_kill, is_match_start, kill_count, lemma_count_push, Event, ParserView, Settings,
};
use crate::implementation::match_data::MatchView;
use crate::errors::LineFailure;
use vstd::prelude::*;

verus! {

/// Whether a line is a kill whose cause of death is a known one.
pub open spec fn is_known_kill(event: Event) -> bool {
    event matches Ok(EventFacts::Kill(kill)) && DeathCauses::of_token(kill.cause) is Some
}

/// The number of kills with a known cause of death in a row of lines.
pub open spec fn known_kill_count(events: Seq<Event>) -> nat {
    count(events, |event: Event| is_known_kill(event))
}

/// The number of lines in a row that start a match.
pub open spec fn match_start_count(events: Seq<Event>) -> nat {
    count(events, |event: Event| is_match_start(event))
}

/// The lines of a log, cut into the spans of its matches.
///
/// A span ends where a match starts, except at the first start of a match:
/// what comes before it belongs to the first match. Each later span begins
/// with the line that starts its match.
pub open spec fn spans(events: Seq<Event>) -> Seq<Seq<Event>>
    decreases events.len(),
{
    if events.len() == 0 {
        seq![Seq::empty()]
    } else {
        let before = spans(events.drop_last());
        if is_match_start(events.last()) && match_start_count(events.drop_last()) > 0 {
            before.push(seq![events.last()])
        } else {
            before.update(before.len() - 1, before.last().push(events.last()))
        }
    }
}

impl MatchView {
    /// The statistics of a match after a row of lines, taken in order.
    pub open spec fn after_all(self, settings: Settings, events: Seq<Event>) -> MatchView
        decreases events.len(),
    {
        if events.len() == 0 {
            self
        } else {
            self.after_all(settings, events.drop_last()).after(settings, events.last())
        }
    }
}

/// The spans of a log, joined again, are the log: no line is lost, none
/// occurs twice, and the order stays.
pub proof fn lemma_spans_join(events: Seq<Event>)
    ensures
        spans(events).len() >= 1,
        spans(events).flatten() == events,
    decreases events.len(),
{
    let cut = spans(events);
    cut.lemma_flatten_and_flatten_alt_are_equivalent();
    if events.len() == 0 {
        assert(cut.drop_last() =~= Seq::<Seq<Event>>::empty());
        assert(cut.drop_last().flatten_alt() =~= Seq::<Event>::empty());
        assert(cut.flatten_alt() =~= events);
    } else {
        let before = spans(events.drop_last());
        lemma_spans_join(events.drop_last());
        before.lemma_flatten_and_flatten_alt_are_equivalent();
        assert(before.flatten_alt() == before.drop_last().flatten_alt() + before.last());
        assert(events.drop_last().push(events.last()) =~= events);
        if is_match_start(events.last()) && match_start_count(events.drop_last()) > 0 {
            assert(cut.drop_last() =~= before);
            assert(cut.flatten_alt() =~= events);
        } else {
            assert(cut.drop_last() =~= before.drop_last());
            assert(cut.flatten_alt() =~= before.flatten_alt().push(events.last()));
        }
    }
}

/// A run falls into its matches: there is one span more than there are
/// completed matches, the record of each completed match is what the lines
/// of its span make of an empty record, under the label of its place, and
/// the record of the match being played is what the lines of the last span
/// make of an empty record. A match has started exactly when some line
/// started one.
pub proof fn lemma_run_by_spans(settings: Settings, events: Seq<Event>)
    ensures
        ({
            let state = ParserView::initial(settings.rules.show_death_causes).run(settings, events);
            let empty = MatchView::fresh(settings.rules.show_death_causes);
            &&& spans(events).len() == state.completed.len() + 1
            &&& state.started == (match_start_count(events) > 0)
            &&& state.current == empty.after_all(settings, spans(events).last())
            &&& forall|j: int|
                0 <= j < state.completed.len() ==> #[trigger] state.completed[j] == empty.after_all(
                    settings,
                    spans(events)[j],
                ).labelled(label_text(settings.match_key, j as nat))
        }),
    decreases events.len(),
{
    let empty = MatchView::fresh(settings.rules.show_death_causes);
    if events.len() == 0 {
        assert(empty.after_all(settings, Seq::<Event>::empty()) == empty);
    } else {
        let event = events.last();
        let before = spans(events.drop_last());
        let earlier = ParserView::initial(settings.rules.show_death_causes).run(
            settings,
            events.drop_last(),
        );
        let state = earlier.after(settings, event);
        lemma_run_by_spans(settings, events.drop_last());
        assert(events.drop_last().push(event) =~= events);
        lemma_count_push(events.drop_last(), event, |event: Event| is_match_start(event));
        if is_match_start(event) && match_start_count(events.drop_last()) > 0 {
            assert(seq![event].drop_last() =~= Seq::<Event>::empty());
            assert(empty.after_all(settings, seq![event]) == empty);
            assert forall|j: int| 0 <= j < state.completed.len() implies #[trigger] state.completed[j]
                == empty.after_all(settings, spans(events)[j]).labelled(
                label_text(settings.match_key, j as nat),
            ) by {
                if j < earlier.completed.len() {
                    assert(state.completed[j] == earlier.completed[j]);
                }
            }
        } else {
            assert(before.last().push(event).drop_last() =~= before.last());
            assert forall|j: int| 0 <= j < state.completed.len() implies #[trigger] state.completed[j]
                == empty.after_all(settings, spans(events)[j]).labelled(
                label_text(settings.match_key, j as nat),
            ) by {
                assert(state.completed[j] == earlier.completed[j]);
            }
        }
    }
}

/// The number of completed matches is one less than the number of lines
/// that started a match. The first start of a match completes nothing.
pub proof fn lemma_completed_count(settings: Settings, events: Seq<Event>)
    ensures
        ({
            let state = ParserView::initial(settings.rules.show_death_causes).run(settings, events);
            &&& match_start_count(events) <= 1 ==> state.completed.len() == 0
            &&& match_start_count(events) >= 1 ==> state.completed.len() == match_start_count(events)
                - 1
        }),
    decreases events.len(),
{
    if events.len() > 0 {
        lemma_completed_count(settings, events.drop_last());
        lemma_run_by_spans(settings, events.drop_last());
        assert(events.drop_last().push(events.last()) =~= events);
        lemma_count_push(events.drop_last(), events.last(), |event: Event| is_match_start(event));
    }
}

/// The lines of a span add one kill to the record for each kill among them,
/// whatever becomes of its scoring and of its cause.
pub proof fn lemma_total_kills_of_span(record: MatchView, settings: Settings, span: Seq<Event>)
    ensures
        record.after_all(settings, span).total_kills == record.total_kills + kill_count(span),
    decreases span.len(),
{
    if span.len() > 0 {
        lemma_total_kills_of_span(record, settings, span.drop_last());
    }
}

/// Where causes are tracked, the lines of a span add one kill to the tally
/// for each kill among them whose cause is a known one.
pub proof fn lemma_tally_of_span(record: MatchView, settings: Settings, span: Seq<Event>)
    requires
        record.kill_causes is Some,
    ensures
        record.after_all(settings, span).kill_causes is Some,
        tally_total(record.after_all(settings, span).kill_causes->0) == tally_total(
            record.kill_causes->0,
        ) + known_kill_count(span),
    decreases span.len(),
{
    if span.len() > 0 {
        lemma_tally_of_span(record, settings, span.drop_last());
        let earlier = record.after_all(settings, span.drop_last());
        if let Ok(EventFacts::Kill(kill)) = span.last() {
            if let Some(cause) = DeathCauses::of_token(kill.cause) {
                lemma_total_after_count(earlier.kill_causes->0, cause);
            }
        }
    }
}

/// There are no more kills with a known cause than there are kills, and as
/// many exactly when every kill has a known cause.
pub proof fn lemma_known_kills(span: Seq<Event>)
    ensures
        known_kill_count(span) <= kill_count(span),
        known_kill_count(span) == kill_count(span) <==> forall|i: int|
            0 <= i < span.len() && is_kill(#[trigger] span[i]) ==> is_known_kill(span[i]),
    decreases span.len(),
{
    if span.len() > 0 {
        let earlier = span.drop_last();
        lemma_known_kills(earlier);
        if known_kill_count(span) == kill_count(span) {
            assert forall|i: int| 0 <= i < span.len() && is_kill(#[trigger] span[i]) implies is_known_kill(
                span[i],
            ) by {
                if i < earlier.len() {
                    assert(earlier[i] == span[i]);
                }
            }
        }
        if forall|i: int| 0 <= i < span.len() && is_kill(#[trigger] span[i]) ==> is_known_kill(span[i]) {
            assert forall|i: int| 0 <= i < earlier.len() && is_kill(#[trigger] earlier[i]) implies is_known_kill(
                earlier[i],
            ) by {
                assert(earlier[i] == span[i]);
            }
            assert(is_kill(span[span.len() - 1]) ==> is_known_kill(span[span.len() - 1]));
        }
    }
}

/// The record of every match of a run, completed or being played, counts
/// exactly the kills among the lines of its span.
pub proof fn lemma_total_kills_of_matches(settings: Settings, events: Seq<Event>)
    ensures
        ({
            let state = ParserView::initial(settings.rules.show_death_causes).run(settings, events);
            &&& spans(events).len() == state.completed.len() + 1
            &&& state.current.total_kills == kill_count(spans(events).last())
            &&& forall|j: int|
                0 <= j < state.completed.len() ==> (#[trigger] state.completed[j]).total_kills
                    == kill_count(spans(events)[j])
        }),
{
    let state = ParserView::initial(settings.rules.show_death_causes).run(settings, events);
    let empty = MatchView::fresh(settings.rules.show_death_causes);
    lemma_run_by_spans(settings, events);
    lemma_total_kills_of_span(empty, settings, spans(events).last());
    assert forall|j: int| 0 <= j < state.completed.len() implies (#[trigger] state.completed[j]).total_kills
        == kill_count(spans(events)[j]) by {
        lemma_total_kills_of_span(empty, settings, spans(events)[j]);
    }
}

/// What the tally of a match holds, where causes are tracked: no more kills
/// than the match has, and as many exactly when every kill among the lines
/// of its span has a known cause.
pub open spec fn tally_accounts_for(record: MatchView, span: Seq<Event>) -> bool {
    &&& record.kill_causes is Some
    &&& tally_total(record.kill_causes->0) <= record.total_kills
    &&& tally_total(record.kill_causes->0) == record.total_kills <==> forall|i: int|
        0 <= i < span.len() && is_kill(#[trigger] span[i]) ==> is_known_kill(span[i])
}

/// In a run that tracks causes, the tally of every match, completed or being
/// played, accounts for the kills of its span.
pub proof fn lemma_kill_causes_of_matches(settings: Settings, events: Seq<Event>)
    requires
        settings.rules.show_death_causes,
    ensures
        ({
            let state = ParserView::initial(true).run(settings, events);
            &&& spans(events).len() == state.completed.len() + 1
            &&& tally_accounts_for(state.current, spans(events).last())
            &&& forall|j: int|
                0 <= j < state.completed.len() ==> tally_accounts_for(
                    #[trigger] state.completed[j],
                    spans(events)[j],
                )
        }),
{
    let state = ParserView::initial(true).run(settings, events);
    let empty = MatchView::fresh(true);
    lemma_run_by_spans(settings, events);
    lemma_total_after_count(empty.kill_causes->0, DeathCauses::Unknown);
    assert forall|j: int| 0 <= j < spans(events).len() implies tally_accounts_for(
        empty.after_all(settings, #[trigger] spans(events)[j]),
        spans(events)[j],
    ) by {
        lemma_total_kills_of_span(empty, settings, spans(events)[j]);
        lemma_tally_of_span(empty, settings, spans(events)[j]);
        lemma_known_kills(spans(events)[j]);
    }
    assert(tally_accounts_for(state.current, spans(events).last()));
    assert forall|j: int| 0 <= j < state.completed.len() implies tally_accounts_for(
        #[trigger] state.completed[j],
        spans(events)[j],
    ) by {
        assert(tally_accounts_for(empty.after_all(settings, spans(events)[j]), spans(events)[j]));
    }
}

/// The number of lines in a row whose kind is that of a kill.
pub open spec fn kill_line_count(patterns: PatternSet, lines: Seq<Seq<char>>) -> nat
    decreases lines.len(),
{
    if lines.len() == 0 {
        0
    } else {
        kill_line_count(patterns, lines.drop_last()) + if patterns.classify(lines.last()) == Some(
            LogEvent::Kill,
        ) {
            1nat
        } else {
            0nat
        }
    }
}

/// Where the fields of every kill line can be taken apart, the kills among
/// the lines are the lines whose kind is that of a kill.
pub proof fn lemma_kills_are_kill_lines(patterns: PatternSet, lines: Seq<Seq<char>>)
    requires
        forall|i: int|
            0 <= i < lines.len() && patterns.classify(#[trigger] lines[i]) == Some(LogEvent::Kill)
                ==> decode(patterns, lines[i]) != Err::<EventFacts, LineFailure>(LineFailure::Capture),
    ensures
        kill_count(decoded(patterns, lines)) == kill_line_count(patterns, lines),
    decreases lines.len(),
{
    if lines.len() > 0 {
        let earlier = lines.drop_last();
        assert forall|i: int|
            0 <= i < earlier.len() && patterns.classify(#[trigger] earlier[i]) == Some(
                LogEvent::Kill,
            ) implies decode(patterns, earlier[i]) != Err::<EventFacts, LineFailure>(
            LineFailure::Capture,
        ) by {
            assert(earlier[i] == lines[i]);
        }
        lemma_kills_are_kill_lines(patterns, earlier);
        assert(decoded(patterns, lines).drop_last() =~= decoded(patterns, earlier));
        assert(decoded(patterns, lines).last() == decode(patterns, lines.last()));
        assert(lines.last() == lines[lines.len() - 1]);
    }
}

} // verus!
