//! What holds of every message the selector gives.

use crate::adherence::{
    first_pending, lemma_all_taken_iff_full, pending_at, pending_flags, taken_at, taken_count,
};
use crate::agent::{
    accepts_generated_text, agent_message, finished_message, full_adherence_text, log_action_for,
    plain_message, reminder_text, selected_branch, AgentMessageView, MessageBranch,
    UpcomingExamView,
};
use crate::catalog::{in_window, SupplementProtocolView};
use crate::text::{lemma_first_true, lemma_first_true_is};
use vstd::prelude::*;

verus! {

/// With every supplement of the protocol taken and no voice input, the
/// selector congratulates: the full-adherence step gives the message,
/// whatever the hour and whatever exams are open.
pub proof fn law_all_taken_gives_full_adherence(
    catalog: Seq<SupplementProtocolView>,
    hour: int,
    taken: Seq<bool>,
    exams: Seq<UpcomingExamView>,
)
    requires
        forall|i: int| 0 <= i < catalog.len() ==> taken_at(taken, i),
    ensures
        selected_branch(catalog, hour, taken, exams, None) == MessageBranch::FullAdherence,
        agent_message(catalog, hour, taken, exams, None) == plain_message(
            full_adherence_text(catalog.len() as int, catalog.len() as int),
            "health_insight"@,
            "low"@,
        ),
{
    lemma_first_true(pending_flags(catalog, taken, hour));
    lemma_all_taken_iff_full(catalog.len() as int, taken);
}

/// With a supplement pending in the current hour, no earlier supplement of
/// the protocol pending, and no voice input, the selector reminds of that
/// supplement and suggests logging it under exactly its name in the
/// protocol.
pub proof fn law_first_pending_is_reminded(
    catalog: Seq<SupplementProtocolView>,
    hour: int,
    taken: Seq<bool>,
    exams: Seq<UpcomingExamView>,
    x: int,
)
    requires
        0 <= x < catalog.len(),
        in_window(catalog[x], hour),
        !taken_at(taken, x),
        forall|j: int| 0 <= j < x ==> !pending_at(catalog, taken, hour, j),
    ensures
        selected_branch(catalog, hour, taken, exams, None) == MessageBranch::Reminder,
        agent_message(catalog, hour, taken, exams, None).text == reminder_text(catalog[x]),
        agent_message(catalog, hour, taken, exams, None).category == "supplement_reminder"@,
        agent_message(catalog, hour, taken, exams, None).priority == "medium"@,
        agent_message(catalog, hour, taken, exams, None).action == Some(
            log_action_for(catalog[x]),
        ),
        log_action_for(catalog[x]).action_type == "log_supplement"@,
        log_action_for(catalog[x]).payload.name == catalog[x].name,
{
    lemma_first_true_is(pending_flags(catalog, taken, hour), x);
}

/// With any supplement pending in the current hour and no voice input, the
/// message is a reminder: of the first supplement of the protocol that is
/// pending, which comes no later than the given one.
pub proof fn law_some_pending_gives_reminder(
    catalog: Seq<SupplementProtocolView>,
    hour: int,
    taken: Seq<bool>,
    exams: Seq<UpcomingExamView>,
    x: int,
)
    requires
        0 <= x < catalog.len(),
        in_window(catalog[x], hour),
        !taken_at(taken, x),
    ensures
        selected_branch(catalog, hour, taken, exams, None) == MessageBranch::Reminder,
        first_pending(catalog, taken, hour) matches Some(first) && 0 <= first <= x && pending_at(
            catalog,
            taken,
            hour,
            first,
        ) && agent_message(catalog, hour, taken, exams, None).action == Some(
            log_action_for(catalog[first]),
        ),
{
    lemma_first_true(pending_flags(catalog, taken, hour));
    assert(pending_flags(catalog, taken, hour)[x]);
}

/// Voice input cuts the cascade short: the message answers the voice input,
/// whatever is pending, taken or scheduled.
pub proof fn law_voice_comes_first(
    catalog: Seq<SupplementProtocolView>,
    hour: int,
    taken: Seq<bool>,
    exams: Seq<UpcomingExamView>,
    transcript: Seq<char>,
)
    ensures
        agent_message(catalog, hour, taken, exams, Some(transcript)).category
            == "voice_response"@,
        !accepts_generated_text(selected_branch(catalog, hour, taken, exams, Some(transcript))),
{
}

/// Generated text never changes a message that carries a suggested action,
/// and never changes category, priority or action of any message.
pub proof fn law_generated_text_only_replaces_text(
    catalog: Seq<SupplementProtocolView>,
    hour: int,
    taken: Seq<bool>,
    exams: Seq<UpcomingExamView>,
    voice: Option<Seq<char>>,
    generated: Option<Seq<char>>,
)
    ensures
        ({
            let branch = selected_branch(catalog, hour, taken, exams, voice);
            let canned = agent_message(catalog, hour, taken, exams, voice);
            let shown = finished_message(branch, canned, generated);
            &&& shown.category == canned.category
            &&& shown.priority == canned.priority
            &&& shown.action == canned.action
            &&& canned.action is Some ==> shown == canned
            &&& generated is None ==> shown == canned
            &&& (generated is Some && accepts_generated_text(branch)) ==> shown.text
                == generated->0
        }),
{
}

} // verus!
