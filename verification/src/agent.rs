//! The message selector: which single message the assistant shows next.
//!
//! The selector walks a fixed cascade and the first step that applies wins:
//! a voice transcript that just arrived, a supplement that is pending in the
//! current hour, full adherence, an upcoming exam, and last the time of day.

use crate::adherence::{
    adherence_percent, adherence_percent_of, collect_names, count_taken, find_first_pending,
    first_pending, pending_names_of, taken_count,
};
use crate::catalog::{protocol_views, SupplementProtocol, SupplementProtocolView};
use crate::text::{
    contains, decimal_string, decimal_text, find_first_contained, first_contained, join, joined,
    lemma_first_true, lowercase, lowercase_of, occurs_in, text_views,
};
use vstd::prelude::*;
use vstd::string::*;

verus! {

/// Seconds for which voice input counts as having just arrived.
pub const VOICE_INPUT_WINDOW_SECS: u32 = 30;

/// What a suggested action is to be carried out with.
#[derive(Debug, Clone)]
pub struct ActionPayload {
    pub name: String,
    pub dosage: String,
    pub category: String,
}

/// What an `ActionPayload` says.
pub struct ActionPayloadView {
    pub name: Seq<char>,
    pub dosage: Seq<char>,
    pub category: Seq<char>,
}

impl View for ActionPayload {
    type V = ActionPayloadView;

    open spec fn view(&self) -> ActionPayloadView {
        ActionPayloadView { name: self.name@, dosage: self.dosage@, category: self.category@ }
    }
}

/// A follow-up the user may confirm.
#[derive(Debug, Clone)]
pub struct AgentAction {
    pub action_type: String,
    pub payload: ActionPayload,
}

/// What an `AgentAction` says.
pub struct AgentActionView {
    pub action_type: Seq<char>,
    pub payload: ActionPayloadView,
}

impl View for AgentAction {
    type V = AgentActionView;

    open spec fn view(&self) -> AgentActionView {
        AgentActionView { action_type: self.action_type@, payload: self.payload@ }
    }
}

/// The message the assistant shows.
#[derive(Debug, Clone)]
pub struct AgentMessage {
    pub text: String,
    /// `supplement_reminder`, `health_insight`, `schedule`, `calm_nudge` or
    /// `voice_response`.
    pub category: String,
    /// `low`, `medium` or `high`.
    pub priority: String,
    pub action: Option<AgentAction>,
}

/// What an `AgentMessage` says.
pub struct AgentMessageView {
    pub text: Seq<char>,
    pub category: Seq<char>,
    pub priority: Seq<char>,
    pub action: Option<AgentActionView>,
}

impl View for AgentMessage {
    type V = AgentMessageView;

    open spec fn view(&self) -> AgentMessageView {
        AgentMessageView {
            text: self.text@,
            category: self.category@,
            priority: self.priority@,
            action: match self.action {
                Some(action) => Some(action@),
                None => None,
            },
        }
    }
}

/// A scheduled exam that has not been completed yet.
#[derive(Debug, Clone)]
pub struct UpcomingExam {
    pub id: i64,
    pub exam_type: String,
    pub reason: String,
    pub scheduled_date: String,
    pub completed: bool,
}

/// What an `UpcomingExam` says.
pub struct UpcomingExamView {
    pub id: int,
    pub exam_type: Seq<char>,
    pub reason: Seq<char>,
    pub scheduled_date: Seq<char>,
    pub completed: bool,
}

impl View for UpcomingExam {
    type V = UpcomingExamView;

    open spec fn view(&self) -> UpcomingExamView {
        UpcomingExamView {
            id: self.id as int,
            exam_type: self.exam_type@,
            reason: self.reason@,
            scheduled_date: self.scheduled_date@,
            completed: self.completed,
        }
    }
}

/// The views of a list of open exams.
pub open spec fn upcoming_views(exams: Seq<UpcomingExam>) -> Seq<UpcomingExamView> {
    exams.map_values(|exam: UpcomingExam| exam@)
}

/// The part of the day, for the messages of last resort.
#[derive(Clone, Copy, Debug, PartialEq, Eq, Structural)]
pub enum TimeWindow {
    Morning,
    Afternoon,
    Evening,
    Other,
}

/// The part of the day an hour falls in: morning from 6 to 9, afternoon from
/// 14 to 17, evening from 20 to 22; every other hour is outside the named
/// parts.
pub open spec fn time_window_of(hour: int) -> TimeWindow {
    if 6 <= hour <= 9 {
        TimeWindow::Morning
    } else if 14 <= hour <= 17 {
        TimeWindow::Afternoon
    } else if 20 <= hour <= 22 {
        TimeWindow::Evening
    } else {
        TimeWindow::Other
    }
}

/// The part of the day an hour falls in.
pub fn time_window(hour: u32) -> (window: TimeWindow)
    ensures
        window == time_window_of(hour as int),
{
    if 6 <= hour && hour <= 9 {
        TimeWindow::Morning
    } else if 14 <= hour && hour <= 17 {
        TimeWindow::Afternoon
    } else if 20 <= hour && hour <= 22 {
        TimeWindow::Evening
    } else {
        TimeWindow::Other
    }
}

/// What a voice transcript asks for.
#[derive(Clone, Copy, Debug, PartialEq, Eq, Structural)]
pub enum VoiceIntent {
    /// A report on today's adherence.
    Status,
    /// Logging the supplement at this index of the protocol.
    Log(usize),
    /// Nothing that is understood; the transcript is echoed.
    Echo,
}

/// What a `VoiceIntent` says.
pub enum VoiceIntentView {
    Status,
    Log(int),
    Echo,
}

impl View for VoiceIntent {
    type V = VoiceIntentView;

    open spec fn view(&self) -> VoiceIntentView {
        match *self {
            VoiceIntent::Status => VoiceIntentView::Status,
            VoiceIntent::Log(i) => VoiceIntentView::Log(i as int),
            VoiceIntent::Echo => VoiceIntentView::Echo,
        }
    }
}

/// The step of the cascade that gives the message.
#[derive(Clone, Copy, Debug, PartialEq, Eq, Structural)]
pub enum MessageBranch {
    VoiceStatus,
    VoiceLog,
    VoiceEcho,
    Reminder,
    FullAdherence,
    UpcomingExam,
    Morning,
    Afternoon,
    Evening,
    Stable,
}

/// Whether a lowercased transcript asks for a status report.
pub open spec fn is_status_request(lower: Seq<char>) -> bool {
    occurs_in("status"@, lower) || occurs_in("como estou"@, lower) || occurs_in(
        "relatório"@,
        lower,
    )
}

/// Whether a lowercased transcript speaks of logging a supplement.
pub open spec fn is_log_request(lower: Seq<char>) -> bool {
    occurs_in("tomei"@, lower) || occurs_in("registar"@, lower) || occurs_in("suplemento"@, lower)
}

/// What a lowercased transcript asks for, given the lowercased names of the
/// protocol. A status request wins over everything; a log request needs the
/// name of a supplement in the transcript, the first of the protocol that
/// occurs; anything else is echoed.
pub open spec fn voice_intent(lower: Seq<char>, lower_names: Seq<Seq<char>>) -> VoiceIntentView {
    if is_status_request(lower) {
        VoiceIntentView::Status
    } else if is_log_request(lower) {
        match first_contained(lower_names, lower) {
            Some(i) => VoiceIntentView::Log(i),
            None => VoiceIntentView::Echo,
        }
    } else {
        VoiceIntentView::Echo
    }
}

/// Classifies a transcript that is already in lowercase, against the
/// lowercased names of the protocol.
pub fn classify_voice(lower: &str, lower_names: &Vec<String>) -> (intent: VoiceIntent)
    ensures
        intent@ == voice_intent(lower@, text_views(lower_names@)),
        intent matches VoiceIntent::Log(i) ==> i < lower_names@.len(),
{
    if contains(lower, "status") || contains(lower, "como estou") || contains(lower, "relatório") {
        VoiceIntent::Status
    } else if contains(lower, "tomei") || contains(lower, "registar") || contains(
        lower,
        "suplemento",
    ) {
        proof {
            lemma_first_true(
                text_views(lower_names@).map_values(|name: Seq<char>| occurs_in(name, lower@)),
            );
        }
        match find_first_contained(lower_names, lower) {
            Some(i) => VoiceIntent::Log(i),
            None => VoiceIntent::Echo,
        }
    } else {
        VoiceIntent::Echo
    }
}

/// The step of the cascade that applies. A voice transcript cuts everything
/// else short; without one, a pending supplement comes first, full adherence
/// next, an upcoming exam after that, and the time of day last.
pub open spec fn branch_for(
    catalog: Seq<SupplementProtocolView>,
    hour: int,
    taken: Seq<bool>,
    has_exam: bool,
    voice: Option<VoiceIntentView>,
) -> MessageBranch {
    match voice {
        Some(VoiceIntentView::Status) => MessageBranch::VoiceStatus,
        Some(VoiceIntentView::Log(_)) => MessageBranch::VoiceLog,
        Some(VoiceIntentView::Echo) => MessageBranch::VoiceEcho,
        None => if first_pending(catalog, taken, hour) is Some {
            MessageBranch::Reminder
        } else if taken_count(catalog.len() as int, taken) == catalog.len() {
            MessageBranch::FullAdherence
        } else if has_exam {
            MessageBranch::UpcomingExam
        } else {
            match time_window_of(hour) {
                TimeWindow::Morning => MessageBranch::Morning,
                TimeWindow::Afternoon => MessageBranch::Afternoon,
                TimeWindow::Evening => MessageBranch::Evening,
                TimeWindow::Other => MessageBranch::Stable,
            }
        },
    }
}

/// Picks the step of the cascade that applies.
pub fn choose_branch(
    catalog: &[SupplementProtocol],
    hour: u32,
    taken: &[bool],
    has_exam: bool,
    voice: Option<VoiceIntent>,
) -> (branch: MessageBranch)
    ensures
        branch == branch_for(
            protocol_views(catalog@),
            hour as int,
            taken@,
            has_exam,
            match voice {
                Some(intent) => Some(intent@),
                None => None,
            },
        ),
{
    match voice {
        Some(VoiceIntent::Status) => MessageBranch::VoiceStatus,
        Some(VoiceIntent::Log(_)) => MessageBranch::VoiceLog,
        Some(VoiceIntent::Echo) => MessageBranch::VoiceEcho,
        None => {
            if find_first_pending(catalog, taken, hour).is_some() {
                MessageBranch::Reminder
            } else if count_taken(catalog.len(), taken) == catalog.len() {
                MessageBranch::FullAdherence
            } else if has_exam {
                MessageBranch::UpcomingExam
            } else {
                match time_window(hour) {
                    TimeWindow::Morning => MessageBranch::Morning,
                    TimeWindow::Afternoon => MessageBranch::Afternoon,
                    TimeWindow::Evening => MessageBranch::Evening,
                    TimeWindow::Other => MessageBranch::Stable,
                }
            }
        },
    }
}

/// One line on the next exam: the soonest of the open ones, or that there
/// is none.
pub open spec fn exam_context_of(exams: Seq<UpcomingExamView>) -> Seq<char> {
    if exams.len() > 0 {
        "Próximo exame: "@ + exams[0].exam_type + " em "@ + exams[0].scheduled_date + "."@
    } else {
        "Sem exames próximos."@
    }
}

/// One line on the next exam. The exams are taken to be ordered by date,
/// soonest first.
pub fn exam_context(exams: &[UpcomingExam]) -> (context: String)
    ensures
        context@ == exam_context_of(upcoming_views(exams@)),
{
    if exams.len() > 0 {
        let mut context = String::from_str("Próximo exame: ");
        context.append(exams[0].exam_type.as_str());
        context.append(" em ");
        context.append(exams[0].scheduled_date.as_str());
        context.append(".");
        proof {
            assert(upcoming_views(exams@)[0] == exams@[0]@);
            assert(context@ =~= exam_context_of(upcoming_views(exams@)));
        }
        context
    } else {
        String::from_str("Sem exames próximos.")
    }
}

/// The adherence report: how many of how many supplements were taken
/// today, the percentage, and the line on the next exam.
pub open spec fn status_text(taken: int, total: int, context: Seq<char>) -> Seq<char> {
    "Relatório rápido: "@ + decimal_text(taken as nat) + " de "@ + decimal_text(total as nat)
        + " suplementos hoje ("@ + decimal_text(adherence_percent_of(taken, total) as nat)
        + "%). "@ + context
}

/// What is said when a supplement is about to be logged by voice.
pub open spec fn log_text(protocol: SupplementProtocolView) -> Seq<char> {
    "Registando "@ + protocol.name + " — "@ + protocol.dosage + "."@
}

/// The echo of a transcript that asks for nothing known.
pub open spec fn echo_text(transcript: Seq<char>) -> Seq<char> {
    "Entendido: \""@ + transcript + "\". A processar."@
}

/// The reminder of a supplement: name, dosage and what it is good for.
pub open spec fn reminder_text(protocol: SupplementProtocolView) -> Seq<char> {
    protocol.name + " — "@ + protocol.dosage + ". "@ + protocol.benefit
}

/// The congratulation for a protocol taken in full.
pub open spec fn full_adherence_text(taken: int, total: int) -> Seq<char> {
    "Protocolo 100% hoje. "@ + decimal_text(taken as nat) + " de "@ + decimal_text(total as nat)
        + " suplementos registados. Sistema em carga total."@
}

/// The soonest open exam, with today's adherence.
pub open spec fn upcoming_exam_text(context: Seq<char>, percent: int) -> Seq<char> {
    context + " Aderência: "@ + decimal_text(percent as nat) + "%."@
}

/// The morning greeting, with adherence and what is still open.
pub open spec fn morning_text(percent: int, pending: Seq<Seq<char>>) -> Seq<char> {
    "Bom dia. Aderência: "@ + decimal_text(percent as nat) + "%. Pendentes: "@ + joined(
        pending,
        ", "@,
    ) + "."@
}

/// The afternoon greeting, with adherence and what is still open.
pub open spec fn afternoon_text(percent: int, pending: Seq<Seq<char>>) -> Seq<char> {
    "Boa tarde. Aderência: "@ + decimal_text(percent as nat) + "%. Pendentes: "@ + joined(
        pending,
        ", "@,
    ) + "."@
}

/// The evening message, with adherence and the line on the next exam.
pub open spec fn evening_text(percent: int, context: Seq<char>) -> Seq<char> {
    "Fase noturna. Aderência: "@ + decimal_text(percent as nat) + "%. "@ + context
}

/// The message outside the named parts of the day, with adherence and
/// what is still open.
pub open spec fn stable_text(percent: int, pending: Seq<Seq<char>>) -> Seq<char> {
    "Sistema estável. Aderência: "@ + decimal_text(percent as nat) + "%. "@ + if pending.len()
        > 0 {
        "Pendentes: "@ + joined(pending, ", "@) + "."@
    } else {
        "Tudo em dia."@
    }
}

/// A message without a follow-up.
pub open spec fn plain_message(text: Seq<char>, category: Seq<char>, priority: Seq<char>) -> AgentMessageView {
    AgentMessageView { text, category, priority, action: None }
}

/// The follow-up that logs a supplement of the protocol, filled in from the
/// protocol.
pub open spec fn log_action_for(protocol: SupplementProtocolView) -> AgentActionView {
    AgentActionView {
        action_type: "log_supplement"@,
        payload: ActionPayloadView {
            name: protocol.name,
            dosage: protocol.dosage,
            category: protocol.category,
        },
    }
}

/// A message that suggests logging a supplement of the protocol.
pub open spec fn logging_message(
    text: Seq<char>,
    category: Seq<char>,
    priority: Seq<char>,
    protocol: SupplementProtocolView,
) -> AgentMessageView {
    AgentMessageView { text, category, priority, action: Some(log_action_for(protocol)) }
}

/// The message of each step of the cascade. `transcript` is read by the
/// echo, `target` (an index of the protocol) by the two steps that suggest
/// logging a supplement.
pub open spec fn message_for(
    branch: MessageBranch,
    catalog: Seq<SupplementProtocolView>,
    taken: Seq<bool>,
    exams: Seq<UpcomingExamView>,
    transcript: Seq<char>,
    target: int,
) -> AgentMessageView {
    let total = catalog.len() as int;
    let count = taken_count(total, taken);
    let percent = adherence_percent_of(count, total);
    let context = exam_context_of(exams);
    let pending = pending_names_of(catalog, taken);
    match branch {
        MessageBranch::VoiceStatus => plain_message(
            status_text(count, total, context),
            "voice_response"@,
            "high"@,
        ),
        MessageBranch::VoiceLog => logging_message(
            log_text(catalog[target]),
            "voice_response"@,
            "high"@,
            catalog[target],
        ),
        MessageBranch::VoiceEcho => plain_message(
            echo_text(transcript),
            "voice_response"@,
            "medium"@,
        ),
        MessageBranch::Reminder => logging_message(
            reminder_text(catalog[target]),
            "supplement_reminder"@,
            "medium"@,
            catalog[target],
        ),
        MessageBranch::FullAdherence => plain_message(
            full_adherence_text(count, total),
            "health_insight"@,
            "low"@,
        ),
        MessageBranch::UpcomingExam => plain_message(
            upcoming_exam_text(context, percent),
            "schedule"@,
            "low"@,
        ),
        MessageBranch::Morning => plain_message(
            morning_text(percent, pending),
            "calm_nudge"@,
            "low"@,
        ),
        MessageBranch::Afternoon => plain_message(
            afternoon_text(percent, pending),
            "calm_nudge"@,
            "low"@,
        ),
        MessageBranch::Evening => plain_message(
            evening_text(percent, context),
            "calm_nudge"@,
            "low"@,
        ),
        MessageBranch::Stable => plain_message(
            stable_text(percent, pending),
            "health_insight"@,
            "low"@,
        ),
    }
}

fn plain(text: String, category: &str, priority: &str) -> (message: AgentMessage)
    ensures
        message@ == plain_message(text@, category@, priority@),
{
    AgentMessage {
        text,
        category: String::from_str(category),
        priority: String::from_str(priority),
        action: None,
    }
}

fn logging(
    text: String,
    category: &str,
    priority: &str,
    protocol: &SupplementProtocol,
) -> (message: AgentMessage)
    ensures
        message@ == logging_message(text@, category@, priority@, protocol@),
{
    AgentMessage {
        text,
        category: String::from_str(category),
        priority: String::from_str(priority),
        action: Some(
            AgentAction {
                action_type: String::from_str("log_supplement"),
                payload: ActionPayload {
                    name: protocol.name.clone(),
                    dosage: protocol.dosage.clone(),
                    category: protocol.category.clone(),
                },
            },
        ),
    }
}

fn pending_line(pending: &Vec<String>) -> (line: String)
    ensures
        line@ == "Pendentes: "@ + joined(text_views(pending@), ", "@) + "."@,
{
    let mut line = String::from_str("Pendentes: ");
    line.append(join(pending, ", ").as_str());
    line.append(".");
    line
}

fn greeting(opening: &str, percent: u64, pending: &Vec<String>) -> (text: String)
    ensures
        text@ == opening@ + decimal_text(percent as nat) + "%. Pendentes: "@ + joined(
            text_views(pending@),
            ", "@,
        ) + "."@,
{
    let mut text = String::from_str(opening);
    text.append(decimal_string(percent).as_str());
    text.append("%. Pendentes: ");
    text.append(join(pending, ", ").as_str());
    text.append(".");
    text
}

/// Writes the message of one step of the cascade.
pub fn compose_message(
    branch: MessageBranch,
    catalog: &[SupplementProtocol],
    taken: &[bool],
    exams: &[UpcomingExam],
    transcript: &str,
    target: usize,
) -> (message: AgentMessage)
    requires
        (branch == MessageBranch::VoiceLog || branch == MessageBranch::Reminder) ==> target
            < catalog@.len(),
    ensures
        message@ == message_for(
            branch,
            protocol_views(catalog@),
            taken@,
            upcoming_views(exams@),
            transcript@,
            target as int,
        ),
{
    let total = catalog.len();
    let count = count_taken(total, taken);
    let percent = adherence_percent(count as u64, total as u64);
    match branch {
        MessageBranch::VoiceStatus => {
            let mut text = String::from_str("Relatório rápido: ");
            text.append(decimal_string(count as u64).as_str());
            text.append(" de ");
            text.append(decimal_string(total as u64).as_str());
            text.append(" suplementos hoje (");
            text.append(decimal_string(percent).as_str());
            text.append("%). ");
            text.append(exam_context(exams).as_str());
            plain(text, "voice_response", "high")
        },
        MessageBranch::VoiceLog => {
            let protocol = &catalog[target];
            let mut text = String::from_str("Registando ");
            text.append(protocol.name.as_str());
            text.append(" — ");
            text.append(protocol.dosage.as_str());
            text.append(".");
            logging(text, "voice_response", "high", protocol)
        },
        MessageBranch::VoiceEcho => {
            let mut text = String::from_str("Entendido: \"");
            text.append(transcript);
            text.append("\". A processar.");
            plain(text, "voice_response", "medium")
        },
        MessageBranch::Reminder => {
            let protocol = &catalog[target];
            let mut text = protocol.name.clone();
            text.append(" — ");
            text.append(protocol.dosage.as_str());
            text.append(". ");
            text.append(protocol.benefit.as_str());
            logging(text, "supplement_reminder", "medium", protocol)
        },
        MessageBranch::FullAdherence => {
            let mut text = String::from_str("Protocolo 100% hoje. ");
            text.append(decimal_string(count as u64).as_str());
            text.append(" de ");
            text.append(decimal_string(total as u64).as_str());
            text.append(" suplementos registados. Sistema em carga total.");
            plain(text, "health_insight", "low")
        },
        MessageBranch::UpcomingExam => {
            let mut text = exam_context(exams);
            text.append(" Aderência: ");
            text.append(decimal_string(percent).as_str());
            text.append("%.");
            plain(text, "schedule", "low")
        },
        MessageBranch::Morning => {
            let pending = collect_names(catalog, taken, false);
            plain(greeting("Bom dia. Aderência: ", percent, &pending), "calm_nudge", "low")
        },
        MessageBranch::Afternoon => {
            let pending = collect_names(catalog, taken, false);
            plain(greeting("Boa tarde. Aderência: ", percent, &pending), "calm_nudge", "low")
        },
        MessageBranch::Evening => {
            let mut text = String::from_str("Fase noturna. Aderência: ");
            text.append(decimal_string(percent).as_str());
            text.append("%. ");
            text.append(exam_context(exams).as_str());
            plain(text, "calm_nudge", "low")
        },
        MessageBranch::Stable => {
            let pending = collect_names(catalog, taken, false);
            let mut text = String::from_str("Sistema estável. Aderência: ");
            text.append(decimal_string(percent).as_str());
            text.append("%. ");
            if pending.len() > 0 {
                text.append(pending_line(&pending).as_str());
            } else {
                text.append("Tudo em dia.");
            }
            plain(text, "health_insight", "low")
        },
    }
}

/// The names of the protocol, in lowercase.
pub open spec fn lowered_names(catalog: Seq<SupplementProtocolView>) -> Seq<Seq<char>> {
    catalog.map_values(|protocol: SupplementProtocolView| lowercase_of(protocol.name))
}

/// What a transcript asks for, whatever its case.
pub open spec fn voice_intent_of(
    transcript: Seq<char>,
    catalog: Seq<SupplementProtocolView>,
) -> VoiceIntentView {
    voice_intent(lowercase_of(transcript), lowered_names(catalog))
}

/// The intent behind the voice input, if there is voice input.
pub open spec fn intent_of(
    voice: Option<Seq<char>>,
    catalog: Seq<SupplementProtocolView>,
) -> Option<VoiceIntentView> {
    match voice {
        Some(transcript) => Some(voice_intent_of(transcript, catalog)),
        None => None,
    }
}

/// The step of the cascade that gives the message.
pub open spec fn selected_branch(
    catalog: Seq<SupplementProtocolView>,
    hour: int,
    taken: Seq<bool>,
    exams: Seq<UpcomingExamView>,
    voice: Option<Seq<char>>,
) -> MessageBranch {
    branch_for(catalog, hour, taken, exams.len() > 0, intent_of(voice, catalog))
}

/// The supplement a logging suggestion is about: the one named in the
/// transcript, or without voice input the first that is pending.
pub open spec fn target_of(
    catalog: Seq<SupplementProtocolView>,
    hour: int,
    taken: Seq<bool>,
    voice: Option<Seq<char>>,
) -> int {
    match voice {
        Some(transcript) => match voice_intent_of(transcript, catalog) {
            VoiceIntentView::Log(i) => i,
            _ => 0,
        },
        None => match first_pending(catalog, taken, hour) {
            Some(i) => i,
            None => 0,
        },
    }
}

/// The message the assistant shows, before any rephrasing.
pub open spec fn agent_message(
    catalog: Seq<SupplementProtocolView>,
    hour: int,
    taken: Seq<bool>,
    exams: Seq<UpcomingExamView>,
    voice: Option<Seq<char>>,
) -> AgentMessageView {
    message_for(
        selected_branch(catalog, hour, taken, exams, voice),
        catalog,
        taken,
        exams,
        match voice {
            Some(transcript) => transcript,
            None => Seq::empty(),
        },
        target_of(catalog, hour, taken, voice),
    )
}

/// The view of an optional transcript.
pub open spec fn voice_view(voice: Option<&str>) -> Option<Seq<char>> {
    match voice {
        Some(transcript) => Some(transcript@),
        None => None,
    }
}

fn lowercase_names(catalog: &[SupplementProtocol]) -> (lowered: Vec<String>)
    ensures
        text_views(lowered@) == lowered_names(protocol_views(catalog@)),
{
    let mut lowered: Vec<String> = Vec::new();
    let mut i: usize = 0;
    while i < catalog.len()
        invariant
            i <= catalog.len(),
            lowered@.len() == i,
            forall|j: int| 0 <= j < i ==> (#[trigger] lowered@[j])@ == lowercase_of(catalog@[j].name@),
        decreases catalog.len() - i,
    {
        lowered.push(lowercase(catalog[i].name.as_str()));
        i = i + 1;
    }
    proof {
        assert(text_views(lowered@) =~= lowered_names(protocol_views(catalog@)));
    }
    lowered
}

/// What a transcript asks for.
pub fn interpret_voice(transcript: &str, catalog: &[SupplementProtocol]) -> (intent: VoiceIntent)
    ensures
        intent@ == voice_intent_of(transcript@, protocol_views(catalog@)),
        intent matches VoiceIntent::Log(i) ==> i < catalog@.len(),
{
    let lower = lowercase(transcript);
    let names = lowercase_names(catalog);
    classify_voice(lower.as_str(), &names)
}

/// A message together with the step of the cascade that gave it.
#[derive(Debug, Clone)]
pub struct Selection {
    pub branch: MessageBranch,
    pub message: AgentMessage,
}

/// Selects the message to show.
///
/// `taken` says for each supplement of `catalog`, by index, whether it has
/// been taken today. `exams` are the scheduled exams that are still open,
/// soonest first. `voice` is the transcript of voice input that arrived in
/// the last thirty seconds, if any.
pub fn select(
    catalog: &[SupplementProtocol],
    hour: u32,
    taken: &[bool],
    exams: &[UpcomingExam],
    voice: Option<&str>,
) -> (selection: Selection)
    ensures
        selection.branch == selected_branch(
            protocol_views(catalog@),
            hour as int,
            taken@,
            upcoming_views(exams@),
            voice_view(voice),
        ),
        selection.message@ == agent_message(
            protocol_views(catalog@),
            hour as int,
            taken@,
            upcoming_views(exams@),
            voice_view(voice),
        ),
{
    let has_exam = exams.len() > 0;
    match voice {
        Some(transcript) => {
            let intent = interpret_voice(transcript, catalog);
            let branch = choose_branch(catalog, hour, taken, has_exam, Some(intent));
            let target: usize = match intent {
                VoiceIntent::Log(i) => i,
                _ => 0,
            };
            let message = compose_message(branch, catalog, taken, exams, transcript, target);
            Selection { branch, message }
        },
        None => {
            let branch = choose_branch(catalog, hour, taken, has_exam, None);
            let pending = find_first_pending(catalog, taken, hour);
            proof {
                lemma_first_true(
                    crate::adherence::pending_flags(protocol_views(catalog@), taken@, hour as int),
                );
            }
            let target: usize = match pending {
                Some(i) => i,
                None => 0,
            };
            let message = compose_message(branch, catalog, taken, exams, "", target);
            proof {
                reveal_strlit("");
                assert(""@ =~= Seq::<char>::empty());
            }
            Selection { branch, message }
        },
    }
}

/// The next message of the assistant: exactly one, chosen by the cascade.
pub fn get_agent_message(
    catalog: &[SupplementProtocol],
    hour: u32,
    taken: &[bool],
    exams: &[UpcomingExam],
    voice: Option<&str>,
) -> (message: AgentMessage)
    ensures
        message@ == agent_message(
            protocol_views(catalog@),
            hour as int,
            taken@,
            upcoming_views(exams@),
            voice_view(voice),
        ),
{
    select(catalog, hour, taken, exams, voice).message
}

/// Whether the text of a step may be replaced by generated text. The voice
/// steps and the reminder keep their wording.
pub open spec fn accepts_generated_text(branch: MessageBranch) -> bool {
    match branch {
        MessageBranch::VoiceStatus => false,
        MessageBranch::VoiceLog => false,
        MessageBranch::VoiceEcho => false,
        MessageBranch::Reminder => false,
        MessageBranch::FullAdherence => true,
        MessageBranch::UpcomingExam => true,
        MessageBranch::Morning => true,
        MessageBranch::Afternoon => true,
        MessageBranch::Evening => true,
        MessageBranch::Stable => true,
    }
}

/// Whether generated text is to be asked for at all.
pub fn wants_generated_text(branch: MessageBranch) -> (wanted: bool)
    ensures
        wanted == accepts_generated_text(branch),
{
    match branch {
        MessageBranch::VoiceStatus => false,
        MessageBranch::VoiceLog => false,
        MessageBranch::VoiceEcho => false,
        MessageBranch::Reminder => false,
        _ => true,
    }
}

/// The message after the text generator has answered, or failed to.
pub open spec fn finished_message(
    branch: MessageBranch,
    canned: AgentMessageView,
    generated: Option<Seq<char>>,
) -> AgentMessageView {
    match generated {
        Some(text) => if accepts_generated_text(branch) {
            AgentMessageView {
                text,
                category: canned.category,
                priority: canned.priority,
                action: canned.action,
            }
        } else {
            canned
        },
        None => canned,
    }
}

/// Finishes a selection with what the text generator gave. Generated text
/// takes the place of the canned text where the step accepts it; with no
/// generated text (none asked for, an error, a timeout) the canned message
/// stands.
pub fn finish_message(selection: Selection, generated: Option<String>) -> (message: AgentMessage)
    ensures
        message@ == finished_message(
            selection.branch,
            selection.message@,
            match generated {
                Some(text) => Some(text@),
                None => None,
            },
        ),
{
    let Selection { branch, message } = selection;
    match generated {
        Some(text) => {
            if wants_generated_text(branch) {
                AgentMessage {
                    text,
                    category: message.category,
                    priority: message.priority,
                    action: message.action,
                }
            } else {
                message
            }
        },
        None => message,
    }
}

} // verus!
