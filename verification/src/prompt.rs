//! The request for rephrasing: what the text generator is told about the
//! current state, and what is asked of it.

use crate::adherence::{
    adherence_percent, adherence_percent_of, all_names_of, collect_all_names, collect_names,
    count_taken, pending_names_of, taken_count, taken_names_of,
};
use crate::agent::{exam_context, exam_context_of, upcoming_views, UpcomingExam, UpcomingExamView};
use crate::catalog::{protocol_views, SupplementProtocol, SupplementProtocolView};
use crate::text::{decimal_string, decimal_text, join, joined, text_views};
use vstd::prelude::*;
use vstd::string::*;

verus! {

/// Seconds after which a request to the text generator is given up.
pub const GENERATION_TIMEOUT_SECS: u64 = 30;

/// Most tokens the text generator may answer with.
pub const GENERATION_MAX_TOKENS: u32 = 100;

/// How the prompt opens, up to the hour.
pub const PROMPT_OPENING: &'static str =
    "Tu és o HoloSelf, um agente de saúde pessoal calmo e direto (estilo Jarvis). Responde em Português (PT-BR). Máximo 2 frases curtas. Sem emojis. Tom: calmo, preciso, encorajador.\n\nContexto actual:\n- Hora: ";

/// How the prompt closes, after the line on exams.
pub const PROMPT_CLOSING: &'static str =
    "\n\nDá uma mensagem contextual breve baseada neste estado. Se tudo está em dia, encoraja. Se há pendentes, lembra com calma. Se é noite, sugere desacelerar. Nunca alarmar.";

/// What stands for an empty list of names.
pub const NO_NAMES: &'static str = "nenhum";

/// How the prompt calls the part of the day.
pub open spec fn time_period_of(hour: int) -> Seq<char> {
    if 6 <= hour <= 9 {
        "manhã (despertar)"@
    } else if 10 <= hour <= 13 {
        "meio do dia (foco)"@
    } else if 14 <= hour <= 17 {
        "tarde (manutenção)"@
    } else if 18 <= hour <= 21 {
        "noite (desaceleração)"@
    } else if 22 <= hour <= 23 {
        "noite tardia (preparar sono)"@
    } else {
        "madrugada"@
    }
}

/// How the prompt calls the part of the day.
pub fn time_period(hour: u32) -> (period: &'static str)
    ensures
        period@ == time_period_of(hour as int),
{
    if 6 <= hour && hour <= 9 {
        "manhã (despertar)"
    } else if 10 <= hour && hour <= 13 {
        "meio do dia (foco)"
    } else if 14 <= hour && hour <= 17 {
        "tarde (manutenção)"
    } else if 18 <= hour && hour <= 21 {
        "noite (desaceleração)"
    } else if 22 <= hour && hour <= 23 {
        "noite tardia (preparar sono)"
    } else {
        "madrugada"
    }
}

/// What the canned messages and the prompt are written from.
#[derive(Debug, Clone)]
pub struct MessageContext {
    pub adherence_pct: u64,
    pub taken_names: Vec<String>,
    pub pending_names: Vec<String>,
    pub all_names: Vec<String>,
    pub exam_context: String,
}

/// What a `MessageContext` says.
pub struct MessageContextView {
    pub adherence_pct: int,
    pub taken_names: Seq<Seq<char>>,
    pub pending_names: Seq<Seq<char>>,
    pub all_names: Seq<Seq<char>>,
    pub exam_context: Seq<char>,
}

impl View for MessageContext {
    type V = MessageContextView;

    open spec fn view(&self) -> MessageContextView {
        MessageContextView {
            adherence_pct: self.adherence_pct as int,
            taken_names: text_views(self.taken_names@),
            pending_names: text_views(self.pending_names@),
            all_names: text_views(self.all_names@),
            exam_context: self.exam_context@,
        }
    }
}

/// The context of a state: adherence, who is taken and who is pending, and
/// the line on the next exam.
pub open spec fn context_of(
    catalog: Seq<SupplementProtocolView>,
    taken: Seq<bool>,
    exams: Seq<UpcomingExamView>,
) -> MessageContextView {
    MessageContextView {
        adherence_pct: adherence_percent_of(
            taken_count(catalog.len() as int, taken),
            catalog.len() as int,
        ),
        taken_names: taken_names_of(catalog, taken),
        pending_names: pending_names_of(catalog, taken),
        all_names: all_names_of(catalog),
        exam_context: exam_context_of(exams),
    }
}

/// Gathers the context of the current state.
pub fn message_context(
    catalog: &[SupplementProtocol],
    taken: &[bool],
    exams: &[UpcomingExam],
) -> (context: MessageContext)
    ensures
        context@ == context_of(protocol_views(catalog@), taken@, upcoming_views(exams@)),
{
    let count = count_taken(catalog.len(), taken);
    MessageContext {
        adherence_pct: adherence_percent(count as u64, catalog.len() as u64),
        taken_names: collect_names(catalog, taken, true),
        pending_names: collect_names(catalog, taken, false),
        all_names: collect_all_names(catalog),
        exam_context: exam_context(exams),
    }
}

/// A list of names as the prompt shows it: joined by commas, or a word for
/// "none".
pub open spec fn names_or_none(names: Seq<Seq<char>>) -> Seq<char> {
    if names.len() == 0 {
        NO_NAMES@
    } else {
        joined(names, ", "@)
    }
}

/// The prompt for a state.
pub open spec fn agent_prompt_of(hour: int, context: MessageContextView) -> Seq<char> {
    PROMPT_OPENING@ + decimal_text(hour as nat) + "h ("@ + time_period_of(hour)
        + ")\n- Aderência hoje: "@ + decimal_text(context.adherence_pct as nat)
        + "%\n- Suplementos tomados: "@ + names_or_none(context.taken_names) + "\n- Pendentes: "@
        + names_or_none(context.pending_names) + "\n- Protocolo completo: "@ + joined(
        context.all_names,
        ", "@,
    ) + "\n- "@ + context.exam_context + PROMPT_CLOSING@
}

fn listed(names: &Vec<String>) -> (text: String)
    ensures
        text@ == names_or_none(text_views(names@)),
{
    if names.len() == 0 {
        String::from_str(NO_NAMES)
    } else {
        join(names, ", ")
    }
}

/// Writes the prompt the text generator is asked with.
pub fn agent_prompt(hour: u32, context: &MessageContext) -> (prompt: String)
    ensures
        prompt@ == agent_prompt_of(hour as int, context@),
{
    let mut prompt = String::from_str(PROMPT_OPENING);
    prompt.append(decimal_string(hour as u64).as_str());
    prompt.append("h (");
    prompt.append(time_period(hour));
    prompt.append(")\n- Aderência hoje: ");
    prompt.append(decimal_string(context.adherence_pct).as_str());
    prompt.append("%\n- Suplementos tomados: ");
    prompt.append(listed(&context.taken_names).as_str());
    prompt.append("\n- Pendentes: ");
    prompt.append(listed(&context.pending_names).as_str());
    prompt.append("\n- Protocolo completo: ");
    prompt.append(join(&context.all_names, ", ").as_str());
    prompt.append("\n- ");
    prompt.append(context.exam_context.as_str());
    prompt.append(PROMPT_CLOSING);
    prompt
}

} // verus!
