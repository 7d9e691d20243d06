//! Carrying out what the user confirmed, and the figures of the day.

use crate::adherence::{adherence_percent, adherence_percent_of};
use crate::health::{SupplementEntry, SupplementEntryView};
use crate::text::{same_text, text_or, unwrap_or_text};
use vstd::prelude::*;
use vstd::string::*;

verus! {

/// The text fields of an action's payload, as far as each is present and a
/// string.
#[derive(Debug, Clone)]
pub struct ActionFields {
    pub name: Option<String>,
    pub dosage: Option<String>,
    pub category: Option<String>,
    pub vital_type: Option<String>,
    pub unit: Option<String>,
}

/// What is to be written to the store for a confirmed action.
#[derive(Debug, Clone)]
pub enum ActionPlan {
    /// Insert the entry and answer with the confirmation.
    LogSupplement { entry: SupplementEntry, confirmation: String },
    /// Insert a vital sign of this type and unit; its value stays with the
    /// caller.
    LogVital { vital_type: String, unit: String, recorded_at: String, source: String },
}

/// What an `ActionPlan` says.
pub enum ActionPlanView {
    LogSupplement { entry: SupplementEntryView, confirmation: Seq<char> },
    LogVital {
        vital_type: Seq<char>,
        unit: Seq<char>,
        recorded_at: Seq<char>,
        source: Seq<char>,
    },
}

impl View for ActionPlan {
    type V = ActionPlanView;

    open spec fn view(&self) -> ActionPlanView {
        match self {
            ActionPlan::LogSupplement { entry, confirmation } => ActionPlanView::LogSupplement {
                entry: entry@,
                confirmation: confirmation@,
            },
            ActionPlan::LogVital {
                vital_type,
                unit,
                recorded_at,
                source,
            } => ActionPlanView::LogVital {
                vital_type: vital_type@,
                unit: unit@,
                recorded_at: recorded_at@,
                source: source@,
            },
        }
    }
}

/// What a confirmed action leads to. Logging a supplement fills what the
/// payload lacks: the name with `Unknown`, the dosage with nothing, the
/// category with `as_needed`. Logging a vital sign fills a missing type with
/// `unknown`. Any other action is refused.
pub open spec fn action_plan_of(
    action_type: Seq<char>,
    fields: ActionFields,
    now: Seq<char>,
) -> Result<ActionPlanView, Seq<char>> {
    if action_type == "log_supplement"@ {
        Ok(
            ActionPlanView::LogSupplement {
                entry: SupplementEntryView {
                    id: None,
                    name: text_or(fields.name, "Unknown"@),
                    dosage: text_or(fields.dosage, ""@),
                    taken_at: now,
                    category: text_or(fields.category, "as_needed"@),
                    notes: None,
                },
                confirmation: text_or(fields.name, "Unknown"@) + " registado com sucesso."@,
            },
        )
    } else if action_type == "log_vital"@ {
        Ok(
            ActionPlanView::LogVital {
                vital_type: text_or(fields.vital_type, "unknown"@),
                unit: text_or(fields.unit, ""@),
                recorded_at: now,
                source: "agent"@,
            },
        )
    } else {
        Err("Ação desconhecida: "@ + action_type)
    }
}

/// Plans a confirmed action. `now` is the current time as it is to be
/// stored.
pub fn execute_agent_action(
    action_type: &str,
    fields: ActionFields,
    now: String,
) -> (plan: Result<ActionPlan, String>)
    ensures
        action_plan_of(action_type@, fields, now@) == match plan {
            Ok(plan) => Ok::<ActionPlanView, Seq<char>>(plan@),
            Err(refusal) => Err(refusal@),
        },
{
    if same_text(action_type, "log_supplement") {
        let name = unwrap_or_text(fields.name, "Unknown");
        let mut confirmation = name.clone();
        confirmation.append(" registado com sucesso.");
        Ok(
            ActionPlan::LogSupplement {
                entry: SupplementEntry {
                    id: None,
                    name,
                    dosage: unwrap_or_text(fields.dosage, ""),
                    taken_at: now,
                    category: unwrap_or_text(fields.category, "as_needed"),
                    notes: None,
                },
                confirmation,
            },
        )
    } else if same_text(action_type, "log_vital") {
        Ok(
            ActionPlan::LogVital {
                vital_type: unwrap_or_text(fields.vital_type, "unknown"),
                unit: unwrap_or_text(fields.unit, ""),
                recorded_at: now,
                source: String::from_str("agent"),
            },
        )
    } else {
        let mut refusal = String::from_str("Ação desconhecida: ");
        refusal.append(action_type);
        Err(refusal)
    }
}

/// The figures of one day.
#[derive(Clone, Copy, Debug, PartialEq, Eq, Structural)]
pub struct DailyStats {
    pub adherence_percent: u32,
    pub breaks_taken: u32,
    pub avg_posture_score: u32,
    pub focus_minutes: u32,
    pub voice_commands: u32,
}

/// The largest of `value` that a 32-bit figure can show.
pub open spec fn capped(value: int) -> int {
    if value > u32::MAX {
        u32::MAX as int
    } else {
        value
    }
}

/// The figures of the day: adherence from the number of intakes logged
/// today against all intakes logged, and the number of voice commands.
/// Breaks, posture and focus are not measured and stand at zero.
pub fn get_daily_stats(
    total_supplements: u32,
    taken_today: u32,
    voice_commands: u32,
) -> (stats: DailyStats)
    ensures
        stats == (DailyStats {
            adherence_percent: capped(
                adherence_percent_of(taken_today as int, total_supplements as int),
            ) as u32,
            breaks_taken: 0,
            avg_posture_score: 0,
            focus_minutes: 0,
            voice_commands,
        }),
        taken_today <= total_supplements ==> stats.adherence_percent == adherence_percent_of(
            taken_today as int,
            total_supplements as int,
        ),
{
    let percent = adherence_percent(taken_today as u64, total_supplements as u64);
    proof {
        assert(adherence_percent_of(taken_today as int, total_supplements as int) <= u64::MAX)
            by (nonlinear_arith)
            requires
                0 <= taken_today <= u32::MAX,
                0 <= total_supplements,
                adherence_percent_of(taken_today as int, total_supplements as int) == if
                    total_supplements <= 0 {
                    0
                } else {
                    100 * taken_today / (total_supplements as int)
                },
        ;
    }
    let adherence: u32 = if percent > u32::MAX as u64 {
        u32::MAX
    } else {
        percent as u32
    };
    DailyStats {
        adherence_percent: adherence,
        breaks_taken: 0,
        avg_posture_score: 0,
        focus_minutes: 0,
        voice_commands,
    }
}

} // verus!
