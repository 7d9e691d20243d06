//! The exam scheduler: from the supplements in use and the latest lab dates
//! to the list of exams that are due.
//!
//! Each exam watches one lab marker. It is due when the marker was last
//! tested at least a given number of thirty-day months ago, or never. Four
//! exams are asked for by a supplement family, two are always considered.
//! The scheduler proposes; whether a proposal is stored again while an
//! earlier one is still open is for the caller to decide.

use crate::calendar::{date_of_text, months_since, months_since_spec, ymd_text, CalendarDate, MAX_DAY};
use crate::text::{
    contains, find_first_containing, first_containing, lemma_first_true, lowercase, lowercase_of,
    occurs_in, text_views,
};
use vstd::prelude::*;
use vstd::string::*;

verus! {

/// Days for which a supplement counts as in use after it was last taken.
pub const ACTIVE_SUPPLEMENT_DAYS: u32 = 90;

/// A supplement family that calls for lab exams.
#[derive(Clone, Copy, Debug, PartialEq, Eq, Structural)]
pub enum TriggerCategory {
    Zinc,
    Magnesium,
    VitaminC,
}

/// The exams the scheduler can recommend.
#[derive(Clone, Copy, Debug, PartialEq, Eq, Structural)]
pub enum ExamKind {
    ZincCopper,
    Autoimmune,
    MagnesiumCortisol,
    Iron,
    VitaminD,
    Thyroid,
}

impl ExamKind {
    /// The text looked for in a lowercased marker name.
    pub open spec fn marker_key(self) -> Seq<char> {
        match self {
            ExamKind::ZincCopper => "zinc"@,
            ExamKind::Autoimmune => "ana"@,
            ExamKind::MagnesiumCortisol => "magnesium"@,
            ExamKind::Iron => "ferritin"@,
            ExamKind::VitaminD => "vitamin d"@,
            ExamKind::Thyroid => "tsh"@,
        }
    }

    /// Months after which the marker is to be tested again.
    pub open spec fn threshold_months(self) -> int {
        match self {
            ExamKind::ZincCopper => 3,
            ExamKind::Autoimmune => 6,
            ExamKind::MagnesiumCortisol => 4,
            ExamKind::Iron => 6,
            ExamKind::VitaminD => 3,
            ExamKind::Thyroid => 6,
        }
    }

    /// Days from today to the proposed exam date.
    pub open spec fn lead_days(self) -> int {
        match self {
            ExamKind::ZincCopper => 7,
            ExamKind::Autoimmune => 7,
            ExamKind::MagnesiumCortisol => 14,
            ExamKind::Iron => 14,
            ExamKind::VitaminD => 7,
            ExamKind::Thyroid => 14,
        }
    }

    /// The exam's type tag.
    pub open spec fn exam_type(self) -> Seq<char> {
        match self {
            ExamKind::ZincCopper => "zinc_copper_panel"@,
            ExamKind::Autoimmune => "autoimmune_panel"@,
            ExamKind::MagnesiumCortisol => "magnesium_cortisol_panel"@,
            ExamKind::Iron => "iron_panel"@,
            ExamKind::VitaminD => "vitamin_d_panel"@,
            ExamKind::Thyroid => "thyroid_panel"@,
        }
    }

    /// Why the exam is recommended, for the user to read.
    pub open spec fn reason(self) -> Seq<char> {
        match self {
            ExamKind::ZincCopper => "Monitorizar rácio Zinco/Cobre após 3 meses de suplementação com Winfit."@,
            ExamKind::Autoimmune => "Painel autoimune (ANA) para monitorizar Alopecia Areata — check semestral."@,
            ExamKind::MagnesiumCortisol => "Verificar Magnésio sérico + Cortisol para avaliar recuperação do sistema nervoso."@,
            ExamKind::Iron => "Painel de ferro (Ferritina, Ferro sérico) — Vitamina C aumenta absorção de ferro."@,
            ExamKind::VitaminD => "Verificação trimestral de Vitamina D — essencial para fototipo lightskin em Portugal (latitude alta, UV baixo no inverno)."@,
            ExamKind::Thyroid => "Painel tiroide (TSH, T3, T4) — monitorizar impacto do burnout crónico na tiroide."@,
        }
    }

    /// The identifier of the rule that asks for the exam.
    pub open spec fn trigger(self) -> Seq<char> {
        match self {
            ExamKind::ZincCopper => "zinc_supplementation_3mo"@,
            ExamKind::Autoimmune => "alopecia_areata_6mo"@,
            ExamKind::MagnesiumCortisol => "magnesium_supplementation_4mo"@,
            ExamKind::Iron => "vitc_iron_absorption_6mo"@,
            ExamKind::VitaminD => "vitd_quarterly_lightskin_portugal"@,
            ExamKind::Thyroid => "burnout_thyroid_6mo"@,
        }
    }

    /// The text looked for in a lowercased marker name.
    pub fn marker_key_str(self) -> (key: &'static str)
        ensures
            key@ == self.marker_key(),
    {
        match self {
            ExamKind::ZincCopper => "zinc",
            ExamKind::Autoimmune => "ana",
            ExamKind::MagnesiumCortisol => "magnesium",
            ExamKind::Iron => "ferritin",
            ExamKind::VitaminD => "vitamin d",
            ExamKind::Thyroid => "tsh",
        }
    }

    /// Months after which the marker is to be tested again.
    pub fn threshold(self) -> (months: i64)
        ensures
            months == self.threshold_months(),
    {
        match self {
            ExamKind::ZincCopper => 3,
            ExamKind::Autoimmune => 6,
            ExamKind::MagnesiumCortisol => 4,
            ExamKind::Iron => 6,
            ExamKind::VitaminD => 3,
            ExamKind::Thyroid => 6,
        }
    }

    /// Days from today to the proposed exam date.
    pub fn lead(self) -> (days: u16)
        ensures
            days == self.lead_days(),
    {
        match self {
            ExamKind::ZincCopper => 7,
            ExamKind::Autoimmune => 7,
            ExamKind::MagnesiumCortisol => 14,
            ExamKind::Iron => 14,
            ExamKind::VitaminD => 7,
            ExamKind::Thyroid => 14,
        }
    }

    /// The exam's type tag.
    pub fn exam_type_str(self) -> (tag: &'static str)
        ensures
            tag@ == self.exam_type(),
    {
        match self {
            ExamKind::ZincCopper => "zinc_copper_panel",
            ExamKind::Autoimmune => "autoimmune_panel",
            ExamKind::MagnesiumCortisol => "magnesium_cortisol_panel",
            ExamKind::Iron => "iron_panel",
            ExamKind::VitaminD => "vitamin_d_panel",
            ExamKind::Thyroid => "thyroid_panel",
        }
    }

    /// Why the exam is recommended, for the user to read.
    pub fn reason_str(self) -> (reason: &'static str)
        ensures
            reason@ == self.reason(),
    {
        match self {
            ExamKind::ZincCopper => "Monitorizar rácio Zinco/Cobre após 3 meses de suplementação com Winfit.",
            ExamKind::Autoimmune => "Painel autoimune (ANA) para monitorizar Alopecia Areata — check semestral.",
            ExamKind::MagnesiumCortisol => "Verificar Magnésio sérico + Cortisol para avaliar recuperação do sistema nervoso.",
            ExamKind::Iron => "Painel de ferro (Ferritina, Ferro sérico) — Vitamina C aumenta absorção de ferro.",
            ExamKind::VitaminD => "Verificação trimestral de Vitamina D — essencial para fototipo lightskin em Portugal (latitude alta, UV baixo no inverno).",
            ExamKind::Thyroid => "Painel tiroide (TSH, T3, T4) — monitorizar impacto do burnout crónico na tiroide.",
        }
    }

    /// The identifier of the rule that asks for the exam.
    pub fn trigger_str(self) -> (id: &'static str)
        ensures
            id@ == self.trigger(),
    {
        match self {
            ExamKind::ZincCopper => "zinc_supplementation_3mo",
            ExamKind::Autoimmune => "alopecia_areata_6mo",
            ExamKind::MagnesiumCortisol => "magnesium_supplementation_4mo",
            ExamKind::Iron => "vitc_iron_absorption_6mo",
            ExamKind::VitaminD => "vitd_quarterly_lightskin_portugal",
            ExamKind::Thyroid => "burnout_thyroid_6mo",
        }
    }
}

/// A recommended exam, ready to be stored.
#[derive(Debug, Clone)]
pub struct ScheduledExam {
    pub exam_type: String,
    pub reason: String,
    pub scheduled_date: String,
    pub triggered_by: String,
}

/// What a `ScheduledExam` says.
pub struct ScheduledExamView {
    pub exam_type: Seq<char>,
    pub reason: Seq<char>,
    pub scheduled_date: Seq<char>,
    pub triggered_by: Seq<char>,
}

impl View for ScheduledExam {
    type V = ScheduledExamView;

    open spec fn view(&self) -> ScheduledExamView {
        ScheduledExamView {
            exam_type: self.exam_type@,
            reason: self.reason@,
            scheduled_date: self.scheduled_date@,
            triggered_by: self.triggered_by@,
        }
    }
}

/// A supplement taken in the recent past.
#[derive(Debug)]
pub struct SupplementInfo {
    pub name: String,
    pub started_date: String,
}

/// What a `SupplementInfo` says.
pub struct SupplementInfoView {
    pub name: Seq<char>,
    pub started_date: Seq<char>,
}

impl View for SupplementInfo {
    type V = SupplementInfoView;

    open spec fn view(&self) -> SupplementInfoView {
        SupplementInfoView { name: self.name@, started_date: self.started_date@ }
    }
}

/// The most recent test of one lab marker.
#[derive(Debug)]
pub struct LabInfo {
    pub marker: String,
    pub date: String,
}

/// What a `LabInfo` says.
pub struct LabInfoView {
    pub marker: Seq<char>,
    pub date: Seq<char>,
}

impl View for LabInfo {
    type V = LabInfoView;

    open spec fn view(&self) -> LabInfoView {
        LabInfoView { marker: self.marker@, date: self.date@ }
    }
}

/// The views of a list of supplements.
pub open spec fn supplement_views(supplements: Seq<SupplementInfo>) -> Seq<SupplementInfoView> {
    supplements.map_values(|supplement: SupplementInfo| supplement@)
}

/// The views of a lab history.
pub open spec fn lab_views(labs: Seq<LabInfo>) -> Seq<LabInfoView> {
    labs.map_values(|lab: LabInfo| lab@)
}

/// The views of a schedule.
pub open spec fn exam_views(exams: Seq<ScheduledExam>) -> Seq<ScheduledExamView> {
    exams.map_values(|exam: ScheduledExam| exam@)
}

/// The family of a supplement, judged by its lowercased name. The first
/// family whose keywords occur in the name wins.
pub open spec fn category_of(lower_name: Seq<char>) -> Option<TriggerCategory> {
    if occurs_in("zinco"@, lower_name) || occurs_in("zinc"@, lower_name) || occurs_in(
        "winfit"@,
        lower_name,
    ) {
        Some(TriggerCategory::Zinc)
    } else if occurs_in("magnésio"@, lower_name) || occurs_in("magnesium"@, lower_name)
        || occurs_in("bisglicinato"@, lower_name) {
        Some(TriggerCategory::Magnesium)
    } else if occurs_in("vitamina c"@, lower_name) || occurs_in("vitamin c"@, lower_name)
        || occurs_in("vit c"@, lower_name) {
        Some(TriggerCategory::VitaminC)
    } else {
        None
    }
}

/// The family of a supplement whose name is already in lowercase.
pub fn classify_supplement(lower_name: &str) -> (category: Option<TriggerCategory>)
    ensures
        category == category_of(lower_name@),
{
    if contains(lower_name, "zinco") || contains(lower_name, "zinc") || contains(
        lower_name,
        "winfit",
    ) {
        Some(TriggerCategory::Zinc)
    } else if contains(lower_name, "magnésio") || contains(lower_name, "magnesium") || contains(
        lower_name,
        "bisglicinato",
    ) {
        Some(TriggerCategory::Magnesium)
    } else if contains(lower_name, "vitamina c") || contains(lower_name, "vitamin c")
        || contains(lower_name, "vit c") {
        Some(TriggerCategory::VitaminC)
    } else {
        None
    }
}

/// The family of a supplement, whatever the case of its name.
pub fn supplement_category(name: &str) -> (category: Option<TriggerCategory>)
    ensures
        category == category_of(lowercase_of(name@)),
{
    let lower = lowercase(name);
    classify_supplement(lower.as_str())
}

/// Whether an exam is due, given when its marker was last tested.
pub open spec fn is_due(kind: ExamKind, today: int, last: Option<int>) -> bool {
    months_since_spec(today, last) >= kind.threshold_months()
}

/// Whether an exam is due as of `today`.
pub fn exam_is_due(kind: ExamKind, today: CalendarDate, last: Option<CalendarDate>) -> (due: bool)
    ensures
        due == is_due(
            kind,
            today@,
            match last {
                Some(d) => Some(d@),
                None => None,
            },
        ),
{
    months_since(today, last) >= kind.threshold()
}

/// Which of the six exams are due.
#[derive(Clone, Copy, Debug, PartialEq, Eq, Structural)]
pub struct DueExams {
    pub zinc_copper: bool,
    pub autoimmune: bool,
    pub magnesium_cortisol: bool,
    pub iron: bool,
    pub vitamin_d: bool,
    pub thyroid: bool,
}

impl DueExams {
    /// Whether the exam of a kind is due.
    pub open spec fn has(self, kind: ExamKind) -> bool {
        match kind {
            ExamKind::ZincCopper => self.zinc_copper,
            ExamKind::Autoimmune => self.autoimmune,
            ExamKind::MagnesiumCortisol => self.magnesium_cortisol,
            ExamKind::Iron => self.iron,
            ExamKind::VitaminD => self.vitamin_d,
            ExamKind::Thyroid => self.thyroid,
        }
    }
}

/// One exam if it is due, none otherwise.
pub open spec fn exam_if(due: DueExams, kind: ExamKind) -> Seq<ExamKind> {
    if due.has(kind) {
        seq![kind]
    } else {
        Seq::empty()
    }
}

/// The exams one supplement asks for, among those that are due.
pub open spec fn category_exams(category: Option<TriggerCategory>, due: DueExams) -> Seq<ExamKind> {
    match category {
        Some(TriggerCategory::Zinc) => exam_if(due, ExamKind::ZincCopper) + exam_if(
            due,
            ExamKind::Autoimmune,
        ),
        Some(TriggerCategory::Magnesium) => exam_if(due, ExamKind::MagnesiumCortisol),
        Some(TriggerCategory::VitaminC) => exam_if(due, ExamKind::Iron),
        None => Seq::empty(),
    }
}

/// The exams all supplements ask for, in the order of the supplements. An
/// exam asked for twice appears twice.
pub open spec fn supplement_exams(
    categories: Seq<Option<TriggerCategory>>,
    due: DueExams,
) -> Seq<ExamKind>
    decreases categories.len(),
{
    if categories.len() == 0 {
        Seq::empty()
    } else {
        supplement_exams(categories.drop_last(), due) + category_exams(categories.last(), due)
    }
}

/// The whole plan: what the supplements ask for, then vitamin D, then
/// thyroid.
pub open spec fn planned_exams(
    categories: Seq<Option<TriggerCategory>>,
    due: DueExams,
) -> Seq<ExamKind> {
    supplement_exams(categories, due) + exam_if(due, ExamKind::VitaminD) + exam_if(
        due,
        ExamKind::Thyroid,
    )
}

/// Plans the exams from the family of each supplement in use and from the
/// exams that are due.
pub fn plan_exams(categories: &Vec<Option<TriggerCategory>>, due: DueExams) -> (plan: Vec<ExamKind>)
    ensures
        plan@ == planned_exams(categories@, due),
{
    let mut plan: Vec<ExamKind> = Vec::new();
    let mut i: usize = 0;
    while i < categories.len()
        invariant
            i <= categories.len(),
            plan@ == supplement_exams(categories@.take(i as int), due),
        decreases categories.len() - i,
    {
        let ghost before = plan@;
        match categories[i] {
            Some(TriggerCategory::Zinc) => {
                if due.zinc_copper {
                    plan.push(ExamKind::ZincCopper);
                }
                if due.autoimmune {
                    plan.push(ExamKind::Autoimmune);
                }
            },
            Some(TriggerCategory::Magnesium) => {
                if due.magnesium_cortisol {
                    plan.push(ExamKind::MagnesiumCortisol);
                }
            },
            Some(TriggerCategory::VitaminC) => {
                if due.iron {
                    plan.push(ExamKind::Iron);
                }
            },
            None => {},
        }
        proof {
            let next = categories@.take(i + 1);
            assert(next.drop_last() =~= categories@.take(i as int));
            assert(next.last() == categories@[i as int]);
            assert(plan@ =~= before + category_exams(categories@[i as int], due));
        }
        i = i + 1;
    }
    proof {
        assert(categories@.take(i as int) =~= categories@);
    }
    let ghost from_supplements = plan@;
    if due.vitamin_d {
        plan.push(ExamKind::VitaminD);
    }
    if due.thyroid {
        plan.push(ExamKind::Thyroid);
    }
    proof {
        assert(plan@ =~= from_supplements + exam_if(due, ExamKind::VitaminD) + exam_if(
            due,
            ExamKind::Thyroid,
        ));
    }
    plan
}

/// The family of each supplement, in order.
pub open spec fn categories_of(
    supplements: Seq<SupplementInfoView>,
) -> Seq<Option<TriggerCategory>> {
    supplements.map_values(|supplement: SupplementInfoView| category_of(lowercase_of(supplement.name)))
}

/// The marker names of a lab history, in lowercase.
pub open spec fn lowered_markers(labs: Seq<LabInfoView>) -> Seq<Seq<char>> {
    labs.map_values(|lab: LabInfoView| lowercase_of(lab.marker))
}

/// When the marker of an exam was last tested: the date of the first lab
/// record whose lowercased marker name holds the exam's key. No such record,
/// or a date that cannot be read, counts as never tested.
pub open spec fn last_test(labs: Seq<LabInfoView>, kind: ExamKind) -> Option<int> {
    match first_containing(lowered_markers(labs), kind.marker_key()) {
        Some(i) => date_of_text(labs[i].date),
        None => None,
    }
}

/// Which exams are due, given the lab history.
pub open spec fn due_exams_of(labs: Seq<LabInfoView>, today: int) -> DueExams {
    DueExams {
        zinc_copper: is_due(ExamKind::ZincCopper, today, last_test(labs, ExamKind::ZincCopper)),
        autoimmune: is_due(ExamKind::Autoimmune, today, last_test(labs, ExamKind::Autoimmune)),
        magnesium_cortisol: is_due(
            ExamKind::MagnesiumCortisol,
            today,
            last_test(labs, ExamKind::MagnesiumCortisol),
        ),
        iron: is_due(ExamKind::Iron, today, last_test(labs, ExamKind::Iron)),
        vitamin_d: is_due(ExamKind::VitaminD, today, last_test(labs, ExamKind::VitaminD)),
        thyroid: is_due(ExamKind::Thyroid, today, last_test(labs, ExamKind::Thyroid)),
    }
}

/// The exam of a kind, proposed as of `today`.
pub open spec fn exam_view(kind: ExamKind, today: int) -> ScheduledExamView {
    ScheduledExamView {
        exam_type: kind.exam_type(),
        reason: kind.reason(),
        scheduled_date: ymd_text(today + kind.lead_days()),
        triggered_by: kind.trigger(),
    }
}

/// The kinds of exam the scheduler recommends, in order.
pub open spec fn recommended(
    supplements: Seq<SupplementInfoView>,
    labs: Seq<LabInfoView>,
    today: int,
) -> Seq<ExamKind> {
    planned_exams(categories_of(supplements), due_exams_of(labs, today))
}

/// The schedule: every recommended kind as an exam dated from `today`.
pub open spec fn schedule(
    supplements: Seq<SupplementInfoView>,
    labs: Seq<LabInfoView>,
    today: int,
) -> Seq<ScheduledExamView> {
    recommended(supplements, labs, today).map_values(|kind: ExamKind| exam_view(kind, today))
}

/// The exam of a kind, dated `lead_days` after `today`.
pub fn exam_for(kind: ExamKind, today: CalendarDate) -> (exam: ScheduledExam)
    requires
        today@ + kind.lead_days() <= MAX_DAY,
    ensures
        exam@ == exam_view(kind, today@),
{
    let date = today.plus_days(kind.lead()).unwrap();
    ScheduledExam {
        exam_type: String::from_str(kind.exam_type_str()),
        reason: String::from_str(kind.reason_str()),
        scheduled_date: date.format(),
        triggered_by: String::from_str(kind.trigger_str()),
    }
}

fn lowercase_markers(labs: &[LabInfo]) -> (lowered: Vec<String>)
    ensures
        text_views(lowered@) == lowered_markers(lab_views(labs@)),
{
    let mut lowered: Vec<String> = Vec::new();
    let mut i: usize = 0;
    while i < labs.len()
        invariant
            i <= labs.len(),
            lowered@.len() == i,
            forall|j: int| 0 <= j < i ==> (#[trigger] lowered@[j])@ == lowercase_of(labs@[j].marker@),
        decreases labs.len() - i,
    {
        lowered.push(lowercase(labs[i].marker.as_str()));
        i = i + 1;
    }
    proof {
        assert(text_views(lowered@) =~= lowered_markers(lab_views(labs@)));
    }
    lowered
}

fn marker_date(
    labs: &[LabInfo],
    lowered: &Vec<String>,
    kind: ExamKind,
) -> (last: Option<CalendarDate>)
    requires
        text_views(lowered@) == lowered_markers(lab_views(labs@)),
    ensures
        last_test(lab_views(labs@), kind) == match last {
            Some(d) => Some(d@),
            None => None,
        },
{
    proof {
        lemma_first_true(
            text_views(lowered@).map_values(|text: Seq<char>| occurs_in(kind.marker_key(), text)),
        );
        assert(lowered_markers(lab_views(labs@)).len() == labs@.len());
    }
    match find_first_containing(lowered, kind.marker_key_str()) {
        Some(i) => {
            assert(lab_views(labs@)[i as int] == labs@[i as int]@);
            CalendarDate::parse(labs[i].date.as_str())
        },
        None => None,
    }
}

/// When the marker of an exam was last tested, by the lab history.
pub fn last_test_date(labs: &[LabInfo], kind: ExamKind) -> (last: Option<CalendarDate>)
    ensures
        last_test(lab_views(labs@), kind) == match last {
            Some(d) => Some(d@),
            None => None,
        },
{
    let lowered = lowercase_markers(labs);
    marker_date(labs, &lowered, kind)
}

/// Which exams are due as of `today`, by the lab history.
pub fn due_exams(labs: &[LabInfo], today: CalendarDate) -> (due: DueExams)
    ensures
        due == due_exams_of(lab_views(labs@), today@),
{
    let lowered = lowercase_markers(labs);
    DueExams {
        zinc_copper: exam_is_due(
            ExamKind::ZincCopper,
            today,
            marker_date(labs, &lowered, ExamKind::ZincCopper),
        ),
        autoimmune: exam_is_due(
            ExamKind::Autoimmune,
            today,
            marker_date(labs, &lowered, ExamKind::Autoimmune),
        ),
        magnesium_cortisol: exam_is_due(
            ExamKind::MagnesiumCortisol,
            today,
            marker_date(labs, &lowered, ExamKind::MagnesiumCortisol),
        ),
        iron: exam_is_due(ExamKind::Iron, today, marker_date(labs, &lowered, ExamKind::Iron)),
        vitamin_d: exam_is_due(
            ExamKind::VitaminD,
            today,
            marker_date(labs, &lowered, ExamKind::VitaminD),
        ),
        thyroid: exam_is_due(
            ExamKind::Thyroid,
            today,
            marker_date(labs, &lowered, ExamKind::Thyroid),
        ),
    }
}

/// The family of each supplement in use.
pub fn supplement_categories(
    supplements: &[SupplementInfo],
) -> (categories: Vec<Option<TriggerCategory>>)
    ensures
        categories@ == categories_of(supplement_views(supplements@)),
{
    let mut categories: Vec<Option<TriggerCategory>> = Vec::new();
    let mut i: usize = 0;
    while i < supplements.len()
        invariant
            i <= supplements.len(),
            categories@.len() == i,
            forall|j: int|
                0 <= j < i ==> #[trigger] categories@[j] == category_of(
                    lowercase_of(supplements@[j].name@),
                ),
        decreases supplements.len() - i,
    {
        categories.push(supplement_category(supplements[i].name.as_str()));
        i = i + 1;
    }
    proof {
        assert(categories@ =~= categories_of(supplement_views(supplements@)));
    }
    categories
}

/// Recommends exams for the supplements in use and the latest lab dates, as
/// of `today`. Exams that a supplement asks for come first, in the order of
/// the supplements; vitamin D and thyroid follow. Nothing is merged: two
/// supplements of one family each bring their exams.
///
/// The latest proposed date lies fourteen days after `today` and must still
/// be a date that can be held.
pub fn generate_exam_schedule(
    supplements: &[SupplementInfo],
    last_labs: &[LabInfo],
    today: CalendarDate,
) -> (exams: Vec<ScheduledExam>)
    requires
        today@ + 14 <= MAX_DAY,
    ensures
        exam_views(exams@) == schedule(
            supplement_views(supplements@),
            lab_views(last_labs@),
            today@,
        ),
{
    let categories = supplement_categories(supplements);
    let due = due_exams(last_labs, today);
    let plan = plan_exams(&categories, due);
    let mut exams: Vec<ScheduledExam> = Vec::new();
    let mut i: usize = 0;
    while i < plan.len()
        invariant
            i <= plan.len(),
            today@ + 14 <= MAX_DAY,
            exams@.len() == i,
            forall|j: int| 0 <= j < i ==> (#[trigger] exams@[j])@ == exam_view(plan@[j], today@),
        decreases plan.len() - i,
    {
        exams.push(exam_for(plan[i], today));
        i = i + 1;
    }
    proof {
        assert(exam_views(exams@) =~= schedule(
            supplement_views(supplements@),
            lab_views(last_labs@),
            today@,
        ));
    }
    exams
}

/// The supplements as the store names them: a name each, no start date.
pub open spec fn named_supplements(names: Seq<String>) -> Seq<SupplementInfoView> {
    names.map_values(
        |name: String| SupplementInfoView { name: name@, started_date: Seq::empty() },
    )
}

/// The lab history as the store gives it: marker and date of the latest
/// test, pair by pair.
pub open spec fn paired_labs(labs: Seq<(String, String)>) -> Seq<LabInfoView> {
    labs.map_values(|lab: (String, String)| LabInfoView { marker: lab.0@, date: lab.1@ })
}

/// The schedule for what the store holds: the names of the supplements
/// taken in the last ninety days and the latest test date of each marker.
pub fn get_exam_schedule(
    supplement_names: &Vec<String>,
    latest_labs: &Vec<(String, String)>,
    today: CalendarDate,
) -> (exams: Vec<ScheduledExam>)
    requires
        today@ + 14 <= MAX_DAY,
    ensures
        exam_views(exams@) == schedule(
            named_supplements(supplement_names@),
            paired_labs(latest_labs@),
            today@,
        ),
{
    let mut supplements: Vec<SupplementInfo> = Vec::new();
    let mut i: usize = 0;
    while i < supplement_names.len()
        invariant
            i <= supplement_names.len(),
            supplements@.len() == i,
            forall|j: int|
                0 <= j < i ==> (#[trigger] supplements@[j])@ == (SupplementInfoView {
                    name: supplement_names@[j]@,
                    started_date: Seq::empty(),
                }),
        decreases supplement_names.len() - i,
    {
        supplements.push(
            SupplementInfo { name: supplement_names[i].clone(), started_date: String::new() },
        );
        i = i + 1;
    }
    let mut labs: Vec<LabInfo> = Vec::new();
    let mut k: usize = 0;
    while k < latest_labs.len()
        invariant
            k <= latest_labs.len(),
            labs@.len() == k,
            forall|j: int|
                0 <= j < k ==> (#[trigger] labs@[j])@ == (LabInfoView {
                    marker: latest_labs@[j].0@,
                    date: latest_labs@[j].1@,
                }),
        decreases latest_labs.len() - k,
    {
        labs.push(LabInfo { marker: latest_labs[k].0.clone(), date: latest_labs[k].1.clone() });
        k = k + 1;
    }
    proof {
        assert(supplement_views(supplements@) =~= named_supplements(supplement_names@));
        assert(lab_views(labs@) =~= paired_labs(latest_labs@));
    }
    generate_exam_schedule(supplements.as_slice(), labs.as_slice(), today)
}

} // verus!
