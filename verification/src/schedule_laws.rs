//! What holds of every schedule the scheduler gives.

use crate::calendar::{day_in_range, months_since_spec, parsed_day};
use crate::scheduler::{
    categories_of, category_exams, due_exams_of, exam_if, exam_view, is_due, last_test,
    lowered_markers, planned_exams, recommended, schedule, supplement_exams, DueExams, ExamKind,
    LabInfoView, ScheduledExamView, SupplementInfoView, TriggerCategory,
};
use crate::text::{lemma_first_true_is, lowercase_of, occurs_in};
use vstd::prelude::*;

verus! {

/// Whether the supplements in use ask for an exam at all. Vitamin D and
/// thyroid are always considered; the others need a supplement of their
/// family.
pub open spec fn asked_for(kind: ExamKind, categories: Seq<Option<TriggerCategory>>) -> bool {
    match kind {
        ExamKind::ZincCopper => categories.contains(Some(TriggerCategory::Zinc)),
        ExamKind::Autoimmune => categories.contains(Some(TriggerCategory::Zinc)),
        ExamKind::MagnesiumCortisol => categories.contains(Some(TriggerCategory::Magnesium)),
        ExamKind::Iron => categories.contains(Some(TriggerCategory::VitaminC)),
        ExamKind::VitaminD => true,
        ExamKind::Thyroid => true,
    }
}

/// A marker tested `days_ago` days ago is due exactly when `days_ago / 30`,
/// in whole numbers, has reached the marker's threshold: three months for
/// vitamin D and zinc/copper, four for magnesium, six for ANA, ferritin and
/// TSH.
pub proof fn law_due_iff_threshold_reached(kind: ExamKind, today: int, days_ago: int)
    requires
        days_ago >= 0,
    ensures
        is_due(kind, today, Some(today - days_ago)) <==> days_ago / 30 >= kind.threshold_months(),
        kind.threshold_months() == match kind {
            ExamKind::VitaminD => 3int,
            ExamKind::ZincCopper => 3,
            ExamKind::MagnesiumCortisol => 4,
            ExamKind::Autoimmune => 6,
            ExamKind::Iron => 6,
            ExamKind::Thyroid => 6,
        },
{
}

/// A marker without any record is as stale as one tested 999 months ago,
/// and its exam is always due.
pub proof fn law_never_tested_is_999_months(kind: ExamKind, today: int)
    ensures
        months_since_spec(today, None) == 999,
        months_since_spec(today, None) == months_since_spec(today, Some(today - 999 * 30)),
        is_due(kind, today, None),
        is_due(kind, today, None) == is_due(kind, today, Some(today - 999 * 30)),
{
}

proof fn lemma_supplement_exams_contains(
    categories: Seq<Option<TriggerCategory>>,
    due: DueExams,
    kind: ExamKind,
)
    ensures
        supplement_exams(categories, due).contains(kind) <==> (due.has(kind) && asked_for(
            kind,
            categories,
        ) && kind != ExamKind::VitaminD && kind != ExamKind::Thyroid),
    decreases categories.len(),
{
    if categories.len() == 0 {
        assert(!supplement_exams(categories, due).contains(kind));
        assert(forall|c: Option<TriggerCategory>| !categories.contains(c));
    } else {
        let front = categories.drop_last();
        let last = categories.last();
        lemma_supplement_exams_contains(front, due, kind);
        let head = supplement_exams(front, due);
        let tail = category_exams(last, due);
        assert(supplement_exams(categories, due) == head + tail);
        lemma_concat_contains(head, tail, kind);
        assert forall|c: Option<TriggerCategory>|
            categories.contains(c) <==> front.contains(c) || c == last by {
            if front.contains(c) {
                let i = choose|i: int| 0 <= i < front.len() && front[i] == c;
                assert(categories[i] == c);
            }
            if c == last {
                assert(categories[categories.len() - 1] == c);
            }
            if categories.contains(c) {
                let i = choose|i: int| 0 <= i < categories.len() && categories[i] == c;
                if i < front.len() {
                    assert(front[i] == c);
                }
            }
        }
        lemma_category_exams_contains(last, due, kind);
    }
}

proof fn lemma_exam_if_contains(due: DueExams, of: ExamKind, kind: ExamKind)
    ensures
        exam_if(due, of).contains(kind) <==> (due.has(kind) && kind == of),
{
    if due.has(of) {
        assert(exam_if(due, of)[0] == of);
    }
}

proof fn lemma_concat_contains(head: Seq<ExamKind>, tail: Seq<ExamKind>, kind: ExamKind)
    ensures
        (head + tail).contains(kind) <==> head.contains(kind) || tail.contains(kind),
{
    if head.contains(kind) {
        let i = choose|i: int| 0 <= i < head.len() && head[i] == kind;
        assert((head + tail)[i] == kind);
    }
    if tail.contains(kind) {
        let i = choose|i: int| 0 <= i < tail.len() && tail[i] == kind;
        assert((head + tail)[head.len() + i] == kind);
    }
    if (head + tail).contains(kind) {
        let i = choose|i: int| 0 <= i < (head + tail).len() && (head + tail)[i] == kind;
        if i < head.len() {
            assert(head[i] == kind);
        } else {
            assert(tail[i - head.len()] == kind);
        }
    }
}

proof fn lemma_category_exams_contains(
    category: Option<TriggerCategory>,
    due: DueExams,
    kind: ExamKind,
)
    ensures
        category_exams(category, due).contains(kind) <==> (due.has(kind) && match kind {
            ExamKind::ZincCopper => category == Some(TriggerCategory::Zinc),
            ExamKind::Autoimmune => category == Some(TriggerCategory::Zinc),
            ExamKind::MagnesiumCortisol => category == Some(TriggerCategory::Magnesium),
            ExamKind::Iron => category == Some(TriggerCategory::VitaminC),
            ExamKind::VitaminD => false,
            ExamKind::Thyroid => false,
        }),
{
    lemma_exam_if_contains(due, ExamKind::ZincCopper, kind);
    lemma_exam_if_contains(due, ExamKind::Autoimmune, kind);
    lemma_exam_if_contains(due, ExamKind::MagnesiumCortisol, kind);
    lemma_exam_if_contains(due, ExamKind::Iron, kind);
    lemma_concat_contains(
        exam_if(due, ExamKind::ZincCopper),
        exam_if(due, ExamKind::Autoimmune),
        kind,
    );
    if category is None {
        assert(!category_exams(category, due).contains(kind));
    }
}

/// An exam is in the plan exactly when it is due and asked for.
pub proof fn law_planned_iff_due_and_asked_for(
    categories: Seq<Option<TriggerCategory>>,
    due: DueExams,
    kind: ExamKind,
)
    ensures
        planned_exams(categories, due).contains(kind) <==> (due.has(kind) && asked_for(
            kind,
            categories,
        )),
{
    lemma_supplement_exams_contains(categories, due, kind);
    lemma_exam_if_contains(due, ExamKind::VitaminD, kind);
    lemma_exam_if_contains(due, ExamKind::Thyroid, kind);
    let from_supplements = supplement_exams(categories, due);
    let vitamin_d = exam_if(due, ExamKind::VitaminD);
    let thyroid = exam_if(due, ExamKind::Thyroid);
    lemma_concat_contains(from_supplements, vitamin_d, kind);
    lemma_concat_contains(from_supplements + vitamin_d, thyroid, kind);
}

/// For every lab history in which the marker of an exam was last tested
/// `days_ago` days ago, the scheduler recommends the exam exactly when
/// `days_ago / 30` has reached the marker's threshold and the exam is asked
/// for.
pub proof fn law_recommended_iff_stale(
    supplements: Seq<SupplementInfoView>,
    labs: Seq<LabInfoView>,
    today: int,
    kind: ExamKind,
    days_ago: int,
)
    requires
        days_ago >= 0,
        last_test(labs, kind) == Some(today - days_ago),
    ensures
        recommended(supplements, labs, today).contains(kind) <==> (days_ago / 30
            >= kind.threshold_months() && asked_for(kind, categories_of(supplements))),
{
    law_planned_iff_due_and_asked_for(
        categories_of(supplements),
        due_exams_of(labs, today),
        kind,
    );
    law_due_iff_threshold_reached(kind, today, days_ago);
}

/// For every lab history without a readable record of an exam's marker, the
/// scheduler recommends the exam whenever it is asked for, just as it does
/// for a history in which the marker was tested 999 months ago.
pub proof fn law_absent_record_always_triggers(
    supplements: Seq<SupplementInfoView>,
    absent: Seq<LabInfoView>,
    old: Seq<LabInfoView>,
    today: int,
    kind: ExamKind,
)
    requires
        last_test(absent, kind) is None,
        last_test(old, kind) == Some(today - 999 * 30),
    ensures
        recommended(supplements, absent, today).contains(kind) <==> asked_for(
            kind,
            categories_of(supplements),
        ),
        recommended(supplements, absent, today).contains(kind) <==> recommended(
            supplements,
            old,
            today,
        ).contains(kind),
{
    law_planned_iff_due_and_asked_for(
        categories_of(supplements),
        due_exams_of(absent, today),
        kind,
    );
    law_planned_iff_due_and_asked_for(categories_of(supplements), due_exams_of(old, today), kind);
    law_never_tested_is_999_months(kind, today);
}

/// The schedule is a function of its inputs: two schedules made from the
/// same supplements, lab history and day are the same list, in the same
/// order.
pub proof fn law_same_inputs_same_schedule(
    first: Seq<ScheduledExamView>,
    second: Seq<ScheduledExamView>,
    supplements: Seq<SupplementInfoView>,
    labs: Seq<LabInfoView>,
    today: int,
)
    requires
        first == schedule(supplements, labs, today),
        second == schedule(supplements, labs, today),
    ensures
        first == second,
        first.len() == recommended(supplements, labs, today).len(),
        forall|i: int|
            0 <= i < first.len() ==> first[i] == exam_view(
                #[trigger] recommended(supplements, labs, today)[i],
                today,
            ),
{
}

/// The record that decides on an exam is the first whose marker name, in
/// lowercase, holds the exam's key; its date, where it can be read, is the
/// date of the last test.
pub proof fn law_first_record_decides(
    labs: Seq<LabInfoView>,
    kind: ExamKind,
    record: int,
    tested: int,
)
    requires
        0 <= record < labs.len(),
        occurs_in(kind.marker_key(), lowercase_of(labs[record].marker)),
        forall|earlier: int|
            0 <= earlier < record ==> !occurs_in(
                kind.marker_key(),
                lowercase_of(#[trigger] labs[earlier].marker),
            ),
        parsed_day(labs[record].date) == Some(tested),
        day_in_range(tested),
    ensures
        last_test(labs, kind) == Some(tested),
{
    let flags = lowered_markers(labs).map_values(
        |text: Seq<char>| occurs_in(kind.marker_key(), text),
    );
    assert forall|earlier: int| 0 <= earlier < record implies !#[trigger] flags[earlier] by {
        assert(!occurs_in(kind.marker_key(), lowercase_of(labs[earlier].marker)));
    }
    lemma_first_true_is(flags, record);
}

/// No two exams share a type tag.
pub proof fn law_exam_types_differ(first: ExamKind, second: ExamKind)
    ensures
        first.exam_type() == second.exam_type() <==> first == second,
{
    reveal_strlit("zinc_copper_panel");
    reveal_strlit("autoimmune_panel");
    reveal_strlit("magnesium_cortisol_panel");
    reveal_strlit("iron_panel");
    reveal_strlit("vitamin_d_panel");
    reveal_strlit("thyroid_panel");
    assert(ExamKind::ZincCopper.exam_type().len() == 17);
    assert(ExamKind::Autoimmune.exam_type().len() == 16);
    assert(ExamKind::MagnesiumCortisol.exam_type().len() == 24);
    assert(ExamKind::Iron.exam_type().len() == 10);
    assert(ExamKind::VitaminD.exam_type().len() == 15);
    assert(ExamKind::Thyroid.exam_type().len() == 13);
}

/// The schedule holds an exam of a type exactly when the scheduler
/// recommends that exam.
pub proof fn law_schedule_shows_what_is_recommended(
    supplements: Seq<SupplementInfoView>,
    labs: Seq<LabInfoView>,
    today: int,
    kind: ExamKind,
)
    ensures
        (exists|i: int|
            0 <= i < schedule(supplements, labs, today).len() && (#[trigger] schedule(
                supplements,
                labs,
                today,
            )[i]).exam_type == kind.exam_type()) <==> recommended(supplements, labs, today).contains(
            kind,
        ),
{
    let kinds = recommended(supplements, labs, today);
    let exams = schedule(supplements, labs, today);
    assert(exams.len() == kinds.len());
    if kinds.contains(kind) {
        let i = choose|i: int| 0 <= i < kinds.len() && kinds[i] == kind;
        assert(exams[i].exam_type == kind.exam_type());
    }
    if exists|i: int| 0 <= i < exams.len() && (#[trigger] exams[i]).exam_type == kind.exam_type() {
        let i = choose|i: int|
            0 <= i < exams.len() && (#[trigger] exams[i]).exam_type == kind.exam_type();
        assert(exams[i] == exam_view(kinds[i], today));
        law_exam_types_differ(kinds[i], kind);
        assert(kinds[i] == kind);
    }
}

/// How often `item` occurs in `items`.
pub open spec fn times<A>(items: Seq<A>, item: A) -> nat
    decreases items.len(),
{
    if items.len() == 0 {
        0
    } else {
        times(items.drop_last(), item) + if items.last() == item {
            1nat
        } else {
            0
        }
    }
}

proof fn lemma_times_concat<A>(head: Seq<A>, tail: Seq<A>, item: A)
    ensures
        times(head + tail, item) == times(head, item) + times(tail, item),
    decreases tail.len(),
{
    if tail.len() == 0 {
        assert(head + tail =~= head);
    } else {
        assert((head + tail).drop_last() =~= head + tail.drop_last());
        lemma_times_concat(head, tail.drop_last(), item);
    }
}

proof fn lemma_times_exam_if(due: DueExams, of: ExamKind, kind: ExamKind)
    ensures
        times(exam_if(due, of), kind) == if due.has(of) && of == kind {
            1nat
        } else {
            0
        },
{
    if due.has(of) {
        assert(exam_if(due, of).drop_last() =~= Seq::<ExamKind>::empty());
        assert(times(exam_if(due, of).drop_last(), kind) == 0);
    }
}

/// How often the supplements in use ask for an exam: once for each
/// supplement of the exam's family, in any case once for vitamin D and for
/// thyroid.
pub open spec fn times_asked_for(kind: ExamKind, categories: Seq<Option<TriggerCategory>>) -> nat {
    match kind {
        ExamKind::ZincCopper => times(categories, Some(TriggerCategory::Zinc)),
        ExamKind::Autoimmune => times(categories, Some(TriggerCategory::Zinc)),
        ExamKind::MagnesiumCortisol => times(categories, Some(TriggerCategory::Magnesium)),
        ExamKind::Iron => times(categories, Some(TriggerCategory::VitaminC)),
        ExamKind::VitaminD => 1,
        ExamKind::Thyroid => 1,
    }
}

proof fn lemma_times_in_supplement_exams(
    categories: Seq<Option<TriggerCategory>>,
    due: DueExams,
    kind: ExamKind,
)
    ensures
        times(supplement_exams(categories, due), kind) == if due.has(kind) && kind
            != ExamKind::VitaminD && kind != ExamKind::Thyroid {
            times_asked_for(kind, categories)
        } else {
            0
        },
    decreases categories.len(),
{
    if categories.len() > 0 {
        let front = categories.drop_last();
        let last = categories.last();
        lemma_times_in_supplement_exams(front, due, kind);
        lemma_times_concat(supplement_exams(front, due), category_exams(last, due), kind);
        lemma_times_exam_if(due, ExamKind::ZincCopper, kind);
        lemma_times_exam_if(due, ExamKind::Autoimmune, kind);
        lemma_times_exam_if(due, ExamKind::MagnesiumCortisol, kind);
        lemma_times_exam_if(due, ExamKind::Iron, kind);
        lemma_times_concat(
            exam_if(due, ExamKind::ZincCopper),
            exam_if(due, ExamKind::Autoimmune),
            kind,
        );
    }
}

/// Nothing is merged: a due exam stands in the plan once for every
/// supplement that asks for it, and not at all when it is not due.
pub proof fn law_nothing_is_merged(
    categories: Seq<Option<TriggerCategory>>,
    due: DueExams,
    kind: ExamKind,
)
    ensures
        times(planned_exams(categories, due), kind) == if due.has(kind) {
            times_asked_for(kind, categories)
        } else {
            0
        },
{
    let from_supplements = supplement_exams(categories, due);
    let vitamin_d = exam_if(due, ExamKind::VitaminD);
    let thyroid = exam_if(due, ExamKind::Thyroid);
    lemma_times_in_supplement_exams(categories, due, kind);
    lemma_times_exam_if(due, ExamKind::VitaminD, kind);
    lemma_times_exam_if(due, ExamKind::Thyroid, kind);
    lemma_times_concat(from_supplements, vitamin_d, kind);
    lemma_times_concat(from_supplements + vitamin_d, thyroid, kind);
}

} // verus!
