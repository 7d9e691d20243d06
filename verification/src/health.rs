//! Entries of the health log.

use vstd::prelude::*;

verus! {

/// One intake of a supplement. `id` is given by the store on insert.
#[derive(Debug, Clone)]
pub struct SupplementEntry {
    pub id: Option<i64>,
    pub name: String,
    pub dosage: String,
    /// When it was taken, as an ISO 8601 timestamp.
    pub taken_at: String,
    /// `morning`, `night` or `as_needed`.
    pub category: String,
    pub notes: Option<String>,
}

/// What a `SupplementEntry` says.
pub struct SupplementEntryView {
    pub id: Option<int>,
    pub name: Seq<char>,
    pub dosage: Seq<char>,
    pub taken_at: Seq<char>,
    pub category: Seq<char>,
    pub notes: Option<Seq<char>>,
}

impl View for SupplementEntry {
    type V = SupplementEntryView;

    open spec fn view(&self) -> SupplementEntryView {
        SupplementEntryView {
            id: match self.id {
                Some(id) => Some(id as int),
                None => None,
            },
            name: self.name@,
            dosage: self.dosage@,
            taken_at: self.taken_at@,
            category: self.category@,
            notes: match self.notes {
                Some(notes) => Some(notes@),
                None => None,
            },
        }
    }
}

} // verus!
