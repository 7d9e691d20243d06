//! Today's adherence: how much of the protocol has been taken.

use crate::catalog::{in_window, protocol_views, SupplementProtocol, SupplementProtocolView};
use crate::text::{first_true, first_true_from, text_views};
use vstd::prelude::*;

verus! {

/// Whether the supplement at index `i` has been taken today. An index
/// without an answer counts as not taken.
pub open spec fn taken_at(taken: Seq<bool>, i: int) -> bool {
    0 <= i < taken.len() && taken[i]
}

/// How many of the first `n` supplements have been taken today.
pub open spec fn taken_count(n: int, taken: Seq<bool>) -> int
    decreases n,
{
    if n <= 0 {
        0
    } else {
        taken_count(n - 1, taken) + if taken_at(taken, n - 1) {
            1int
        } else {
            0
        }
    }
}

/// No more are taken than there are.
pub proof fn lemma_taken_count_bounds(n: int, taken: Seq<bool>)
    requires
        0 <= n,
    ensures
        0 <= taken_count(n, taken) <= n,
    decreases n,
{
    if n > 0 {
        lemma_taken_count_bounds(n - 1, taken);
    }
}

/// All of the first `n` are taken exactly when the count is `n`.
pub proof fn lemma_all_taken_iff_full(n: int, taken: Seq<bool>)
    requires
        0 <= n,
    ensures
        taken_count(n, taken) == n <==> forall|i: int| 0 <= i < n ==> taken_at(taken, i),
    decreases n,
{
    if n > 0 {
        lemma_all_taken_iff_full(n - 1, taken);
        lemma_taken_count_bounds(n - 1, taken);
        if taken_count(n, taken) == n {
            assert(taken_at(taken, n - 1));
            assert forall|i: int| 0 <= i < n implies taken_at(taken, i) by {
                if i < n - 1 {
                } else {
                }
            }
        }
        if forall|i: int| 0 <= i < n ==> taken_at(taken, i) {
            assert(taken_at(taken, n - 1));
            assert(forall|i: int| 0 <= i < n - 1 ==> taken_at(taken, i));
        }
    }
}

/// Counts how many of the first `n` supplements have been taken today.
pub fn count_taken(n: usize, taken: &[bool]) -> (count: usize)
    ensures
        count == taken_count(n as int, taken@),
        count <= n,
{
    let mut count: usize = 0;
    let mut i: usize = 0;
    while i < n
        invariant
            i <= n,
            count <= i,
            count == taken_count(i as int, taken@),
        decreases n - i,
    {
        if i < taken.len() && taken[i] {
            count = count + 1;
        }
        i = i + 1;
    }
    count
}

/// Adherence in percent: `100 * taken / total` in whole numbers, rounded
/// down; zero for an empty protocol.
pub open spec fn adherence_percent_of(taken: int, total: int) -> int {
    if total <= 0 {
        0
    } else {
        100 * taken / total
    }
}

/// With no more taken than there are, adherence lies between 0 and 100, and
/// is 100 exactly when all are taken.
pub proof fn lemma_adherence_percent_bounds(taken: int, total: int)
    requires
        0 <= taken <= total,
    ensures
        0 <= adherence_percent_of(taken, total) <= 100,
        total > 0 ==> (adherence_percent_of(taken, total) == 100 <==> taken == total),
{
    if total > 0 {
        assert(0 <= 100 * taken / total <= 100) by (nonlinear_arith)
            requires
                0 <= taken <= total,
                total > 0,
        ;
        assert((100 * taken / total == 100) <==> taken == total) by (nonlinear_arith)
            requires
                0 <= taken <= total,
                total > 0,
        ;
    }
}

/// Computes adherence in percent. Where the quotient does not fit, the
/// largest number that does is returned.
pub fn adherence_percent(taken: u64, total: u64) -> (percent: u64)
    ensures
        percent == if adherence_percent_of(taken as int, total as int) > u64::MAX {
            u64::MAX as int
        } else {
            adherence_percent_of(taken as int, total as int)
        },
        taken <= total ==> percent == adherence_percent_of(taken as int, total as int),
        taken <= total ==> percent <= 100,
{
    if total == 0 {
        return 0;
    }
    proof {
        if taken <= total {
            lemma_adherence_percent_bounds(taken as int, total as int);
        }
    }
    let scaled: u128 = 100u128 * taken as u128;
    let quotient: u128 = scaled / total as u128;
    if quotient > u64::MAX as u128 {
        u64::MAX
    } else {
        quotient as u64
    }
}

/// Whether the supplement at index `i` is pending at `hour`: the hour lies
/// in its window and it has not been taken today.
pub open spec fn pending_at(
    catalog: Seq<SupplementProtocolView>,
    taken: Seq<bool>,
    hour: int,
    i: int,
) -> bool {
    0 <= i < catalog.len() && in_window(catalog[i], hour) && !taken_at(taken, i)
}

/// For each supplement of the protocol, whether it is pending at `hour`.
pub open spec fn pending_flags(
    catalog: Seq<SupplementProtocolView>,
    taken: Seq<bool>,
    hour: int,
) -> Seq<bool> {
    Seq::new(catalog.len(), |i: int| pending_at(catalog, taken, hour, i))
}

/// Index of the first supplement of the protocol that is pending at `hour`.
pub open spec fn first_pending(
    catalog: Seq<SupplementProtocolView>,
    taken: Seq<bool>,
    hour: int,
) -> Option<int> {
    first_true(pending_flags(catalog, taken, hour))
}

/// Finds the first supplement of the protocol that is pending at `hour`.
pub fn find_first_pending(
    catalog: &[SupplementProtocol],
    taken: &[bool],
    hour: u32,
) -> (found: Option<usize>)
    ensures
        first_pending(protocol_views(catalog@), taken@, hour as int) == match found {
            Some(i) => Some(i as int),
            None => None,
        },
{
    let ghost flags = pending_flags(protocol_views(catalog@), taken@, hour as int);
    let mut i: usize = 0;
    while i < catalog.len()
        invariant
            i <= catalog.len(),
            flags == pending_flags(protocol_views(catalog@), taken@, hour as int),
            first_true(flags) == first_true_from(flags, i as int),
        decreases catalog.len() - i,
    {
        let was_taken = i < taken.len() && taken[i];
        if catalog[i].covers(hour) && !was_taken {
            return Some(i);
        }
        i = i + 1;
    }
    None
}

/// The names of the supplements taken today (`wanted` true) or still open
/// (`wanted` false), among the first `n` of the protocol, in order.
pub open spec fn names_where(
    catalog: Seq<SupplementProtocolView>,
    taken: Seq<bool>,
    wanted: bool,
    n: int,
) -> Seq<Seq<char>>
    decreases n,
{
    if n <= 0 || n > catalog.len() {
        Seq::empty()
    } else if taken_at(taken, n - 1) == wanted {
        names_where(catalog, taken, wanted, n - 1).push(catalog[n - 1].name)
    } else {
        names_where(catalog, taken, wanted, n - 1)
    }
}

/// The names of the supplements taken today, in the order of the protocol.
pub open spec fn taken_names_of(
    catalog: Seq<SupplementProtocolView>,
    taken: Seq<bool>,
) -> Seq<Seq<char>> {
    names_where(catalog, taken, true, catalog.len() as int)
}

/// The names of the supplements not taken today, in the order of the
/// protocol.
pub open spec fn pending_names_of(
    catalog: Seq<SupplementProtocolView>,
    taken: Seq<bool>,
) -> Seq<Seq<char>> {
    names_where(catalog, taken, false, catalog.len() as int)
}

/// All names of the protocol, in order.
pub open spec fn all_names_of(catalog: Seq<SupplementProtocolView>) -> Seq<Seq<char>> {
    catalog.map_values(|protocol: SupplementProtocolView| protocol.name)
}

/// Collects the names of the supplements taken today (`wanted` true) or
/// still open (`wanted` false).
pub fn collect_names(
    catalog: &[SupplementProtocol],
    taken: &[bool],
    wanted: bool,
) -> (names: Vec<String>)
    ensures
        text_views(names@) == names_where(
            protocol_views(catalog@),
            taken@,
            wanted,
            catalog@.len() as int,
        ),
{
    let mut names: Vec<String> = Vec::new();
    let mut i: usize = 0;
    while i < catalog.len()
        invariant
            i <= catalog.len(),
            text_views(names@) == names_where(protocol_views(catalog@), taken@, wanted, i as int),
        decreases catalog.len() - i,
    {
        let ghost before = text_views(names@);
        let was_taken = i < taken.len() && taken[i];
        if was_taken == wanted {
            names.push(catalog[i].name.clone());
            proof {
                assert(text_views(names@) =~= before.push(catalog@[i as int].name@));
            }
        }
        i = i + 1;
    }
    names
}

/// Collects all names of the protocol.
pub fn collect_all_names(catalog: &[SupplementProtocol]) -> (names: Vec<String>)
    ensures
        text_views(names@) == all_names_of(protocol_views(catalog@)),
{
    let mut names: Vec<String> = Vec::new();
    let mut i: usize = 0;
    while i < catalog.len()
        invariant
            i <= catalog.len(),
            names@.len() == i,
            forall|j: int| 0 <= j < i ==> (#[trigger] names@[j])@ == catalog@[j].name@,
        decreases catalog.len() - i,
    {
        names.push(catalog[i].name.clone());
        i = i + 1;
    }
    proof {
        assert(text_views(names@) =~= all_names_of(protocol_views(catalog@)));
    }
    names
}

} // verus!
