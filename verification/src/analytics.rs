//! How many applications stand at each status.
//!
//! The tally lists each status that occurs at least once, with its count, in
//! the fixed order Applied, Interview, Offer, Rejected, Accepted; a status
//! that occurs nowhere is left out.

use vstd::prelude::*;
use crate::status::ApplicationStatus;

verus! {

/// How often a status occurs in a sequence of statuses.
pub open spec fn count_status(statuses: Seq<ApplicationStatus>, status: ApplicationStatus) -> nat
    decreases statuses.len(),
{
    if statuses.len() == 0 {
        0
    } else {
        count_status(statuses.drop_last(), status) + if statuses.last() == status {
            1nat
        } else {
            0nat
        }
    }
}

/// The order in which the tally lists statuses.
pub open spec fn status_order() -> Seq<ApplicationStatus> {
    seq![
        ApplicationStatus::Applied,
        ApplicationStatus::Interview,
        ApplicationStatus::Offer,
        ApplicationStatus::Rejected,
        ApplicationStatus::Accepted,
    ]
}

/// The statuses of `order` that occur in `statuses`, each with its count.
pub open spec fn nonzero_tally(order: Seq<ApplicationStatus>, statuses: Seq<ApplicationStatus>) -> Seq<(ApplicationStatus, nat)>
    decreases order.len(),
{
    if order.len() == 0 {
        seq![]
    } else {
        let c = count_status(statuses, order[0]);
        let rest = nonzero_tally(order.drop_first(), statuses);
        if c > 0 {
            seq![(order[0], c)] + rest
        } else {
            rest
        }
    }
}

/// The tally of a sequence of statuses.
pub open spec fn tally(statuses: Seq<ApplicationStatus>) -> Seq<(ApplicationStatus, nat)> {
    nonzero_tally(status_order(), statuses)
}

/// The sum of the counts of a tally.
pub open spec fn tally_total(entries: Seq<(ApplicationStatus, nat)>) -> nat
    decreases entries.len(),
{
    if entries.len() == 0 {
        0
    } else {
        entries[0].1 + tally_total(entries.drop_first())
    }
}

/// The counts of all five statuses add up to the number of statuses.
proof fn lemma_five_counts(statuses: Seq<ApplicationStatus>)
    ensures
        count_status(statuses, ApplicationStatus::Applied) + count_status(statuses, ApplicationStatus::Interview)
            + count_status(statuses, ApplicationStatus::Offer) + count_status(statuses, ApplicationStatus::Rejected)
            + count_status(statuses, ApplicationStatus::Accepted) == statuses.len(),
    decreases statuses.len(),
{
    if statuses.len() > 0 {
        lemma_five_counts(statuses.drop_last());
    }
}

/// The tally of a sequence of statuses, spelled out over the five counts.
proof fn lemma_tally_unfolds(statuses: Seq<ApplicationStatus>)
    ensures
        tally_total(tally(statuses)) == count_status(statuses, ApplicationStatus::Applied) + count_status(
            statuses,
            ApplicationStatus::Interview,
        ) + count_status(statuses, ApplicationStatus::Offer) + count_status(statuses, ApplicationStatus::Rejected)
            + count_status(statuses, ApplicationStatus::Accepted),
{
    let order = status_order();
    lemma_total_of_nonzero(order, statuses);
    assert(order.drop_first().drop_first().drop_first().drop_first().drop_first() =~= Seq::<ApplicationStatus>::empty());
    reveal_with_fuel(order_total, 6);
    assert(order.drop_first()[0] == ApplicationStatus::Interview);
    assert(order.drop_first().drop_first()[0] == ApplicationStatus::Offer);
    assert(order.drop_first().drop_first().drop_first()[0] == ApplicationStatus::Rejected);
    assert(order.drop_first().drop_first().drop_first().drop_first()[0] == ApplicationStatus::Accepted);
}

/// The sum of the counts of the statuses in `order`.
spec fn order_total(order: Seq<ApplicationStatus>, statuses: Seq<ApplicationStatus>) -> nat
    decreases order.len(),
{
    if order.len() == 0 {
        0
    } else {
        count_status(statuses, order[0]) + order_total(order.drop_first(), statuses)
    }
}

/// Leaving out the statuses with count zero does not change the total.
proof fn lemma_total_of_nonzero(order: Seq<ApplicationStatus>, statuses: Seq<ApplicationStatus>)
    ensures
        tally_total(nonzero_tally(order, statuses)) == order_total(order, statuses),
    decreases order.len(),
{
    if order.len() > 0 {
        lemma_total_of_nonzero(order.drop_first(), statuses);
        let c = count_status(statuses, order[0]);
        let rest = nonzero_tally(order.drop_first(), statuses);
        if c > 0 {
            assert((seq![(order[0], c)] + rest).drop_first() =~= rest);
        }
    }
}

/// Every application is counted once: the counts of the tally add up to the
/// number of applications.
pub proof fn lemma_tally_counts_every_application(statuses: Seq<ApplicationStatus>)
    ensures
        tally_total(tally(statuses)) == statuses.len(),
{
    lemma_tally_unfolds(statuses);
    lemma_five_counts(statuses);
}

/// Whether an entry is the given status.
pub open spec fn is_status(status: ApplicationStatus) -> spec_fn(ApplicationStatus) -> bool {
    |x: ApplicationStatus| x == status
}

/// How often a status occurs is the number of entries equal to it.
pub proof fn lemma_count_is_occurrences(statuses: Seq<ApplicationStatus>, status: ApplicationStatus)
    ensures
        count_status(statuses, status) == statuses.filter(is_status(status)).len(),
    decreases statuses.len(),
{
    reveal_with_fuel(Seq::<_>::filter, 1);
    if statuses.len() > 0 {
        lemma_count_is_occurrences(statuses.drop_last(), status);
    }
}

/// A status that occurs is counted at least once.
proof fn lemma_count_positive(statuses: Seq<ApplicationStatus>, k: int)
    requires
        0 <= k < statuses.len(),
    ensures
        count_status(statuses, statuses[k]) > 0,
    decreases statuses.len(),
{
    if k < statuses.len() - 1 {
        lemma_count_positive(statuses.drop_last(), k);
    }
}

/// The entries of `nonzero_tally` over an order without repeats: each lists a
/// status of the order with its count, which is positive; no status is listed
/// twice; and each status of the order that occurs is listed.
proof fn lemma_nonzero_tally_entries(order: Seq<ApplicationStatus>, statuses: Seq<ApplicationStatus>)
    requires
        forall|i: int, j: int| 0 <= i < j < order.len() ==> order[i] != order[j],
    ensures
        forall|i: int|
            0 <= i < nonzero_tally(order, statuses).len() ==> {
                let e = #[trigger] nonzero_tally(order, statuses)[i];
                &&& e.1 == count_status(statuses, e.0)
                &&& e.1 > 0
                &&& order.contains(e.0)
            },
        forall|i: int, j: int|
            0 <= i < j < nonzero_tally(order, statuses).len() ==> (#[trigger] nonzero_tally(order, statuses)[i]).0
                != (#[trigger] nonzero_tally(order, statuses)[j]).0,
        forall|status: ApplicationStatus|
            order.contains(status) && count_status(statuses, status) > 0 ==> exists|i: int|
                0 <= i < nonzero_tally(order, statuses).len() && (#[trigger] nonzero_tally(order, statuses)[i]).0
                    == status,
    decreases order.len(),
{
    if order.len() > 0 {
        let rest_order = order.drop_first();
        assert forall|i: int, j: int| 0 <= i < j < rest_order.len() implies rest_order[i] != rest_order[j] by {
            assert(rest_order[i] == order[i + 1] && rest_order[j] == order[j + 1]);
        }
        lemma_nonzero_tally_entries(rest_order, statuses);
        let rest = nonzero_tally(rest_order, statuses);
        let c = count_status(statuses, order[0]);
        let t = nonzero_tally(order, statuses);
        assert forall|i: int| 0 <= i < rest.len() implies rest[i].0 != order[0] by {
            let k = choose|k: int| 0 <= k < rest_order.len() && rest_order[k] == rest[i].0;
            assert(order[k + 1] == rest[i].0);
        }
        assert forall|x: ApplicationStatus| rest_order.contains(x) implies order.contains(x) by {
            let k = choose|k: int| 0 <= k < rest_order.len() && rest_order[k] == x;
            assert(order[k + 1] == x);
        }
        if c > 0 {
            assert(t == seq![(order[0], c)] + rest);
            assert forall|i: int| 1 <= i < t.len() implies t[i] == rest[i - 1] by {}
            assert(t[0] == (order[0], c));
            assert(order.contains(order[0])) by { assert(order[0] == order[0]); }
            assert forall|status: ApplicationStatus|
                order.contains(status) && count_status(statuses, status) > 0 implies exists|i: int|
                    0 <= i < t.len() && (#[trigger] t[i]).0 == status by {
                if status == order[0] {
                    assert(t[0].0 == status);
                } else {
                    let k = choose|k: int| 0 <= k < order.len() && order[k] == status;
                    assert(k > 0);
                    assert(rest_order[k - 1] == status);
                    assert(rest_order.contains(status));
                    let i = choose|i: int| 0 <= i < rest.len() && (#[trigger] rest[i]).0 == status;
                    assert(t[i + 1].0 == status);
                }
            }
        } else {
            assert(t == rest);
            assert forall|status: ApplicationStatus|
                order.contains(status) && count_status(statuses, status) > 0 implies exists|i: int|
                    0 <= i < t.len() && (#[trigger] t[i]).0 == status by {
                let k = choose|k: int| 0 <= k < order.len() && order[k] == status;
                assert(k > 0);
                assert(rest_order[k - 1] == status);
                assert(rest_order.contains(status));
            }
        }
    }
}

/// The tally counts each status by its own occurrences: every entry holds a
/// status with the number of statuses in the list equal to it (never zero),
/// no status has two entries, and every status that occurs has an entry.
pub proof fn lemma_tally_counts_each_status(statuses: Seq<ApplicationStatus>)
    ensures
        forall|i: int|
            0 <= i < tally(statuses).len() ==> {
                let e = #[trigger] tally(statuses)[i];
                &&& e.1 == statuses.filter(is_status(e.0)).len()
                &&& e.1 > 0
            },
        forall|i: int, j: int|
            0 <= i < j < tally(statuses).len() ==> (#[trigger] tally(statuses)[i]).0 != (#[trigger] tally(statuses)[j]).0,
        forall|status: ApplicationStatus|
            statuses.contains(status) ==> exists|i: int|
                0 <= i < tally(statuses).len() && (#[trigger] tally(statuses)[i]).0 == status,
{
    let order = status_order();
    assert forall|i: int, j: int| 0 <= i < j < order.len() implies order[i] != order[j] by {}
    lemma_nonzero_tally_entries(order, statuses);
    assert forall|i: int| 0 <= i < tally(statuses).len() implies ({
        let e = #[trigger] tally(statuses)[i];
        &&& e.1 == statuses.filter(is_status(e.0)).len()
        &&& e.1 > 0
    }) by {
        let e = nonzero_tally(order, statuses)[i];
        assert(e.1 == count_status(statuses, e.0) && e.1 > 0);
        lemma_count_is_occurrences(statuses, e.0);
    }
    assert forall|status: ApplicationStatus| statuses.contains(status) implies exists|i: int|
        0 <= i < tally(statuses).len() && (#[trigger] tally(statuses)[i]).0 == status by {
        let k = choose|k: int| 0 <= k < statuses.len() && statuses[k] == status;
        lemma_count_positive(statuses, k);
        assert(count_status(statuses, status) > 0);
        assert(order.contains(status)) by {
            match status {
                ApplicationStatus::Applied => assert(order[0] == status),
                ApplicationStatus::Interview => assert(order[1] == status),
                ApplicationStatus::Offer => assert(order[2] == status),
                ApplicationStatus::Rejected => assert(order[3] == status),
                ApplicationStatus::Accepted => assert(order[4] == status),
            }
        }
        let i = choose|i: int| 0 <= i < nonzero_tally(order, statuses).len() && (#[trigger] nonzero_tally(order, statuses)[i]).0 == status;
        assert(tally(statuses)[i].0 == status);
    }
}

/// The tally of a list of statuses: each status that occurs, with how often,
/// in the fixed status order.
pub fn count_by_status(statuses: &Vec<ApplicationStatus>) -> (entries: Vec<(ApplicationStatus, usize)>)
    ensures
        entries@.len() == tally(statuses@).len(),
        forall|i: int|
            0 <= i < entries@.len() ==> (#[trigger] entries@[i]).0 == tally(statuses@)[i].0 && entries@[i].1
                == tally(statuses@)[i].1,
        forall|i: int|
            0 <= i < entries@.len() ==> (#[trigger] entries@[i]).1 == statuses@.filter(is_status(entries@[i].0)).len()
                && entries@[i].1 > 0,
        forall|i: int, j: int| 0 <= i < j < entries@.len() ==> (#[trigger] entries@[i]).0 != (#[trigger] entries@[j]).0,
        forall|status: ApplicationStatus|
            statuses@.contains(status) ==> exists|i: int| 0 <= i < entries@.len() && (#[trigger] entries@[i]).0 == status,
{
    let ghost s = statuses@;
    let mut applied: usize = 0;
    let mut interview: usize = 0;
    let mut offer: usize = 0;
    let mut rejected: usize = 0;
    let mut accepted: usize = 0;
    let n = statuses.len();
    let mut i: usize = 0;
    while i < n
        invariant
            n == s.len(),
            s == statuses@,
            i <= n,
            applied == count_status(s.take(i as int), ApplicationStatus::Applied),
            interview == count_status(s.take(i as int), ApplicationStatus::Interview),
            offer == count_status(s.take(i as int), ApplicationStatus::Offer),
            rejected == count_status(s.take(i as int), ApplicationStatus::Rejected),
            accepted == count_status(s.take(i as int), ApplicationStatus::Accepted),
        decreases n - i,
    {
        proof {
            lemma_five_counts(s.take(i as int));
            assert(s.take(i + 1).drop_last() =~= s.take(i as int));
        }
        match statuses[i] {
            ApplicationStatus::Applied => applied = applied + 1,
            ApplicationStatus::Interview => interview = interview + 1,
            ApplicationStatus::Offer => offer = offer + 1,
            ApplicationStatus::Rejected => rejected = rejected + 1,
            ApplicationStatus::Accepted => accepted = accepted + 1,
        }
        i = i + 1;
    }
    assert(s.take(n as int) =~= s);
    let mut entries: Vec<(ApplicationStatus, usize)> = Vec::new();
    let ghost order = status_order();
    let ghost t1 = nonzero_tally(order.drop_first(), s);
    let ghost t2 = nonzero_tally(order.drop_first().drop_first(), s);
    let ghost t3 = nonzero_tally(order.drop_first().drop_first().drop_first(), s);
    let ghost t4 = nonzero_tally(order.drop_first().drop_first().drop_first().drop_first(), s);
    let ghost t5 = nonzero_tally(order.drop_first().drop_first().drop_first().drop_first().drop_first(), s);
    proof {
        assert(order.drop_first().drop_first().drop_first().drop_first().drop_first() =~= Seq::<ApplicationStatus>::empty());
        assert(order.drop_first()[0] == ApplicationStatus::Interview);
        assert(order.drop_first().drop_first()[0] == ApplicationStatus::Offer);
        assert(order.drop_first().drop_first().drop_first()[0] == ApplicationStatus::Rejected);
        assert(order.drop_first().drop_first().drop_first().drop_first()[0] == ApplicationStatus::Accepted);
        assert(t5 == Seq::<(ApplicationStatus, nat)>::empty());
    }
    if applied > 0 {
        entries.push((ApplicationStatus::Applied, applied));
    }
    if interview > 0 {
        entries.push((ApplicationStatus::Interview, interview));
    }
    if offer > 0 {
        entries.push((ApplicationStatus::Offer, offer));
    }
    if rejected > 0 {
        entries.push((ApplicationStatus::Rejected, rejected));
    }
    if accepted > 0 {
        entries.push((ApplicationStatus::Accepted, accepted));
    }
    assert(t4 == if accepted > 0 { seq![(ApplicationStatus::Accepted, accepted as nat)] + t5 } else { t5 });
    assert(t3 == if rejected > 0 { seq![(ApplicationStatus::Rejected, rejected as nat)] + t4 } else { t4 });
    assert(t2 == if offer > 0 { seq![(ApplicationStatus::Offer, offer as nat)] + t3 } else { t3 });
    assert(t1 == if interview > 0 { seq![(ApplicationStatus::Interview, interview as nat)] + t2 } else { t2 });
    assert(tally(s) == if applied > 0 { seq![(ApplicationStatus::Applied, applied as nat)] + t1 } else { t1 });
    assert(entries@.len() == tally(s).len());
    assert forall|k: int| 0 <= k < entries@.len() implies (#[trigger] entries@[k]).0 == tally(s)[k].0 && entries@[k].1 == tally(s)[k].1 by {
    }
    proof {
        lemma_tally_counts_each_status(s);
        assert forall|status: ApplicationStatus| s.contains(status) implies exists|i: int|
            0 <= i < entries@.len() && (#[trigger] entries@[i]).0 == status by {
            let i = choose|i: int| 0 <= i < tally(s).len() && (#[trigger] tally(s)[i]).0 == status;
            assert(entries@[i].0 == status);
        }
        assert forall|i: int, j: int| 0 <= i < j < entries@.len() implies (#[trigger] entries@[i]).0 != (#[trigger] entries@[j]).0 by {
            assert(tally(s)[i].0 != tally(s)[j].0);
        }
        assert forall|i: int| 0 <= i < entries@.len() implies (#[trigger] entries@[i]).1 == s.filter(is_status(entries@[i].0)).len()
            && entries@[i].1 > 0 by {
            let e = tally(s)[i];
            assert(e.1 == s.filter(is_status(e.0)).len() && e.1 > 0);
        }
    }
    entries
}

} // verus!
