//! Direct messages: who takes part in a new one, and who may see one.
use vstd::prelude::*;
use crate::errors::{bad_request, forbidden, ApiError, ApiErrorView};
use crate::ids::{uuid_string, uuid_text};

verus! {

/// Every entry of `s` is smaller than the next: sorted, without repeats.
pub open spec fn strictly_sorted(s: Seq<u128>) -> bool {
    forall|i: int, j: int| 0 <= i < j < s.len() ==> s[i] < s[j]
}

/// Adds `x` to a sorted list without repeats, keeping it so.
fn insert_sorted(v: &mut Vec<u128>, x: u128)
    requires
        strictly_sorted(old(v)@),
    ensures
        strictly_sorted(final(v)@),
        forall|y: u128| final(v)@.contains(y) <==> (old(v)@.contains(y) || y == x),
{
    let mut k: usize = 0;
    while k < v.len() && v[k] < x
        invariant
            k <= v@.len(),
            strictly_sorted(v@),
            forall|i: int| 0 <= i < k ==> v@[i] < x,
        decreases v.len() - k,
    {
        k = k + 1;
    }
    if k < v.len() && v[k] == x {
        assert(v@.contains(x));
        return ;
    }
    let ghost before = v@;
    assert(forall|i: int| k <= i < before.len() ==> before[i] > x) by {
        assert forall|i: int| k <= i < before.len() implies before[i] > x by {
            assert(before[k as int] > x);
            if i > k {
                assert(before[k as int] < before[i]);
            }
        }
    }
    v.insert(k, x);
    proof {
        before.insert_ensures(k as int, x);
        let after = v@;
        assert forall|i: int, j: int| 0 <= i < j < after.len() implies after[i] < after[j] by {
            if j < k {
                assert(after[i] == before[i] && after[j] == before[j]);
            } else if j == k {
                assert(after[i] == before[i]);
            } else if i < k {
                assert(after[i] == before[i] && after[j] == before[j - 1]);
            } else if i == k {
                assert(after[j] == before[j - 1]);
            } else {
                assert(after[i] == before[i - 1] && after[j] == before[j - 1]);
            }
        }
        assert forall|y: u128| after.contains(y) <==> (before.contains(y) || y == x) by {
            if after.contains(y) {
                let i = choose|i: int| 0 <= i < after.len() && after[i] == y;
                if i < k {
                    assert(before[i] == y);
                } else if i > k {
                    assert(before[i - 1] == y);
                }
            }
            if before.contains(y) {
                let i = choose|i: int| 0 <= i < before.len() && before[i] == y;
                if i < k {
                    assert(after[i] == y);
                } else {
                    assert(after[i + 1] == y);
                }
            }
            if y == x {
                assert(after[k as int] == y);
            }
        }
    }
}

/// The participants of a new DM: those asked for and its creator, sorted,
/// each once. At least one participant must be asked for.
pub fn dm_participants(requested: &Vec<u128>, creator: u128) -> (r: Result<Vec<u128>, ApiError>)
    ensures
        requested@.len() == 0 ==> (r matches Err(e) && e@ == ApiErrorView::BadRequest(
            "At least one participant is required"@,
        )),
        requested@.len() > 0 ==> (r matches Ok(v) && strictly_sorted(v@) && forall|y: u128|
            v@.contains(y) <==> (requested@.contains(y) || y == creator)),
{
    if requested.len() == 0 {
        return Err(bad_request("At least one participant is required"));
    }
    let mut v: Vec<u128> = Vec::new();
    v.push(creator);
    proof {
        assert(requested@.take(0) =~= Seq::<u128>::empty());
        assert forall|y: u128| v@.contains(y) <==> y == creator by {
            if y == creator {
                assert(v@[0] == y);
            }
        }
    }
    let mut i: usize = 0;
    while i < requested.len()
        invariant
            i <= requested@.len(),
            strictly_sorted(v@),
            forall|y: u128|
                v@.contains(y) <==> (requested@.take(i as int).contains(y) || y == creator),
        decreases requested.len() - i,
    {
        let x = requested[i];
        insert_sorted(&mut v, x);
        proof {
            let t = requested@.take(i as int);
            let t1 = requested@.take(i + 1);
            assert(t1 == t.push(x));
            assert forall|y: u128| t1.contains(y) <==> (t.contains(y) || y == x) by {
                if t1.contains(y) {
                    let j = choose|j: int| 0 <= j < t1.len() && t1[j] == y;
                    if j < i {
                        assert(t[j] == y);
                    }
                }
                if t.contains(y) {
                    let j = choose|j: int| 0 <= j < t.len() && t[j] == y;
                    assert(t1[j] == y);
                }
                if y == x {
                    assert(t1[i as int] == y);
                }
            }
        }
        i = i + 1;
    }
    proof {
        assert(requested@.take(requested@.len() as int) == requested@);
    }
    Ok(v)
}

/// Two sorted lists without repeats that hold the same identifiers are equal.
proof fn lemma_sorted_sets_equal(a: Seq<u128>, b: Seq<u128>)
    requires
        strictly_sorted(a),
        strictly_sorted(b),
        forall|y: u128| a.contains(y) <==> b.contains(y),
    ensures
        a == b,
    decreases a.len(),
{
    if a.len() == 0 {
        if b.len() > 0 {
            assert(b.contains(b[0]));
        }
        assert(b.len() == 0);
    } else {
        assert(a.contains(a[0]));
        assert(b.len() > 0);
        assert(b.contains(b[0]));
        let i = choose|i: int| 0 <= i < b.len() && b[i] == a[0];
        let j = choose|j: int| 0 <= j < a.len() && a[j] == b[0];
        if i > 0 {
            assert(b[0] < b[i]);
            if j > 0 {
                assert(a[0] < a[j]);
            }
        }
        assert(a[0] == b[0]);
        let ta = a.drop_first();
        let tb = b.drop_first();
        assert forall|y: u128| ta.contains(y) <==> tb.contains(y) by {
            if ta.contains(y) {
                let k = choose|k: int| 0 <= k < ta.len() && ta[k] == y;
                assert(a[k + 1] == y && a.contains(y));
                let m = choose|m: int| 0 <= m < b.len() && b[m] == y;
                if m == 0 {
                    assert(a[0] < a[k + 1]);
                }
                assert(tb[m - 1] == y);
            }
            if tb.contains(y) {
                let k = choose|k: int| 0 <= k < tb.len() && tb[k] == y;
                assert(b[k + 1] == y && b.contains(y));
                let m = choose|m: int| 0 <= m < a.len() && a[m] == y;
                if m == 0 {
                    assert(b[0] < b[k + 1]);
                }
                assert(ta[m - 1] == y);
            }
        }
        lemma_sorted_sets_equal(ta, tb);
        assert(a =~= seq![a[0]] + ta);
        assert(b =~= seq![b[0]] + tb);
    }
}

/// The participant list of a new DM depends only on who takes part: two
/// requests naming the same people (in any order, with repeats, with or without
/// the creator) give the same list, which is how an existing DM among them is found.
pub proof fn law_participants_are_canonical(
    requested: Seq<u128>,
    other_request: Seq<u128>,
    creator: u128,
    list: Seq<u128>,
    other_list: Seq<u128>,
)
    requires
        strictly_sorted(list),
        strictly_sorted(other_list),
        forall|y: u128| list.contains(y) <==> (requested.contains(y) || y == creator),
        forall|y: u128| other_list.contains(y) <==> (other_request.contains(y) || y == creator),
        forall|y: u128|
            (requested.contains(y) || y == creator) <==> (other_request.contains(y) || y
                == creator),
    ensures
        list == other_list,
{
    lemma_sorted_sets_equal(list, other_list);
}

/// The first refusal met when checking, in order, each participant of a new DM
/// (given with the organization of the user found for it, if one was): a user
/// not found, or one from another organization.
pub open spec fn dm_users_error(found: Seq<(u128, Option<u128>)>, org_id: u128) -> Option<
    ApiErrorView,
>
    decreases found.len(),
{
    if found.len() == 0 {
        None
    } else {
        match found[0].1 {
            None => Some(
                ApiErrorView::NotFound("User "@ + uuid_text(found[0].0) + " not found"@),
            ),
            Some(o) => if o != org_id {
                Some(
                    ApiErrorView::Authorization(
                        "Cannot create DM with users from different organizations"@,
                    ),
                )
            } else {
                dm_users_error(found.drop_first(), org_id)
            },
        }
    }
}

/// Checks that every participant of a new DM exists and belongs to `org_id`.
pub fn check_dm_users(found: &Vec<(u128, Option<u128>)>, org_id: u128) -> (r: Result<(), ApiError>)
    ensures
        match dm_users_error(found@, org_id) {
            Some(v) => r matches Err(e) && e@ == v,
            None => r is Ok,
        },
{
    let mut i: usize = 0;
    assert(found@.skip(0) == found@);
    while i < found.len()
        invariant
            i <= found@.len(),
            dm_users_error(found@, org_id) == dm_users_error(found@.skip(i as int), org_id),
        decreases found.len() - i,
    {
        let (id, org) = found[i];
        proof {
            assert(found@.skip(i as int)[0] == found@[i as int]);
            assert(found@.skip(i as int).drop_first() == found@.skip(i + 1));
        }
        match org {
            None => {
                let mut msg = String::from_str("User ");
                let u = uuid_string(id);
                msg.append(u.as_str());
                msg.append(" not found");
                return Err(ApiError::NotFound(msg));
            },
            Some(o) => {
                if o != org_id {
                    return Err(forbidden("Cannot create DM with users from different organizations"));
                }
            },
        }
        i = i + 1;
    }
    Ok(())
}

/// Refuses a DM to a user who is not one of its participants.
pub fn require_dm_participant(is_participant: bool) -> (r: Result<(), ApiError>)
    ensures
        is_participant ==> r is Ok,
        !is_participant ==> (r matches Err(e) && e@ == ApiErrorView::Authorization(
            "You are not a participant in this DM"@,
        )),
{
    if is_participant {
        Ok(())
    } else {
        Err(forbidden("You are not a participant in this DM"))
    }
}

} // verus!
