//! What holds of every store of users, stated over the model of a collection
//! of users that the contracts of the operations speak of.

use vstd::prelude::*;
use crate::create_user::CreateUserView;
use crate::model::{
    chronological, created_record, email_held_by_other, emails_distinct, find_by_email,
    find_by_id, ids_distinct, lemma_find_by_email_none, lemma_find_by_id_at,
    lemma_find_by_id_none, lemma_find_by_id_some, lemma_without_id_keeps,
    lemma_without_id_members, updated_record, without_id,
};
use crate::user::UserView;

verus! {

/// An address is taken from the moment a user is created under it: creating
/// a second user under the same address is then a conflict. Once the first
/// user is deleted the address is free again.
pub proof fn law_email_unique(s: Seq<UserView>, c: CreateUserView, id: u128, now: i64)
    requires
        emails_distinct(s),
        find_by_email(s, c.email) is None,
    ensures
        emails_distinct(s.push(created_record(c, id, now))),
        find_by_email(s.push(created_record(c, id, now)), c.email) is Some,
        find_by_email(without_id(s.push(created_record(c, id, now)), id), c.email) is None,
{
    let u = created_record(c, id, now);
    let s1 = s.push(u);
    lemma_find_by_email_none(s, c.email);
    assert(s1[s.len() as int].email == c.email);
    lemma_find_by_email_none(s1, c.email);
    let w = without_id(s1, id);
    lemma_without_id_members(s1, id);
    assert forall|k: int| 0 <= k < w.len() implies (#[trigger] w[k]).email != c.email by {
        let i = choose|i: int| 0 <= i < s1.len() && s1[i] == w[k];
        if i < s.len() {
            assert(s1[i] == s[i]);
        }
    }
    lemma_find_by_email_none(w, c.email);
}

/// Updating a user leaves the moment of its creation as it was. A user has
/// no moment of update when it is created, and has one after every update.
pub proof fn law_created_at_immutable(
    s: Seq<UserView>,
    prev: UserView,
    user: UserView,
    now: i64,
    c: CreateUserView,
    id: u128,
)
    requires
        find_by_id(s, user.id) == Some(prev),
    ensures
        created_record(c, id, now).updated_at is None,
        updated_record(prev, user, now).created_at == prev.created_at,
        updated_record(prev, user, now).updated_at is Some,
        find_by_id(without_id(s, user.id).push(updated_record(prev, user, now)), user.id) == Some(
            updated_record(prev, user, now),
        ),
{
    let w = without_id(s, user.id);
    let u = updated_record(prev, user, now);
    lemma_without_id_members(s, user.id);
    assert(w.push(u)[w.len() as int] == u);
    assert forall|j: int| 0 <= j < w.len() implies (#[trigger] w.push(u)[j]).id != user.id by {
        assert(w.push(u)[j] == w[j]);
    }
    lemma_find_by_id_at(w.push(u), user.id, w.len() as int);
}

/// A user that was just created under an id not yet in use is what a lookup
/// of that id returns.
pub proof fn law_round_trip(s: Seq<UserView>, c: CreateUserView, id: u128, now: i64)
    requires
        find_by_id(s, id) is None,
    ensures
        find_by_id(s.push(created_record(c, id, now)), id) == Some(created_record(c, id, now)),
{
    let u = created_record(c, id, now);
    let s1 = s.push(u);
    lemma_find_by_id_none(s, id);
    assert forall|j: int| 0 <= j < s.len() implies (#[trigger] s1[j]).id != id by {
        assert(s1[j] == s[j]);
    }
    lemma_find_by_id_at(s1, id, s.len() as int);
}

/// Writing a user back under the address that its record already has is
/// never a conflict.
pub proof fn law_own_email_is_free(s: Seq<UserView>, prev: UserView, user: UserView)
    requires
        emails_distinct(s),
        find_by_id(s, user.id) == Some(prev),
        user.email == prev.email,
    ensures
        !email_held_by_other(s, user.email, user.id),
{
    let k = lemma_find_by_id_some(s, user.id);
    if email_held_by_other(s, user.email, user.id) {
        let i = choose|i: int|
            0 <= i < s.len() && #[trigger] s[i].email == user.email && s[i].id != user.id;
        if i < k {
            assert(s[i].email != s[k].email);
        } else {
            assert(s[k].email != s[i].email);
        }
    }
}

/// A lookup finds nothing exactly when no record matches: by id, and by
/// address.
pub proof fn law_not_found(s: Seq<UserView>, id: u128, email: Seq<char>)
    ensures
        find_by_id(s, id) is None <==> forall|i: int| 0 <= i < s.len() ==> (#[trigger] s[i]).id != id,
        find_by_email(s, email) is None <==> forall|i: int|
            0 <= i < s.len() ==> (#[trigger] s[i]).email != email,
{
    lemma_find_by_id_none(s, id);
    lemma_find_by_email_none(s, email);
}

/// After a deletion no lookup finds the id, every other record is still
/// found, and a second deletion changes nothing.
pub proof fn law_deleted_is_gone(s: Seq<UserView>, id: u128, other: u128)
    requires
        other != id,
    ensures
        find_by_id(without_id(s, id), id) is None,
        find_by_id(without_id(s, id), other) == find_by_id(s, other),
        without_id(without_id(s, id), id) == without_id(s, id),
{
    let w = without_id(s, id);
    lemma_without_id_members(s, id);
    lemma_find_by_id_none(w, id);
    lemma_without_id_kept_order(s, id, other);
    lemma_without_id_again(s, id);
}

/// Removing an id leaves the first record of every other id where it was in
/// the order of the rest.
proof fn lemma_without_id_kept_order(s: Seq<UserView>, id: u128, other: u128)
    requires
        other != id,
    ensures
        find_by_id(without_id(s, id), other) == find_by_id(s, other),
    decreases s.len(),
{
    reveal(Seq::filter);
    if s.len() > 0 {
        let t = s.drop_last();
        let x = s.last();
        let w = without_id(s, id);
        let wt = without_id(t, id);
        lemma_without_id_kept_order(t, id, other);
        lemma_find_by_id_push(t, x, other);
        assert(t.push(x) == s);
        if x.id != id {
            assert(w == wt.push(x));
            lemma_find_by_id_push(wt, x, other);
        }
    }
}

/// A record appended to a sequence is found only where none before it has
/// the id.
proof fn lemma_find_by_id_push(s: Seq<UserView>, x: UserView, id: u128)
    ensures
        find_by_id(s.push(x), id) == if find_by_id(s, id) is Some {
            find_by_id(s, id)
        } else if x.id == id {
            Some(x)
        } else {
            None
        },
{
    let s1 = s.push(x);
    if find_by_id(s, id) is Some {
        let k = lemma_find_by_id_some(s, id);
        assert(s1[k] == s[k]);
        assert forall|j: int| 0 <= j < k implies (#[trigger] s1[j]).id != id by {
            assert(s1[j] == s[j]);
        }
        lemma_find_by_id_at(s1, id, k);
    } else {
        lemma_find_by_id_none(s, id);
        assert forall|j: int| 0 <= j < s.len() implies (#[trigger] s1[j]).id != id by {
            assert(s1[j] == s[j]);
        }
        if x.id == id {
            lemma_find_by_id_at(s1, id, s.len() as int);
        } else {
            lemma_find_by_id_none(s1, id);
        }
    }
}

/// Removing an id twice is removing it once.
proof fn lemma_without_id_again(s: Seq<UserView>, id: u128)
    ensures
        without_id(without_id(s, id), id) == without_id(s, id),
    decreases s.len(),
{
    reveal(Seq::filter);
    if s.len() > 0 {
        let t = s.drop_last();
        let x = s.last();
        let wt = without_id(t, id);
        lemma_without_id_again(t, id);
        if x.id != id {
            assert(wt.push(x).drop_last() == wt);
        }
    }
}

/// Ids stay distinct: under a creation with an id not yet in use, under
/// every update and under every deletion.
pub proof fn law_ids_stay_distinct(
    s: Seq<UserView>,
    c: CreateUserView,
    id: u128,
    prev: UserView,
    user: UserView,
    now: i64,
)
    requires
        ids_distinct(s),
    ensures
        find_by_id(s, id) is None ==> ids_distinct(s.push(created_record(c, id, now))),
        ids_distinct(without_id(s, user.id).push(updated_record(prev, user, now))),
        ids_distinct(without_id(s, id)),
{
    lemma_without_id_keeps(s, id);
    lemma_without_id_keeps(s, user.id);
    lemma_without_id_members(s, user.id);
    if find_by_id(s, id) is None {
        lemma_find_by_id_none(s, id);
        let s1 = s.push(created_record(c, id, now));
        assert forall|i: int, j: int| 0 <= i < j < s1.len() implies (#[trigger] s1[i]).id != (
        #[trigger] s1[j]).id by {
            assert(s1[i] == s[i]);
            if j < s.len() {
                assert(s1[j] == s[j]);
            }
        }
    }
    let w = without_id(s, user.id);
    let s2 = w.push(updated_record(prev, user, now));
    assert forall|i: int, j: int| 0 <= i < j < s2.len() implies (#[trigger] s2[i]).id != (
    #[trigger] s2[j]).id by {
        assert(s2[i] == w[i]);
        if j < w.len() {
            assert(s2[j] == w[j]);
        }
    }
}

/// No record is updated before it was created, as long as no update is
/// stamped with a moment before the creation of the record that it replaces.
pub proof fn law_chronological(
    s: Seq<UserView>,
    c: CreateUserView,
    id: u128,
    prev: UserView,
    user: UserView,
    now: i64,
)
    requires
        chronological(s),
    ensures
        chronological(s.push(created_record(c, id, now))),
        chronological(without_id(s, id)),
        (prev.created_at matches Some(t) ==> t <= now) ==> chronological(
            without_id(s, user.id).push(updated_record(prev, user, now)),
        ),
{
    lemma_without_id_keeps(s, id);
    lemma_without_id_keeps(s, user.id);
    let s1 = s.push(created_record(c, id, now));
    assert forall|i: int| 0 <= i < s1.len() implies match (
        (#[trigger] s1[i]).created_at,
        s1[i].updated_at,
    ) {
        (Some(a), Some(b)) => a <= b,
        _ => true,
    } by {
        if i < s.len() {
            assert(s1[i] == s[i]);
        }
    }
    if prev.created_at matches Some(t) ==> t <= now {
        let w = without_id(s, user.id);
        let s2 = w.push(updated_record(prev, user, now));
        assert forall|i: int| 0 <= i < s2.len() implies match (
            (#[trigger] s2[i]).created_at,
            s2[i].updated_at,
        ) {
            (Some(a), Some(b)) => a <= b,
            _ => true,
        } by {
            if i < w.len() {
                assert(s2[i] == w[i]);
            }
        }
    }
}

} // verus!
