//! The mathematical model of a collection of users: a sequence of records in
//! insertion order, and the functions over it in which every contract of the
//! repositories is stated.

use vstd::prelude::*;
use crate::create_user::CreateUserView;
use crate::user::{User, UserView};

verus! {

/// The records that a vector of users stands for, in order.
pub open spec fn views(users: Seq<User>) -> Seq<UserView> {
    Seq::new(users.len(), |i: int| users[i]@)
}

/// The first record with the given id, if there is one.
pub open spec fn find_by_id(s: Seq<UserView>, id: u128) -> Option<UserView>
    decreases s.len(),
{
    if s.len() == 0 {
        None
    } else if s[0].id == id {
        Some(s[0])
    } else {
        find_by_id(s.subrange(1, s.len() as int), id)
    }
}

/// The first record with the given e-mail address, if there is one.
pub open spec fn find_by_email(s: Seq<UserView>, email: Seq<char>) -> Option<UserView>
    decreases s.len(),
{
    if s.len() == 0 {
        None
    } else if s[0].email == email {
        Some(s[0])
    } else {
        find_by_email(s.subrange(1, s.len() as int), email)
    }
}

/// The records whose id is not the given one, in their order.
pub open spec fn without_id(s: Seq<UserView>, id: u128) -> Seq<UserView> {
    s.filter(|u: UserView| u.id != id)
}

/// Some record other than the one with the given id holds the address.
pub open spec fn email_held_by_other(s: Seq<UserView>, email: Seq<char>, id: u128) -> bool {
    exists|i: int| 0 <= i < s.len() && #[trigger] s[i].email == email && s[i].id != id
}

/// No two records share an e-mail address.
pub open spec fn emails_distinct(s: Seq<UserView>) -> bool {
    forall|i: int, j: int|
        0 <= i < j < s.len() ==> (#[trigger] s[i]).email != (#[trigger] s[j]).email
}

/// No two records share an id.
pub open spec fn ids_distinct(s: Seq<UserView>) -> bool {
    forall|i: int, j: int| 0 <= i < j < s.len() ==> (#[trigger] s[i]).id != (#[trigger] s[j]).id
}

/// Every record that was updated was updated no earlier than it was created.
pub open spec fn chronological(s: Seq<UserView>) -> bool {
    forall|i: int|
        0 <= i < s.len() ==> match ((#[trigger] s[i]).created_at, s[i].updated_at) {
            (Some(c), Some(u)) => c <= u,
            _ => true,
        }
}

/// The record that a payload becomes when it is created under `id` at `now`.
pub open spec fn created_record(c: CreateUserView, id: u128, now: i64) -> UserView {
    UserView {
        id,
        email: c.email,
        name: c.name,
        birth_date: c.birth_date,
        custom_data: crate::user::CustomData { random: c.custom_data.random },
        created_at: Some(now),
        updated_at: None,
    }
}

/// The record that replaces `prev` when `user` is written over it at `now`:
/// everything is taken from `user` but the moment of creation.
pub open spec fn updated_record(prev: UserView, user: UserView, now: i64) -> UserView {
    UserView { created_at: prev.created_at, updated_at: Some(now), ..user }
}

/// A record found at the front of the search decides it.
pub proof fn lemma_find_by_id_at(s: Seq<UserView>, id: u128, i: int)
    requires
        0 <= i < s.len(),
        s[i].id == id,
        forall|j: int| 0 <= j < i ==> (#[trigger] s[j]).id != id,
    ensures
        find_by_id(s, id) == Some(s[i]),
    decreases i,
{
    if i > 0 {
        let t = s.subrange(1, s.len() as int);
        assert(s[0].id != id);
        assert forall|j: int| 0 <= j < i - 1 implies (#[trigger] t[j]).id != id by {
            assert(t[j] == s[j + 1]);
        }
        lemma_find_by_id_at(t, id, i - 1);
    }
}

/// The search finds nothing exactly when no record has the id.
pub proof fn lemma_find_by_id_none(s: Seq<UserView>, id: u128)
    ensures
        find_by_id(s, id) is None <==> forall|j: int| 0 <= j < s.len() ==> (#[trigger] s[j]).id != id,
    decreases s.len(),
{
    if s.len() > 0 {
        let t = s.subrange(1, s.len() as int);
        lemma_find_by_id_none(t, id);
        if s[0].id != id {
            if find_by_id(t, id) is None {
                assert forall|j: int| 0 <= j < s.len() implies (#[trigger] s[j]).id != id by {
                    if j > 0 {
                        assert(t[j - 1] == s[j]);
                    }
                }
            } else {
                let j = choose|j: int| 0 <= j < t.len() && (#[trigger] t[j]).id == id;
                assert(s[j + 1] == t[j]);
            }
        }
    }
}

/// What the search finds is a record of the sequence with that id, and the
/// first such.
pub proof fn lemma_find_by_id_some(s: Seq<UserView>, id: u128) -> (i: int)
    requires
        find_by_id(s, id) is Some,
    ensures
        0 <= i < s.len(),
        s[i].id == id,
        find_by_id(s, id) == Some(s[i]),
        forall|j: int| 0 <= j < i ==> (#[trigger] s[j]).id != id,
    decreases s.len(),
{
    if s[0].id == id {
        0
    } else {
        let t = s.subrange(1, s.len() as int);
        let k = lemma_find_by_id_some(t, id);
        assert(t[k] == s[k + 1]);
        assert forall|j: int| 0 <= j < k + 1 implies (#[trigger] s[j]).id != id by {
            if j > 0 {
                assert(t[j - 1] == s[j]);
            }
        }
        k + 1
    }
}

/// A record found at the front of the search decides it.
pub proof fn lemma_find_by_email_at(s: Seq<UserView>, email: Seq<char>, i: int)
    requires
        0 <= i < s.len(),
        s[i].email == email,
        forall|j: int| 0 <= j < i ==> (#[trigger] s[j]).email != email,
    ensures
        find_by_email(s, email) == Some(s[i]),
    decreases i,
{
    if i > 0 {
        let t = s.subrange(1, s.len() as int);
        assert(s[0].email != email);
        assert forall|j: int| 0 <= j < i - 1 implies (#[trigger] t[j]).email != email by {
            assert(t[j] == s[j + 1]);
        }
        lemma_find_by_email_at(t, email, i - 1);
    }
}

/// The search finds nothing exactly when no record has the address.
pub proof fn lemma_find_by_email_none(s: Seq<UserView>, email: Seq<char>)
    ensures
        find_by_email(s, email) is None <==> forall|j: int|
            0 <= j < s.len() ==> (#[trigger] s[j]).email != email,
    decreases s.len(),
{
    if s.len() > 0 {
        let t = s.subrange(1, s.len() as int);
        lemma_find_by_email_none(t, email);
        if s[0].email != email {
            if find_by_email(t, email) is None {
                assert forall|j: int| 0 <= j < s.len() implies (#[trigger] s[j]).email
                    != email by {
                    if j > 0 {
                        assert(t[j - 1] == s[j]);
                    }
                }
            } else {
                let j = choose|j: int| 0 <= j < t.len() && (#[trigger] t[j]).email == email;
                assert(s[j + 1] == t[j]);
            }
        }
    }
}

/// What the search finds is a record of the sequence with that address, and
/// the first such.
pub proof fn lemma_find_by_email_some(s: Seq<UserView>, email: Seq<char>) -> (i: int)
    requires
        find_by_email(s, email) is Some,
    ensures
        0 <= i < s.len(),
        s[i].email == email,
        find_by_email(s, email) == Some(s[i]),
        forall|j: int| 0 <= j < i ==> (#[trigger] s[j]).email != email,
    decreases s.len(),
{
    if s[0].email == email {
        0
    } else {
        let t = s.subrange(1, s.len() as int);
        let k = lemma_find_by_email_some(t, email);
        assert(t[k] == s[k + 1]);
        assert forall|j: int| 0 <= j < k + 1 implies (#[trigger] s[j]).email != email by {
            if j > 0 {
                assert(t[j - 1] == s[j]);
            }
        }
        k + 1
    }
}

/// Removing an id from a sequence that ends in `u` removes it from what comes
/// before, and keeps `u` exactly when its id is another.
pub proof fn lemma_without_id_push(s: Seq<UserView>, u: UserView, id: u128)
    ensures
        without_id(s.push(u), id) == if u.id != id {
            without_id(s, id).push(u)
        } else {
            without_id(s, id)
        },
{
    reveal(Seq::filter);
    assert(s.push(u).drop_last() == s);
}

/// What is left after removing an id: records of the sequence, none of them
/// with that id.
pub proof fn lemma_without_id_members(s: Seq<UserView>, id: u128)
    ensures
        without_id(s, id).len() <= s.len(),
        forall|k: int|
            0 <= k < without_id(s, id).len() ==> (#[trigger] without_id(s, id)[k]).id != id
                && s.contains(without_id(s, id)[k]),
        forall|i: int|
            0 <= i < s.len() && (#[trigger] s[i]).id != id ==> without_id(s, id).contains(s[i]),
    decreases s.len(),
{
    reveal(Seq::filter);
    if s.len() > 0 {
        let t = s.drop_last();
        let x = s.last();
        lemma_without_id_members(t, id);
        let w = without_id(s, id);
        let wt = without_id(t, id);
        assert forall|k: int| 0 <= k < w.len() implies (#[trigger] w[k]).id != id && s.contains(
            w[k],
        ) by {
            if k < wt.len() {
                assert(w[k] == wt[k]);
                let i = choose|i: int| 0 <= i < t.len() && t[i] == wt[k];
                assert(s[i] == w[k]);
            } else {
                assert(w[k] == x);
                assert(s[s.len() - 1] == x);
            }
        }
        assert forall|i: int| 0 <= i < s.len() && (#[trigger] s[i]).id != id implies w.contains(
            s[i],
        ) by {
            if i < t.len() {
                assert(t[i] == s[i]);
                let k = choose|k: int| 0 <= k < wt.len() && wt[k] == t[i];
                assert(w[k] == s[i]);
            } else {
                assert(w[w.len() - 1] == s[i]);
            }
        }
    }
}

/// Removing records keeps e-mail addresses distinct, ids distinct, and the
/// order of creation and update.
pub proof fn lemma_without_id_keeps(s: Seq<UserView>, id: u128)
    ensures
        emails_distinct(s) ==> emails_distinct(without_id(s, id)),
        ids_distinct(s) ==> ids_distinct(without_id(s, id)),
        chronological(s) ==> chronological(without_id(s, id)),
    decreases s.len(),
{
    reveal(Seq::filter);
    if s.len() > 0 {
        let t = s.drop_last();
        let x = s.last();
        lemma_without_id_keeps(t, id);
        lemma_without_id_members(t, id);
        let w = without_id(s, id);
        let wt = without_id(t, id);
        assert forall|k: int| 0 <= k < wt.len() implies exists|i: int|
            0 <= i < t.len() && s[i] == #[trigger] wt[k] by {
            let i = choose|i: int| 0 <= i < t.len() && t[i] == wt[k];
            assert(s[i] == wt[k]);
        }
        if emails_distinct(s) {
            assert forall|i: int, j: int| 0 <= i < j < t.len() implies (#[trigger] t[i]).email != (
            #[trigger] t[j]).email by {
                assert(t[i] == s[i] && t[j] == s[j]);
            }
            assert forall|i: int, j: int| 0 <= i < j < w.len() implies (#[trigger] w[i]).email != (
            #[trigger] w[j]).email by {
                if j < wt.len() {
                    assert(w[i] == wt[i] && w[j] == wt[j]);
                } else {
                    assert(w[i] == wt[i]);
                    let a = choose|a: int| 0 <= a < t.len() && s[a] == wt[i];
                    assert(s[a].email != s[s.len() - 1].email);
                }
            }
        }
        if ids_distinct(s) {
            assert forall|i: int, j: int| 0 <= i < j < t.len() implies (#[trigger] t[i]).id != (
            #[trigger] t[j]).id by {
                assert(t[i] == s[i] && t[j] == s[j]);
            }
            assert forall|i: int, j: int| 0 <= i < j < w.len() implies (#[trigger] w[i]).id != (
            #[trigger] w[j]).id by {
                if j < wt.len() {
                    assert(w[i] == wt[i] && w[j] == wt[j]);
                } else {
                    assert(w[i] == wt[i]);
                    let a = choose|a: int| 0 <= a < t.len() && s[a] == wt[i];
                    assert(s[a].id != s[s.len() - 1].id);
                }
            }
        }
        if chronological(s) {
            assert forall|i: int| 0 <= i < t.len() implies match (
                (#[trigger] t[i]).created_at,
                t[i].updated_at,
            ) {
                (Some(c), Some(u)) => c <= u,
                _ => true,
            } by {
                assert(t[i] == s[i]);
            }
            assert forall|k: int| 0 <= k < w.len() implies match (
                (#[trigger] w[k]).created_at,
                w[k].updated_at,
            ) {
                (Some(c), Some(u)) => c <= u,
                _ => true,
            } by {
                if k < wt.len() {
                    assert(w[k] == wt[k]);
                } else {
                    assert(w[k] == s[s.len() - 1]);
                }
            }
        }
    }
}

} // verus!
