//! The volatile store: users in a vector, in insertion order, with no two
//! records under one e-mail address.

use vstd::prelude::*;
use crate::create_user::CreateUser;
use crate::error::{Error, ErrorView};
use crate::model::{
    created_record, email_held_by_other, emails_distinct, find_by_email, find_by_id,
    lemma_find_by_email_at, lemma_find_by_email_none, lemma_find_by_id_at, lemma_find_by_id_none,
    lemma_without_id_keeps, lemma_without_id_members, lemma_without_id_push, updated_record,
    views, without_id,
};
use crate::system::{fresh_id, is_random_id, now_micros};
use crate::user::{CustomData, User, UserView};

verus! {

pub type RepositoryResult<T> = Result<T, Error>;

pub type RepositoryResultList<T> = Result<Vec<T>, Error>;

/// A store of users that lives in memory and is lost with the process.
pub struct MemoryRepository {
    users: Vec<User>,
}

impl View for MemoryRepository {
    type V = Seq<UserView>;

    closed spec fn view(&self) -> Seq<UserView> {
        views(self.users@)
    }
}

impl Default for MemoryRepository {
    fn default() -> (repo: Self)
        ensures
            repo@ == Seq::<UserView>::empty(),
            repo.wf(),
    {
        let repo = Self { users: Vec::new() };
        assert(repo@ =~= Seq::<UserView>::empty());
        repo
    }
}

impl MemoryRepository {
    /// The invariant of a store: no two records share an e-mail address.
    pub open spec fn wf(&self) -> bool {
        emails_distinct(self@)
    }

    /// Storage unavailable: the store could not be locked.
    pub open spec fn unavailable() -> ErrorView {
        ErrorView { message: "Get user error"@, status: 406 }
    }

    /// Not found: no record has the id that was looked up.
    pub open spec fn not_found_by_id() -> ErrorView {
        ErrorView { message: "Invalid Uuid"@, status: 404 }
    }

    /// Not found: no record has the address that was looked up.
    pub open spec fn not_found_by_email() -> ErrorView {
        ErrorView { message: "User not found"@, status: 404 }
    }

    /// Conflict: the address of the user to create is in use.
    pub open spec fn conflict_on_create() -> ErrorView {
        ErrorView { message: "This user already exists"@, status: 400 }
    }

    /// Not found: no record has the id of the user to update.
    pub open spec fn not_found_on_update() -> ErrorView {
        ErrorView { message: "This user does not exist"@, status: 404 }
    }

    /// Conflict: the new address of the user to update belongs to another.
    pub open spec fn conflict_on_update() -> ErrorView {
        ErrorView { message: "This user email already exists"@, status: 422 }
    }

    /// The error to report when the lock around a store cannot be taken.
    pub fn lock_failed() -> (e: Error)
        ensures
            e@ == Self::unavailable(),
    {
        Error::of("Get user error", 406)
    }

    /// The index of the first record with the id.
    fn position_by_id(&self, id: u128) -> (r: Option<usize>)
        ensures
            match r {
                Some(i) => i < self@.len() && find_by_id(self@, id) == Some(self@[i as int])
                    && self@[i as int] == self.users@[i as int]@,
                None => find_by_id(self@, id) is None,
            },
    {
        let mut i: usize = 0;
        while i < self.users.len()
            invariant
                i <= self.users.len(),
                forall|j: int| 0 <= j < i ==> (#[trigger] self@[j]).id != id,
            decreases self.users.len() - i,
        {
            if self.users[i].id == id {
                proof {
                    lemma_find_by_id_at(self@, id, i as int);
                }
                return Some(i);
            }
            i += 1;
        }
        proof {
            lemma_find_by_id_none(self@, id);
        }
        None
    }

    /// The index of the first record with the address.
    fn position_by_email(&self, email: &String) -> (r: Option<usize>)
        ensures
            match r {
                Some(i) => i < self@.len() && find_by_email(self@, email@) == Some(self@[i as int])
                    && self@[i as int] == self.users@[i as int]@,
                None => find_by_email(self@, email@) is None,
            },
    {
        let mut i: usize = 0;
        while i < self.users.len()
            invariant
                i <= self.users.len(),
                forall|j: int| 0 <= j < i ==> (#[trigger] self@[j]).email != email@,
            decreases self.users.len() - i,
        {
            if self.users[i].email == *email {
                proof {
                    lemma_find_by_email_at(self@, email@, i as int);
                }
                return Some(i);
            }
            i += 1;
        }
        proof {
            lemma_find_by_email_none(self@, email@);
        }
        None
    }

    /// All users, in the order in which they were inserted.
    pub fn get_all(&self) -> (r: RepositoryResultList<User>)
        ensures
            r matches Ok(all) && views(all@) == self@,
    {
        let mut all: Vec<User> = Vec::new();
        let mut i: usize = 0;
        while i < self.users.len()
            invariant
                i <= self.users.len(),
                all@.len() == i,
                forall|j: int| 0 <= j < i ==> (#[trigger] all@[j])@ == self.users@[j]@,
            decreases self.users.len() - i,
        {
            all.push(self.users[i].clone());
            i += 1;
        }
        assert(views(all@) =~= self@);
        Ok(all)
    }

    /// The user with the id; not found when there is none.
    pub fn get_user(&self, user_id: &u128) -> (r: RepositoryResult<User>)
        ensures
            match r {
                Ok(u) => find_by_id(self@, *user_id) == Some(u@),
                Err(e) => find_by_id(self@, *user_id) is None && e@ == Self::not_found_by_id(),
            },
    {
        match self.position_by_id(*user_id) {
            Some(i) => Ok(self.users[i].clone()),
            None => Err(Error::of("Invalid Uuid", 404)),
        }
    }

    /// The user with the address; not found when there is none.
    pub fn get_user_by_email(&self, user_email: &String) -> (r: RepositoryResult<User>)
        ensures
            match r {
                Ok(u) => find_by_email(self@, user_email@) == Some(u@),
                Err(e) => find_by_email(self@, user_email@) is None && e@
                    == Self::not_found_by_email(),
            },
    {
        match self.position_by_email(user_email) {
            Some(i) => Ok(self.users[i].clone()),
            None => Err(Error::of("User not found", 404)),
        }
    }

    /// Whether a record under another id holds the address.
    fn held_by_other(&self, email: &String, id: u128) -> (r: bool)
        ensures
            r == email_held_by_other(self@, email@, id),
    {
        let mut i: usize = 0;
        while i < self.users.len()
            invariant
                i <= self.users.len(),
                forall|j: int|
                    0 <= j < i ==> !((#[trigger] self@[j]).email == email@ && self@[j].id != id),
            decreases self.users.len() - i,
        {
            if self.users[i].email == *email && self.users[i].id != id {
                assert(self@[i as int].email == email@ && self@[i as int].id != id);
                return true;
            }
            i += 1;
        }
        false
    }

    /// The users whose id is not the given one, in their order.
    fn others(&self, id: u128) -> (kept: Vec<User>)
        ensures
            views(kept@) == without_id(self@, id),
    {
        let mut kept: Vec<User> = Vec::new();
        let mut i: usize = 0;
        assert(self@.take(0) =~= Seq::<UserView>::empty());
        assert(views(kept@) =~= Seq::<UserView>::empty());
        proof {
            reveal(Seq::filter);
        }
        while i < self.users.len()
            invariant
                i <= self.users.len(),
                views(kept@) == without_id(self@.take(i as int), id),
            decreases self.users.len() - i,
        {
            proof {
                lemma_without_id_push(self@.take(i as int), self@[i as int], id);
                assert(self@.take(i as int).push(self@[i as int]) =~= self@.take(i + 1));
            }
            if self.users[i].id != id {
                let ghost before = views(kept@);
                let u = self.users[i].clone();
                kept.push(u);
                assert(views(kept@) =~= before.push(self@[i as int]));
            }
            i += 1;
        }
        assert(self@.take(self.users.len() as int) =~= self@);
        kept
    }

    /// Creates the user under the given id at the given moment, unless the
    /// address is in use.
    pub fn create_user_with(&mut self, user: &CreateUser, id: u128, now: i64) -> (r:
        RepositoryResult<User>)
        requires
            old(self).wf(),
        ensures
            final(self).wf(),
            match r {
                Ok(u) => {
                    &&& find_by_email(old(self)@, user@.email) is None
                    &&& u@ == created_record(user@, id, now)
                    &&& final(self)@ == old(self)@.push(u@)
                },
                Err(e) => {
                    &&& find_by_email(old(self)@, user@.email) is Some
                    &&& e@ == Self::conflict_on_create()
                    &&& final(self)@ == old(self)@
                },
            },
    {
        if self.position_by_email(&user.email).is_some() {
            return Err(Error::of("This user already exists", 400));
        }
        let new_user = User {
            id,
            name: user.name.clone(),
            email: user.email.clone(),
            birth_date: user.birth_date,
            custom_data: CustomData { random: user.custom_data.random },
            created_at: Some(now),
            updated_at: None,
        };
        let stored = new_user.clone();
        proof {
            lemma_find_by_email_none(self@, user@.email);
            assert(views(self.users@.push(stored)) =~= self@.push(new_user@));
        }
        self.users.push(stored);
        Ok(new_user)
    }

    /// Creates the user under a fresh random id, stamped with the current
    /// time, unless the address is in use.
    pub fn create_user(&mut self, user: &CreateUser) -> (r: RepositoryResult<User>)
        requires
            old(self).wf(),
        ensures
            final(self).wf(),
            match r {
                Ok(u) => {
                    &&& find_by_email(old(self)@, user@.email) is None
                    &&& is_random_id(u.id)
                    &&& u.created_at matches Some(t) && t >= 0 && u@ == created_record(
                        user@,
                        u.id,
                        t,
                    )
                    &&& final(self)@ == old(self)@.push(u@)
                },
                Err(e) => {
                    &&& find_by_email(old(self)@, user@.email) is Some
                    &&& e@ == Self::conflict_on_create()
                    &&& final(self)@ == old(self)@
                },
            },
    {
        let id = fresh_id();
        let now = now_micros();
        self.create_user_with(user, id, now)
    }

    /// Writes the user over the record with its id at the given moment. The
    /// moment of creation stays; the record moves to the end.
    pub fn update_user_at(&mut self, user: &User, now: i64) -> (r: RepositoryResult<User>)
        requires
            old(self).wf(),
        ensures
            final(self).wf(),
            match r {
                Ok(u) => {
                    &&& find_by_id(old(self)@, user.id) matches Some(prev) && u@ == updated_record(
                        prev,
                        user@,
                        now,
                    )
                    &&& !email_held_by_other(old(self)@, user@.email, user.id)
                    &&& final(self)@ == without_id(old(self)@, user.id).push(u@)
                },
                Err(e) => {
                    &&& final(self)@ == old(self)@
                    &&& if find_by_id(old(self)@, user.id) is None {
                        e@ == Self::not_found_on_update()
                    } else {
                        email_held_by_other(old(self)@, user@.email, user.id) && e@
                            == Self::conflict_on_update()
                    }
                },
            },
    {
        let created_at = match self.position_by_id(user.id) {
            Some(i) => self.users[i].created_at,
            None => {
                return Err(Error::of("This user does not exist", 404));
            },
        };
        if self.held_by_other(&user.email, user.id) {
            return Err(Error::of("This user email already exists", 422));
        }
        let updated = User {
            id: user.id,
            name: user.name.clone(),
            email: user.email.clone(),
            birth_date: user.birth_date,
            custom_data: user.custom_data,
            created_at,
            updated_at: Some(now),
        };
        let stored = updated.clone();
        let mut kept = self.others(user.id);
        proof {
            let w = without_id(self@, user.id);
            lemma_without_id_keeps(self@, user.id);
            lemma_without_id_members(self@, user.id);
            assert(views(kept@.push(stored)) =~= w.push(updated@));
            assert forall|k: int| 0 <= k < w.len() implies (#[trigger] w[k]).email
                != user@.email by {
                let i = choose|i: int| 0 <= i < self@.len() && self@[i] == w[k];
                if w[k].email == user@.email {
                    assert(self@[i].email == user@.email && self@[i].id != user.id);
                }
            }
        }
        kept.push(stored);
        self.users = kept;
        Ok(updated)
    }

    /// Writes the user over the record with its id, stamped with the current
    /// time.
    pub fn update_user(&mut self, user: &User) -> (r: RepositoryResult<User>)
        requires
            old(self).wf(),
        ensures
            final(self).wf(),
            match r {
                Ok(u) => {
                    &&& find_by_id(old(self)@, user.id) matches Some(prev) && u.updated_at matches Some(
                        t,
                    ) && t >= 0 && u@ == updated_record(prev, user@, t)
                    &&& !email_held_by_other(old(self)@, user@.email, user.id)
                    &&& final(self)@ == without_id(old(self)@, user.id).push(u@)
                },
                Err(e) => {
                    &&& final(self)@ == old(self)@
                    &&& if find_by_id(old(self)@, user.id) is None {
                        e@ == Self::not_found_on_update()
                    } else {
                        email_held_by_other(old(self)@, user@.email, user.id) && e@
                            == Self::conflict_on_update()
                    }
                },
            },
    {
        let now = now_micros();
        self.update_user_at(user, now)
    }

    /// Removes every record with the id and echoes the id, whether or not
    /// there was such a record.
    pub fn delete_user(&mut self, user_id: &u128) -> (r: RepositoryResult<u128>)
        requires
            old(self).wf(),
        ensures
            final(self).wf(),
            r == Ok::<u128, Error>(*user_id),
            final(self)@ == without_id(old(self)@, *user_id),
    {
        proof {
            lemma_without_id_keeps(self@, *user_id);
        }
        let kept = self.others(*user_id);
        self.users = kept;
        Ok(*user_id)
    }
}

} // verus!
