use vstd::prelude::*;
use crate::users::email::Email;
use crate::users::id::Id;
use crate::users::user::{User, UserModel};

verus! {

pub open spec fn models(users: Seq<User>) -> Seq<UserModel> {
    users.map_values(|u: User| u@)
}

pub open spec fn model_of(found: Option<User>) -> Option<UserModel> {
    match found {
        Some(u) => Some(u@),
        None => None,
    }
}

/// `i` is the position of the first user of identifier `id`.
pub open spec fn first_with_id(users: Seq<UserModel>, id: Seq<char>, i: int) -> bool {
    &&& 0 <= i < users.len()
    &&& users[i].0 == id
    &&& forall|j: int| 0 <= j < i ==> #[trigger] users[j].0 != id
}

/// `i` is the position of the first user of address `email`.
pub open spec fn first_with_email(users: Seq<UserModel>, email: Seq<char>, i: int) -> bool {
    &&& 0 <= i < users.len()
    &&& users[i].1 == email
    &&& forall|j: int| 0 <= j < i ==> #[trigger] users[j].1 != email
}

/// What a search by identifier finds: the first user of that identifier, or none if
/// no user has it.
pub open spec fn found_by_id(users: Seq<UserModel>, id: Seq<char>, found: Option<UserModel>) -> bool {
    match found {
        None => forall|i: int| 0 <= i < users.len() ==> #[trigger] users[i].0 != id,
        Some(u) => exists|i: int| first_with_id(users, id, i) && users[i] == u,
    }
}

/// What a search by address finds: the first user of that address, or none if no
/// user has it.
pub open spec fn found_by_email(
    users: Seq<UserModel>,
    email: Seq<char>,
    found: Option<UserModel>,
) -> bool {
    match found {
        None => forall|i: int| 0 <= i < users.len() ==> #[trigger] users[i].1 != email,
        Some(u) => exists|i: int| first_with_email(users, email, i) && users[i] == u,
    }
}

/// The users after saving `user`: it takes the place of the first user of its
/// identifier, or comes after all of them when there is none.
pub open spec fn saved(users: Seq<UserModel>, user: UserModel) -> Seq<UserModel> {
    if exists|i: int| first_with_id(users, user.0, i) {
        users.update(choose|i: int| first_with_id(users, user.0, i), user)
    } else {
        users.push(user)
    }
}

/// The users after removing every user of identifier `id`.
pub open spec fn removed(users: Seq<UserModel>, id: Seq<char>) -> Seq<UserModel> {
    users.filter(|u: UserModel| u.0 != id)
}

/// Where users are kept.
pub trait UserRepository {
    /// The users kept, in order.
    spec fn users(&self) -> Seq<UserModel>;

    fn save(&mut self, user: User) -> (r: Result<(), String>)
        ensures
            r is Ok ==> final(self).users() == saved(old(self).users(), user@),
    ;

    fn find_by_id(&self, id: Id) -> (r: Result<Option<User>, String>)
        ensures
            r matches Ok(found) ==> found_by_id(self.users(), id@, model_of(found)),
    ;

    fn find_by_email(&self, email: Email) -> (r: Result<Option<User>, String>)
        ensures
            r matches Ok(found) ==> found_by_email(self.users(), email@, model_of(found)),
    ;

    fn find_all(&self) -> (r: Result<Vec<User>, String>)
        ensures
            r matches Ok(all) ==> models(all@) == self.users(),
    ;

    fn remove(&mut self, user: User) -> (r: Result<(), String>)
        ensures
            r is Ok ==> final(self).users() == removed(old(self).users(), user@.0),
    ;
}

/// Users kept in memory.
#[derive(Debug)]
pub struct InMemoryUserRepository {
    users: Vec<User>,
}

proof fn lemma_first_unique_id(users: Seq<UserModel>, id: Seq<char>, i: int, j: int)
    requires
        first_with_id(users, id, i),
        first_with_id(users, id, j),
    ensures
        i == j,
{
    if i < j {
        assert(users[i].0 != id);
    } else if j < i {
        assert(users[j].0 != id);
    }
}

impl InMemoryUserRepository {
    pub fn new() -> (r: InMemoryUserRepository)
        ensures
            r.users() == Seq::<UserModel>::empty(),
    {
        let r = InMemoryUserRepository { users: Vec::new() };
        assert(models(r.users@) =~= Seq::<UserModel>::empty());
        r
    }
}

impl UserRepository for InMemoryUserRepository {
    closed spec fn users(&self) -> Seq<UserModel> {
        models(self.users@)
    }

    fn save(&mut self, user: User) -> (r: Result<(), String>) {
        let ghost before = models(self.users@);
        let ghost model = user@;
        let mut i: usize = 0;
        let mut position: Option<usize> = None;
        while i < self.users.len() && position.is_none()
            invariant
                before == models(self.users@),
                i <= self.users@.len(),
                model == user@,
                forall|j: int| 0 <= j < i ==> #[trigger] before[j].0 != user@.0,
                position matches Some(p) ==> first_with_id(before, user@.0, p as int),
            decreases self.users@.len() - i + (if position is None { 1int } else { 0int }),
        {
            let same = self.users[i] == user;
            assert(before[i as int] == self.users@[i as int]@);
            if same {
                assert(first_with_id(before, user@.0, i as int));
                position = Some(i);
            } else {
                i = i + 1;
            }
        }
        match position {
            Some(p) => {
                proof {
                    let c = choose|k: int| first_with_id(before, model.0, k);
                    lemma_first_unique_id(before, model.0, p as int, c);
                }
                self.users.set(p, user);
                assert(models(self.users@) =~= before.update(p as int, model));
            },
            None => {
                proof {
                    if exists|k: int| first_with_id(before, model.0, k) {
                        let k = choose|k: int| first_with_id(before, model.0, k);
                        assert(before[k].0 != model.0);
                    }
                }
                self.users.push(user);
                assert(models(self.users@) =~= before.push(model));
            },
        }
        Ok(())
    }

    fn find_by_id(&self, id: Id) -> (r: Result<Option<User>, String>) {
        let ghost all = models(self.users@);
        let mut i: usize = 0;
        while i < self.users.len()
            invariant
                all == models(self.users@),
                i <= self.users@.len(),
                forall|j: int| 0 <= j < i ==> #[trigger] all[j].0 != id@,
            decreases self.users@.len() - i,
        {
            if self.users[i].is_matching_id(&id) {
                assert(first_with_id(all, id@, i as int));
                return Ok(Some(self.users[i].duplicate()));
            }
            i = i + 1;
        }
        Ok(None)
    }

    fn find_by_email(&self, email: Email) -> (r: Result<Option<User>, String>) {
        let ghost all = models(self.users@);
        let mut i: usize = 0;
        while i < self.users.len()
            invariant
                all == models(self.users@),
                i <= self.users@.len(),
                forall|j: int| 0 <= j < i ==> #[trigger] all[j].1 != email@,
            decreases self.users@.len() - i,
        {
            if self.users[i].is_matching_email(&email) {
                assert(first_with_email(all, email@, i as int));
                return Ok(Some(self.users[i].duplicate()));
            }
            i = i + 1;
        }
        Ok(None)
    }

    fn find_all(&self) -> (r: Result<Vec<User>, String>) {
        let mut all: Vec<User> = Vec::new();
        let mut i: usize = 0;
        while i < self.users.len()
            invariant
                i <= self.users@.len(),
                models(all@) =~= models(self.users@).subrange(0, i as int),
            decreases self.users@.len() - i,
        {
            let ghost prev = all@;
            all.push(self.users[i].duplicate());
            assert(models(all@) =~= models(prev).push(self.users@[i as int]@));
            assert(models(self.users@).subrange(0, i + 1) =~= models(self.users@).subrange(0, i as int).push(self.users@[i as int]@));
            i = i + 1;
        }
        assert(models(self.users@).subrange(0, i as int) =~= models(self.users@));
        Ok(all)
    }

    fn remove(&mut self, user: User) -> (r: Result<(), String>) {
        let ghost before = models(self.users@);
        let ghost keep = |u: UserModel| u.0 != user@.0;
        let mut kept: Vec<User> = Vec::new();
        let mut i: usize = 0;
        while i < self.users.len()
            invariant
                before == models(self.users@),
                i <= self.users@.len(),
                keep == (|u: UserModel| u.0 != user@.0),
                models(kept@) == before.subrange(0, i as int).filter(keep),
            decreases self.users@.len() - i,
        {
            proof {
                reveal(Seq::filter);
                assert(before.subrange(0, i + 1).drop_last() =~= before.subrange(0, i as int));
            }
            if self.users[i] != user {
                kept.push(self.users[i].duplicate());
                assert(models(kept@) =~= before.subrange(0, i as int).filter(keep).push(before[i as int]));
            }
            i = i + 1;
        }
        assert(before.subrange(0, i as int) =~= before);
        self.users = kept;
        Ok(())
    }
}

impl Default for InMemoryUserRepository {
    fn default() -> (r: Self)
        ensures
            r.users() == Seq::<UserModel>::empty(),
    {
        Self::new()
    }
}

} // verus!
