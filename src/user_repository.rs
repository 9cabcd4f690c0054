//! Account store: the in-memory index of account records that is the source of
//! truth for reads. Usernames are unique up to case folding, ids are unique, and
//! records keep the order in which they were created.
//!
//! Each operation works on one index under exclusive access (`&mut`); the
//! process that shares the index holds a reader/writer lock around these calls
//! and persists a snapshot after each mutation, so a check and the insertion it
//! guards are one step.

use vstd::prelude::*;
use crate::error::{AppError, AppResult};
use crate::ids::uuid_text;

verus! {

/// What `str::to_lowercase` yields: the case-folded form used to compare usernames.
pub uninterp spec fn lower_of(s: Seq<char>) -> Seq<char>;

/// Relies on `str::to_lowercase`; the result depends on the characters alone.
#[verifier::external_body]
pub fn fold_case(s: &str) -> (r: String)
    ensures
        r@ == lower_of(s@),
{
    s.to_lowercase()
}

/// An account record.
#[derive(Debug, Clone)]
pub struct User {
    pub id: u128,
    /// Display form, as registered.
    pub username: String,
    /// PHC string of the salted password hash; never part of a public view.
    pub password_hash: String,
    pub is_admin: bool,
    /// Unix seconds.
    pub created_at: i64,
    /// Unix seconds of the last successful login.
    pub last_login: Option<i64>,
}

/// The part of an account that may leave the service.
#[derive(Debug, Clone)]
pub struct PublicUser {
    pub id: u128,
    pub username: String,
    pub is_admin: bool,
    pub created_at: i64,
}

impl User {
    /// A record with the given identity, created at `created_at`, never logged in.
    pub fn new_with(id: u128, username: String, password_hash: String, is_admin: bool, created_at: i64) -> (r: User)
        ensures
            r.id == id,
            r.username == username,
            r.password_hash == password_hash,
            r.is_admin == is_admin,
            r.created_at == created_at,
            r.last_login is None,
    {
        User { id, username, password_hash, is_admin, created_at, last_login: None }
    }

    /// A record with a fresh random id, created now.
    pub fn new(username: String, password_hash: String, is_admin: bool) -> (r: User)
        ensures
            r.username == username,
            r.password_hash == password_hash,
            r.is_admin == is_admin,
            r.last_login is None,
    {
        let id = crate::ids::new_account_id();
        let now = crate::clock::now_timestamp();
        User::new_with(id, username, password_hash, is_admin, now)
    }

    /// A field-by-field copy.
    pub fn snapshot(&self) -> (r: User)
        ensures
            r == *self,
    {
        User {
            id: self.id,
            username: self.username.clone(),
            password_hash: self.password_hash.clone(),
            is_admin: self.is_admin,
            created_at: self.created_at,
            last_login: self.last_login,
        }
    }

    /// The public view: no credential, no login time.
    pub fn to_public(&self) -> (r: PublicUser)
        ensures
            r.id == self.id,
            r.username == self.username,
            r.is_admin == self.is_admin,
            r.created_at == self.created_at,
    {
        PublicUser {
            id: self.id,
            username: self.username.clone(),
            is_admin: self.is_admin,
            created_at: self.created_at,
        }
    }
}

/// Some record holds this username up to case folding.
pub open spec fn name_taken(s: Seq<User>, name: Seq<char>) -> bool {
    exists|i: int| 0 <= i < s.len() && lower_of(#[trigger] s[i].username@) == lower_of(name)
}

/// Some record other than the one with id `id` holds this username up to case folding.
pub open spec fn name_taken_by_other(s: Seq<User>, name: Seq<char>, id: u128) -> bool {
    exists|i: int| 0 <= i < s.len() && #[trigger] s[i].id != id && lower_of(s[i].username@) == lower_of(name)
}

/// Some record has this id.
pub open spec fn id_taken(s: Seq<User>, id: u128) -> bool {
    exists|i: int| 0 <= i < s.len() && #[trigger] s[i].id == id
}

/// No two records share an id or a case-folded username.
pub open spec fn records_wf(s: Seq<User>) -> bool {
    forall|i: int, j: int|
        #![trigger s[i], s[j]]
        0 <= i < s.len() && 0 <= j < s.len() && i != j ==> s[i].id != s[j].id && lower_of(s[i].username@)
            != lower_of(s[j].username@)
}

/// The record a successful login leaves behind: the same, with the login time.
pub open spec fn with_login(u: User, now: i64) -> User {
    User { last_login: Some(now), ..u }
}

pub open spec fn is_conflict(e: AppError) -> bool {
    e is Conflict
}

/// The account index. Its records never share an id or a case-folded username.
#[derive(Debug)]
pub struct UserIndex {
    users: Vec<User>,
}

impl View for UserIndex {
    type V = Seq<User>;

    closed spec fn view(&self) -> Seq<User> {
        self.users@
    }
}

proof fn lemma_push_keeps_wf(s: Seq<User>, u: User)
    requires
        records_wf(s),
        !name_taken(s, u.username@),
        !id_taken(s, u.id),
    ensures
        records_wf(s.push(u)),
{
    let t = s.push(u);
    assert forall|i: int, j: int| 0 <= i < t.len() && 0 <= j < t.len() && i != j implies t[i].id != t[j].id
        && lower_of(t[i].username@) != lower_of(t[j].username@) by {
        if i < s.len() && j < s.len() {
            assert(s[i] == t[i] && s[j] == t[j]);
        } else if i < s.len() {
            assert(s[i] == t[i]);
        } else {
            assert(s[j] == t[j]);
        }
    }
}

proof fn lemma_remove_keeps_wf(s: Seq<User>, k: int)
    requires
        records_wf(s),
        0 <= k < s.len(),
    ensures
        records_wf(s.remove(k)),
{
    let t = s.remove(k);
    assert forall|i: int, j: int| 0 <= i < t.len() && 0 <= j < t.len() && i != j implies t[i].id != t[j].id
        && lower_of(t[i].username@) != lower_of(t[j].username@) by {
        let a = if i < k { i } else { i + 1 };
        let b = if j < k { j } else { j + 1 };
        assert(t[i] == s[a] && t[j] == s[b]);
    }
}

proof fn lemma_update_keeps_wf(s: Seq<User>, k: int, u: User)
    requires
        records_wf(s),
        0 <= k < s.len(),
        s[k].id == u.id,
        !name_taken_by_other(s, u.username@, u.id),
    ensures
        records_wf(s.update(k, u)),
{
    let t = s.update(k, u);
    assert forall|i: int, j: int| 0 <= i < t.len() && 0 <= j < t.len() && i != j implies t[i].id != t[j].id
        && lower_of(t[i].username@) != lower_of(t[j].username@) by {
        if i != k && j != k {
            assert(s[i] == t[i] && s[j] == t[j]);
        } else if i == k {
            assert(s[j] == t[j]);
            assert(s[j].id != s[k].id);
        } else {
            assert(s[i] == t[i]);
            assert(s[i].id != s[k].id);
        }
    }
}

impl UserIndex {
    #[verifier::type_invariant]
    closed spec fn inv(&self) -> bool {
        records_wf(self.users@)
    }

    pub open spec fn wf(&self) -> bool {
        records_wf(self@)
    }

    /// An empty index.
    pub fn new() -> (r: UserIndex)
        ensures
            r@ == Seq::<User>::empty(),
            r.wf(),
    {
        UserIndex { users: Vec::new() }
    }

    /// An independent copy of the index.
    pub fn snapshot(&self) -> (r: UserIndex)
        ensures
            r@ == self@,
    {
        proof {
            use_type_invariant(self);
        }
        UserIndex { users: self.list_all() }
    }

    /// Number of records.
    pub fn count(&self) -> (r: usize)
        ensures
            self.wf(),
            r == self@.len(),
    {
        proof {
            use_type_invariant(self);
        }
        self.users.len()
    }

    /// Position of the record with this id.
    fn position_of_id(&self, id: u128) -> (r: Option<usize>)
        ensures
            r is None <==> !id_taken(self@, id),
            r matches Some(k) ==> k < self@.len() && self@[k as int].id == id,
    {
        let mut i: usize = 0;
        while i < self.users.len()
            invariant
                i <= self.users@.len(),
                forall|j: int| 0 <= j < i ==> (#[trigger] self.users@[j]).id != id,
            decreases self.users@.len() - i,
        {
            if self.users[i].id == id {
                return Some(i);
            }
            i = i + 1;
        }
        None
    }

    /// Position of the record whose username folds like `name`.
    fn position_of_name(&self, name: &str) -> (r: Option<usize>)
        ensures
            r is None <==> !name_taken(self@, name@),
            r matches Some(k) ==> k < self@.len() && lower_of(self@[k as int].username@) == lower_of(name@),
    {
        let folded = fold_case(name);
        let mut i: usize = 0;
        while i < self.users.len()
            invariant
                i <= self.users@.len(),
                folded@ == lower_of(name@),
                forall|j: int| 0 <= j < i ==> lower_of((#[trigger] self.users@[j]).username@) != lower_of(name@),
            decreases self.users@.len() - i,
        {
            let f = fold_case(self.users[i].username.as_str());
            if f == folded {
                return Some(i);
            }
            i = i + 1;
        }
        None
    }

    /// Whether some record other than `id` holds `name` up to case folding.
    fn name_held_by_other(&self, name: &str, id: u128) -> (r: bool)
        ensures
            r == name_taken_by_other(self@, name@, id),
    {
        let folded = fold_case(name);
        let mut i: usize = 0;
        while i < self.users.len()
            invariant
                i <= self.users@.len(),
                folded@ == lower_of(name@),
                forall|j: int|
                    0 <= j < i ==> (#[trigger] self.users@[j]).id == id || lower_of(self.users@[j].username@)
                        != lower_of(name@),
            decreases self.users@.len() - i,
        {
            if self.users[i].id != id {
                let f = fold_case(self.users[i].username.as_str());
                if f == folded {
                    return true;
                }
            }
            i = i + 1;
        }
        false
    }

    /// The record with this id.
    pub fn find_by_id(&self, id: u128) -> (r: Option<User>)
        ensures
            self.wf(),
            r is None <==> !id_taken(self@, id),
            r matches Some(u) ==> exists|k: int| 0 <= k < self@.len() && self@[k] == u && u.id == id,
    {
        proof {
            use_type_invariant(self);
        }
        match self.position_of_id(id) {
            Some(k) => Some(self.users[k].snapshot()),
            None => None,
        }
    }

    /// The record whose username equals `name` up to case folding, with the
    /// username as it was registered.
    pub fn find_by_username(&self, name: &str) -> (r: Option<User>)
        ensures
            self.wf(),
            r is None <==> !name_taken(self@, name@),
            r matches Some(u) ==> exists|k: int|
                0 <= k < self@.len() && self@[k] == u && lower_of(u.username@) == lower_of(name@),
    {
        proof {
            use_type_invariant(self);
        }
        match self.position_of_name(name) {
            Some(k) => Some(self.users[k].snapshot()),
            None => None,
        }
    }

    /// Whether some record holds `name` up to case folding.
    pub fn username_exists(&self, name: &str) -> (r: bool)
        ensures
            r == name_taken(self@, name@),
    {
        self.position_of_name(name).is_some()
    }

    /// Adds a record. The uniqueness checks and the insertion are one step.
    pub fn create(&mut self, user: User) -> (r: AppResult<User>)
        ensures
            final(self).wf(),
            r is Err <==> name_taken(old(self)@, user.username@) || id_taken(old(self)@, user.id),
            r matches Err(e) ==> is_conflict(e) && final(self)@ == old(self)@,
            r matches Ok(u) ==> u == user && final(self)@ == old(self)@.push(user),
    {
        proof {
            use_type_invariant(&*self);
        }
        if self.username_exists(user.username.as_str()) {
            let msg = String::from_str("Username '").concat(user.username.as_str()).concat("' already exists");
            return Err(AppError::Conflict(msg));
        }
        if self.position_of_id(user.id).is_some() {
            let msg = String::from_str("User ").concat(uuid_text(user.id).as_str()).concat(" already exists");
            return Err(AppError::Conflict(msg));
        }
        proof {
            lemma_push_keeps_wf(self@, user);
        }
        let out = user.snapshot();
        let mut users = self.list_all();
        users.push(user);
        *self = UserIndex { users };
        Ok(out)
    }

    /// Replaces the record with the same id; a username that another record holds
    /// up to case folding is refused with a conflict.
    pub fn update(&mut self, user: User) -> (r: AppResult<User>)
        ensures
            final(self).wf(),
            r matches Err(AppError::NotFound(_)) <==> !id_taken(old(self)@, user.id),
            r matches Err(AppError::Conflict(_)) <==> id_taken(old(self)@, user.id) && name_taken_by_other(
                old(self)@,
                user.username@,
                user.id,
            ),
            r matches Err(e) ==> (e is NotFound || e is Conflict) && final(self)@ == old(self)@,
            r matches Ok(u) ==> u == user && exists|k: int|
                0 <= k < old(self)@.len() && old(self)@[k].id == user.id && final(self)@ == old(self)@.update(
                    k,
                    user,
                ),
    {
        proof {
            use_type_invariant(&*self);
        }
        let k = match self.position_of_id(user.id) {
            Some(k) => k,
            None => {
                let msg = String::from_str("User ").concat(uuid_text(user.id).as_str()).concat(" not found");
                return Err(AppError::NotFound(msg));
            },
        };
        if self.name_held_by_other(user.username.as_str(), user.id) {
            let msg = String::from_str("Username '").concat(user.username.as_str()).concat("' already exists");
            return Err(AppError::Conflict(msg));
        }
        proof {
            lemma_update_keeps_wf(self@, k as int, user);
        }
        let out = user.snapshot();
        let mut users = self.list_all();
        users.set(k, user);
        *self = UserIndex { users };
        Ok(out)
    }

    /// Removes the record with this id; says whether one was there.
    pub fn delete(&mut self, id: u128) -> (r: bool)
        ensures
            final(self).wf(),
            r == id_taken(old(self)@, id),
            !r ==> final(self)@ == old(self)@,
            r ==> exists|k: int|
                0 <= k < old(self)@.len() && old(self)@[k].id == id && final(self)@ == old(self)@.remove(k),
    {
        proof {
            use_type_invariant(&*self);
        }
        match self.position_of_id(id) {
            Some(k) => {
                proof {
                    lemma_remove_keeps_wf(self@, k as int);
                }
                let mut users = self.list_all();
                users.remove(k);
                *self = UserIndex { users };
                true
            },
            None => false,
        }
    }

    /// Every record, in creation order.
    pub fn list_all(&self) -> (r: Vec<User>)
        ensures
            self.wf(),
            r@ == self@,
    {
        proof {
            use_type_invariant(self);
        }
        let mut out: Vec<User> = Vec::new();
        let mut i: usize = 0;
        while i < self.users.len()
            invariant
                i <= self.users@.len(),
                out@ == self.users@.subrange(0, i as int),
            decreases self.users@.len() - i,
        {
            out.push(self.users[i].snapshot());
            i = i + 1;
            assert(out@ =~= self.users@.subrange(0, i as int));
        }
        assert(out@ =~= self.users@);
        out
    }

    /// Rebuilds an index from stored records; records that share an id or a
    /// case-folded username mean the stored state is corrupt, and nothing is kept.
    pub fn from_records(records: Vec<User>) -> (r: AppResult<UserIndex>)
        ensures
            r is Ok <==> records_wf(records@),
            r matches Ok(ix) ==> ix.wf() && ix@ == records@,
            r matches Err(e) ==> e is Internal,
    {
        let mut ix = UserIndex::new();
        let mut i: usize = 0;
        while i < records.len()
            invariant
                i <= records@.len(),
                ix.wf(),
                ix@ == records@.subrange(0, i as int),
            decreases records@.len() - i,
        {
            let u = records[i].snapshot();
            let ghost before = ix@;
            match ix.create(u) {
                Ok(_) => {},
                Err(_) => {
                    proof {
                        let s = records@;
                        if name_taken(before, s[i as int].username@) {
                            let j = choose|j: int|
                                0 <= j < before.len() && lower_of(#[trigger] before[j].username@) == lower_of(
                                    s[i as int].username@,
                                );
                            assert(s[j] == before[j]);
                            assert(!records_wf(s));
                        } else {
                            let j = choose|j: int| 0 <= j < before.len() && #[trigger] before[j].id == s[i as int].id;
                            assert(s[j] == before[j]);
                            assert(!records_wf(s));
                        }
                    }
                    return Err(AppError::Internal(String::from_str("Stored accounts are inconsistent")));
                },
            }
            i = i + 1;
            assert(ix@ =~= records@.subrange(0, i as int));
        }
        assert(ix@ =~= records@);
        Ok(ix)
    }
}

/// Storage of account records as a service shares it between requests.
pub trait UserRepository {
    fn find_by_id(&self, id: u128) -> AppResult<Option<User>>;

    fn find_by_username(&self, username: &str) -> AppResult<Option<User>>;

    fn create(&self, user: User) -> AppResult<User>;

    fn update(&self, user: User) -> AppResult<User>;

    fn delete(&self, id: u128) -> AppResult<bool>;

    fn list_all(&self) -> AppResult<Vec<User>>;

    fn count(&self) -> AppResult<usize>;

    fn username_exists(&self, username: &str) -> AppResult<bool> {
        match self.find_by_username(username) {
            Ok(found) => Ok(found.is_some()),
            Err(e) => Err(e),
        }
    }
}

/// Two registrations of one case-folded name: once the first is in, the second
/// is refused with a conflict, and the index never holds the name twice.
pub proof fn lemma_same_folded_name_conflicts(s: Seq<User>, first: User, second_name: Seq<char>)
    requires
        records_wf(s),
        !name_taken(s, first.username@),
        !id_taken(s, first.id),
        lower_of(second_name) == lower_of(first.username@),
    ensures
        records_wf(s.push(first)),
        name_taken(s.push(first), second_name),
        forall|i: int, j: int|
            0 <= i < s.push(first).len() && 0 <= j < s.push(first).len() && lower_of(#[trigger] s.push(first)[i].username@)
                == lower_of(second_name) && lower_of(#[trigger] s.push(first)[j].username@) == lower_of(second_name) ==> i == j,
{
    lemma_push_keeps_wf(s, first);
    assert(s.push(first)[s.len() as int] == first);
}

} // verus!
