use vstd::prelude::*;
use crate::prelude::ValidationError;
use crate::user::{lower_of, update_error, User, UserView};

verus! {

/// Why a registry operation failed.
#[derive(Debug, Clone, Copy, PartialEq, Eq, Structural)]
pub enum RegistryError {
    /// A user with this id is already stored.
    DuplicateId,
    /// No user with this id is stored.
    NotFound,
    /// The requested change broke a field rule.
    Invalid(ValidationError),
}

/// A change of name, email and phone for one stored user.
pub struct UserUpdate {
    pub name: String,
    pub email: String,
    pub phone: String,
}

/// The set of all users, keyed by id. Ids are unique; the order is the
/// order of insertion.
pub struct Registry {
    users: Vec<User>,
}

pub open spec fn user_views(v: Seq<User>) -> Seq<UserView> {
    v.map_values(|u: User| u@)
}

impl View for Registry {
    type V = Seq<UserView>;

    closed spec fn view(&self) -> Seq<UserView> {
        user_views(self.users@)
    }
}

/// No two records share an id.
pub open spec fn ids_distinct(s: Seq<UserView>) -> bool {
    forall|i: int, j: int| 0 <= i < s.len() && 0 <= j < s.len() && i != j ==> s[i].id != s[j].id
}

/// Some record has this id.
pub open spec fn has_id(s: Seq<UserView>, id: Seq<char>) -> bool {
    exists|i: int| 0 <= i < s.len() && s[i].id == id
}

/// The position of the record with this id (meaningful when `has_id`).
pub open spec fn index_of(s: Seq<UserView>, id: Seq<char>) -> int {
    choose|i: int| 0 <= i < s.len() && s[i].id == id
}

/// The record with this id (meaningful when `has_id`).
pub open spec fn record_of(s: Seq<UserView>, id: Seq<char>) -> UserView {
    s[index_of(s, id)]
}

/// The state after inserting `u`: unchanged when its id is taken.
pub open spec fn after_insert(s: Seq<UserView>, u: UserView) -> Seq<UserView> {
    if has_id(s, u.id) {
        s
    } else {
        s.push(u)
    }
}

/// The state after inserting each of `us` in turn.
pub open spec fn after_inserts(s: Seq<UserView>, us: Seq<UserView>) -> Seq<UserView>
    decreases us.len(),
{
    if us.len() == 0 {
        s
    } else {
        after_inserts(after_insert(s, us[0]), us.drop_first())
    }
}

/// How many of the inserts of `us`, in turn, succeed.
pub open spec fn successful_inserts(s: Seq<UserView>, us: Seq<UserView>) -> nat
    decreases us.len(),
{
    if us.len() == 0 {
        0
    } else {
        (if has_id(s, us[0].id) {
            0nat
        } else {
            1nat
        }) + successful_inserts(after_insert(s, us[0]), us.drop_first())
    }
}

/// A record with name, email and phone replaced.
pub open spec fn updated(u: UserView, name: Seq<char>, email: Seq<char>, phone: Seq<char>) -> UserView {
    UserView { name, email, phone, ..u }
}

impl Registry {
    pub open spec fn wf(&self) -> bool {
        ids_distinct(self@)
    }

    /// An empty registry.
    pub fn new() -> (r: Self)
        ensures
            r.wf(),
            r@ == Seq::<UserView>::empty(),
    {
        let r = Registry { users: Vec::new() };
        assert(r@ =~= Seq::<UserView>::empty());
        r
    }

    /// The position of the user with this id, if any.
    fn position(&self, id: &str) -> (r: Option<usize>)
        requires
            self.wf(),
        ensures
            r is None <==> !has_id(self@, id@),
            r matches Some(i) ==> i < self@.len() && self@[i as int].id == id@ && index_of(
                self@,
                id@,
            ) == i,
    {
        let mut i: usize = 0;
        while i < self.users.len()
            invariant
                self.wf(),
                i <= self.users@.len(),
                self@.len() == self.users@.len(),
                forall|j: int| 0 <= j < i ==> self@[j].id != id@,
            decreases self.users.len() - i,
        {
            let uid = self.users[i].get_user_id();
            if str_eq(uid, id) {
                assert(self@[i as int].id == id@);
                proof {
                    assert(has_id(self@, id@));
                    let k = index_of(self@, id@);
                    assert(self@[k].id == id@);
                    if k != i as int {
                        assert(self@[k].id != self@[i as int].id);
                    }
                }
                return Some(i);
            }
            i = i + 1;
        }
        None
    }

    /// Whether a user with this id is stored. Never fails.
    pub fn contains_id(&self, id: &str) -> (r: bool)
        requires
            self.wf(),
        ensures
            r == has_id(self@, id@),
    {
        self.position(id).is_some()
    }

    /// Adds a user. The uniqueness check and the addition are one step: when
    /// the id is taken the call fails with `DuplicateId` and nothing changes.
    pub fn insert(&mut self, user: User) -> (r: Result<(), RegistryError>)
        requires
            old(self).wf(),
        ensures
            final(self).wf(),
            r is Ok <==> !has_id(old(self)@, user@.id),
            r matches Err(e) ==> e == RegistryError::DuplicateId,
            final(self)@ == after_insert(old(self)@, user@),
    {
        if self.position(user.get_user_id()).is_some() {
            return Err(RegistryError::DuplicateId);
        }
        let ghost before = self@;
        self.users.push(user);
        assert(self@ =~= before.push(user@));
        Ok(())
    }

    /// A snapshot of the user with this id.
    pub fn find(&self, id: &str) -> (r: Result<User, RegistryError>)
        requires
            self.wf(),
        ensures
            r is Ok <==> has_id(self@, id@),
            r matches Err(e) ==> e == RegistryError::NotFound,
            r matches Ok(u) ==> u@ == record_of(self@, id@),
    {
        match self.position(id) {
            Some(i) => Ok(self.users[i].snapshot()),
            None => Err(RegistryError::NotFound),
        }
    }

    /// Applies a change of name, email and phone to the user with this id
    /// and returns the changed record. The email is lowercased, as by
    /// `User::update`. The lookup, the checks and the change
    /// are one step. On `NotFound` or a broken rule nothing changes.
    pub fn find_mut_and_apply(&mut self, id: &str, change: UserUpdate) -> (r: Result<
        User,
        RegistryError,
    >)
        requires
            old(self).wf(),
        ensures
            final(self).wf(),
            !has_id(old(self)@, id@) ==> r == Err::<User, RegistryError>(RegistryError::NotFound),
            has_id(old(self)@, id@) ==> (update_error(change.name@, lower_of(change.email@), change.phone@) matches Some(e)
                ==> r == Err::<User, RegistryError>(RegistryError::Invalid(e))),
            r is Ok <==> has_id(old(self)@, id@) && update_error(
                change.name@,
                lower_of(change.email@),
                change.phone@,
            ) is None,
            r is Err ==> final(self)@ == old(self)@,
            r matches Ok(u) ==> u@ == updated(
                record_of(old(self)@, id@),
                change.name@,
                lower_of(change.email@),
                change.phone@,
            ) && final(self)@ == old(self)@.update(index_of(old(self)@, id@), u@),
    {
        let i = match self.position(id) {
            Some(i) => i,
            None => {
                return Err(RegistryError::NotFound);
            },
        };
        let mut user = self.users[i].snapshot();
        match user.update(change.name, change.email, change.phone) {
            Ok(()) => {},
            Err(e) => {
                return Err(RegistryError::Invalid(e));
            },
        }
        let out = user.snapshot();
        let ghost before = self@;
        self.users.set(i, user);
        assert(self@ =~= before.update(i as int, out@));
        Ok(out)
    }

    /// Snapshots of all users, in the order of insertion.
    pub fn list(&self) -> (r: Vec<User>)
        ensures
            user_views(r@) == self@,
    {
        let mut r: Vec<User> = Vec::new();
        let mut i: usize = 0;
        while i < self.users.len()
            invariant
                i <= self.users@.len(),
                r@.len() == i,
                user_views(r@) == self@.subrange(0, i as int),
            decreases self.users.len() - i,
        {
            let u = self.users[i].snapshot();
            let ghost before = r@;
            r.push(u);
            assert(r@ == before.push(u));
            assert forall|j: int| 0 <= j < i ==> #[trigger] user_views(r@)[j] == user_views(
                before,
            )[j] by {}
            assert(user_views(r@) =~= self@.subrange(0, i + 1));
            i = i + 1;
        }
        assert(self@.subrange(0, self@.len() as int) =~= self@);
        r
    }

    /// Builds a registry from loaded records, in their order. Fails with
    /// `DuplicateId` when two records share an id.
    pub fn from_users(users: Vec<User>) -> (r: Result<Self, RegistryError>)
        ensures
            r is Ok <==> ids_distinct(user_views(users@)),
            r matches Err(e) ==> e == RegistryError::DuplicateId,
            r matches Ok(reg) ==> reg.wf() && reg@ == user_views(users@),
    {
        let ghost all = user_views(users@);
        let mut reg = Registry::new();
        let mut rest = users;
        let ghost mut k: int = 0;
        while rest.len() > 0
            invariant
                0 <= k <= all.len(),
                all == user_views(users@),
                reg.wf(),
                reg@ == all.subrange(0, k),
                rest@.len() == all.len() - k,
                user_views(rest@) == all.subrange(k, all.len() as int),
            decreases rest.len(),
        {
            let ghost before = rest@;
            let u = rest.remove(0);
            assert(user_views(before)[0] == all.subrange(k, all.len() as int)[0]);
            assert(u@ == all[k]);
            assert(user_views(rest@) =~= all.subrange(k + 1, all.len() as int)) by {
                assert(rest@ =~= before.drop_first());
                assert forall|j: int| 0 <= j < rest@.len() implies #[trigger] user_views(rest@)[j]
                    == all[k + 1 + j] by {
                    assert(user_views(before)[j + 1] == all.subrange(k, all.len() as int)[j + 1]);
                }
            }
            match reg.insert(u) {
                Ok(()) => {
                    proof {
                        assert(reg@ =~= all.subrange(0, k + 1));
                        k = k + 1;
                    }
                },
                Err(e) => {
                    proof {
                        let pre = all.subrange(0, k);
                        assert(has_id(pre, all[k].id));
                        let j = choose|j: int| 0 <= j < pre.len() && pre[j].id == all[k].id;
                        assert(all[j].id == all[k].id);
                        assert(!ids_distinct(all));
                    }
                    return Err(e);
                },
            }
        }
        assert(k == all.len());
        assert(all.subrange(0, k) =~= all);
        Ok(reg)
    }

    /// Takes the user with this id out, as when an insert is rolled back.
    pub fn remove(&mut self, id: &str) -> (r: Option<User>)
        requires
            old(self).wf(),
        ensures
            final(self).wf(),
            r is Some <==> has_id(old(self)@, id@),
            r matches Some(u) ==> u@ == record_of(old(self)@, id@) && final(self)@ == old(
                self,
            )@.remove(index_of(old(self)@, id@)),
            r is None ==> final(self)@ == old(self)@,
    {
        match self.position(id) {
            Some(i) => {
                let ghost before = self@;
                let u = self.users.remove(i);
                assert(self@ =~= before.remove(i as int));
                assert forall|a: int, b: int|
                    0 <= a < self@.len() && 0 <= b < self@.len() && a != b implies self@[a].id
                    != self@[b].id by {
                    let a2 = if a < i { a } else { a + 1 };
                    let b2 = if b < i { b } else { b + 1 };
                    assert(self@[a] == before[a2]);
                    assert(self@[b] == before[b2]);
                }
                Some(u)
            },
            None => None,
        }
    }

    /// Puts back a record over the stored one with the same id, as when a
    /// change is rolled back. Fails with `NotFound` when no record has its id.
    pub fn restore(&mut self, user: User) -> (r: Result<(), RegistryError>)
        requires
            old(self).wf(),
        ensures
            final(self).wf(),
            r is Ok <==> has_id(old(self)@, user@.id),
            r matches Err(e) ==> e == RegistryError::NotFound,
            r is Ok ==> final(self)@ == old(self)@.update(index_of(old(self)@, user@.id), user@),
            r is Err ==> final(self)@ == old(self)@,
    {
        match self.position(user.get_user_id()) {
            Some(i) => {
                let ghost before = self@;
                let ghost v = user@;
                self.users.set(i, user);
                assert(self@ =~= before.update(i as int, v));
                Ok(())
            },
            None => Err(RegistryError::NotFound),
        }
    }

    /// How many users are stored.
    pub fn len(&self) -> (r: usize)
        ensures
            r == self@.len(),
    {
        self.users.len()
    }
}

/// Inserting keeps ids unique.
pub proof fn lemma_insert_keeps_ids_distinct(s: Seq<UserView>, u: UserView)
    requires
        ids_distinct(s),
    ensures
        ids_distinct(after_insert(s, u)),
{
    if !has_id(s, u.id) {
        let t = s.push(u);
        assert forall|i: int, j: int|
            0 <= i < t.len() && 0 <= j < t.len() && i != j implies t[i].id != t[j].id by {
            if i == s.len() {
                assert(s[j].id == t[j].id);
            } else if j == s.len() {
                assert(s[i].id == t[i].id);
            }
        }
    }
}

/// An insert of `u` into state `s` succeeds.
pub open spec fn insert_succeeds(s: Seq<UserView>, u: UserView) -> bool {
    !has_id(s, u.id)
}

/// Two inserts of users that share an id, one after the other (the order in
/// which the exclusive section admits two concurrent calls): at most one
/// succeeds, and exactly one when the id was not stored before. Either way
/// no two stored records share an id afterwards.
pub proof fn lemma_same_id_inserts_exclusive(s: Seq<UserView>, a: UserView, b: UserView)
    requires
        ids_distinct(s),
        a.id == b.id,
    ensures
        !(insert_succeeds(s, a) && insert_succeeds(after_insert(s, a), b)),
        !has_id(s, a.id) ==> insert_succeeds(s, a) && !insert_succeeds(after_insert(s, a), b),
        ids_distinct(after_insert(after_insert(s, a), b)),
{
    if !has_id(s, a.id) {
        let t = s.push(a);
        assert(t[s.len() as int].id == b.id);
        assert(has_id(t, b.id));
    }
    lemma_insert_keeps_ids_distinct(s, a);
    lemma_insert_keeps_ids_distinct(after_insert(s, a), b);
}

/// After any sequence of inserts, the registry holds the records it held
/// before plus one per successful insert, and no two share an id. From an
/// empty registry, listing after N successful inserts gives exactly N
/// records with distinct ids.
pub proof fn lemma_inserts_counted(s: Seq<UserView>, us: Seq<UserView>)
    requires
        ids_distinct(s),
    ensures
        after_inserts(s, us).len() == s.len() + successful_inserts(s, us),
        ids_distinct(after_inserts(s, us)),
    decreases us.len(),
{
    if us.len() > 0 {
        lemma_insert_keeps_ids_distinct(s, us[0]);
        lemma_inserts_counted(after_insert(s, us[0]), us.drop_first());
    }
}

/// The effect of one call that may add a record: `Some(u)` when it added
/// `u`, `None` when it changed nothing.
pub open spec fn apply_step(s: Seq<UserView>, step: Option<UserView>) -> Seq<UserView> {
    match step {
        Some(u) => s.push(u),
        None => s,
    }
}

/// The state after a run of such calls.
pub open spec fn run_steps(s: Seq<UserView>, steps: Seq<Option<UserView>>) -> Seq<UserView>
    decreases steps.len(),
{
    if steps.len() == 0 {
        s
    } else {
        run_steps(apply_step(s, steps[0]), steps.drop_first())
    }
}

/// Every call of the run that added a record added one whose id was not
/// stored at that moment (as `insert` and `UserService::create_new_user`
/// guarantee).
pub open spec fn steps_fresh(s: Seq<UserView>, steps: Seq<Option<UserView>>) -> bool
    decreases steps.len(),
{
    if steps.len() == 0 {
        true
    } else {
        (match steps[0] {
            Some(u) => !has_id(s, u.id),
            None => true,
        }) && steps_fresh(apply_step(s, steps[0]), steps.drop_first())
    }
}

/// How many calls of the run added a record.
pub open spec fn added_count(steps: Seq<Option<UserView>>) -> nat
    decreases steps.len(),
{
    if steps.len() == 0 {
        0
    } else {
        (if steps[0] is Some {
            1nat
        } else {
            0nat
        }) + added_count(steps.drop_first())
    }
}

/// Whatever the order in which the exclusive section admits them, a run of
/// creates in which each call either added a record with a fresh id or
/// changed nothing leaves exactly one more record per successful call, and
/// no two records share an id. From an empty registry, N successful creates
/// leave N records with distinct ids, which is what listing returns.
pub proof fn lemma_successful_creates_counted(s: Seq<UserView>, steps: Seq<Option<UserView>>)
    requires
        ids_distinct(s),
        steps_fresh(s, steps),
    ensures
        run_steps(s, steps).len() == s.len() + added_count(steps),
        ids_distinct(run_steps(s, steps)),
    decreases steps.len(),
{
    if steps.len() > 0 {
        let t = apply_step(s, steps[0]);
        if let Some(u) = steps[0] {
            lemma_insert_keeps_ids_distinct(s, u);
            assert(after_insert(s, u) == t);
        }
        lemma_successful_creates_counted(t, steps.drop_first());
    }
}

/// Character-wise equality of two strings.
fn str_eq(a: &str, b: &str) -> (r: bool)
    ensures
        r == (a@ == b@),
{
    let n = a.unicode_len();
    if n != b.unicode_len() {
        return false;
    }
    let mut i: usize = 0;
    while i < n
        invariant
            n == a@.len(),
            n == b@.len(),
            i <= n,
            forall|j: int| 0 <= j < i ==> a@[j] == b@[j],
        decreases n - i,
    {
        if a.get_char(i) != b.get_char(i) {
            return false;
        }
        i = i + 1;
    }
    assert(a@ =~= b@);
    true
}

} // verus!
