//! In-memory key/user directory.

use vstd::prelude::*;
use crate::crypto::{decimal_string, decimal_text, unix_now};
use crate::errors::{DashboardError, DashboardResult};
use crate::models::user::{
    CreateUserDto, UpdateUserDto, User, UserCredentials, UserSession,
};

verus! {

/// A public key bound to the user it belongs to.
#[derive(Debug, Clone)]
pub struct KeyBinding {
    pub public_key: String,
    pub user_id: i64,
}

/// No key is bound twice.
pub open spec fn keys_unique(b: Seq<(Seq<char>, i64)>) -> bool {
    forall|i: int, j: int| 0 <= i < b.len() && 0 <= j < b.len() && i != j ==> b[i].0 != b[j].0
}

/// The key is bound to some user.
pub open spec fn is_bound(b: Seq<(Seq<char>, i64)>, k: Seq<char>) -> bool {
    exists|i: int| 0 <= i < b.len() && b[i].0 == k
}

/// Where the key is bound.
pub open spec fn key_index(b: Seq<(Seq<char>, i64)>, k: Seq<char>) -> int {
    choose|i: int| 0 <= i < b.len() && b[i].0 == k
}

/// The user a key is bound to.
pub open spec fn owner(b: Seq<(Seq<char>, i64)>, k: Seq<char>) -> Option<i64> {
    if is_bound(b, k) {
        Some(b[key_index(b, k)].1)
    } else {
        None
    }
}

/// The bindings after storing key `k` for user `u`: unchanged when `k` is
/// already `u`'s, appended when it is unbound, and `None` (refused) when it
/// belongs to another user.
pub open spec fn stored(b: Seq<(Seq<char>, i64)>, u: i64, k: Seq<char>) -> Option<
    Seq<(Seq<char>, i64)>,
> {
    match owner(b, k) {
        Some(v) => if v == u {
            Some(b)
        } else {
            None
        },
        None => Some(b.push((k, u))),
    }
}

/// The keys bound to user `u`, in the order they were bound.
pub open spec fn keys_of(b: Seq<(Seq<char>, i64)>, u: i64) -> Seq<Seq<char>>
    decreases b.len(),
{
    if b.len() == 0 {
        Seq::empty()
    } else {
        let rest = keys_of(b.drop_last(), u);
        if b.last().1 == u {
            rest.push(b.last().0)
        } else {
            rest
        }
    }
}

/// The bindings with those of user `u` taken out.
pub open spec fn without_user(b: Seq<(Seq<char>, i64)>, u: i64) -> Seq<(Seq<char>, i64)>
    decreases b.len(),
{
    if b.len() == 0 {
        Seq::empty()
    } else {
        let rest = without_user(b.drop_last(), u);
        if b.last().1 == u {
            rest
        } else {
            rest.push(b.last())
        }
    }
}

/// User ids are unique.
pub open spec fn ids_unique(s: Seq<User>) -> bool {
    forall|i: int, j: int| 0 <= i < s.len() && 0 <= j < s.len() && i != j ==> s[i].id != s[j].id
}

/// Emails are unique.
pub open spec fn emails_unique(s: Seq<User>) -> bool {
    forall|i: int, j: int|
        0 <= i < s.len() && 0 <= j < s.len() && i != j ==> s[i].email@ != s[j].email@
}

/// The user with the given id.
pub open spec fn user_by_id(s: Seq<User>, id: i64) -> Option<User> {
    if exists|i: int| 0 <= i < s.len() && s[i].id == id {
        Some(s[choose|i: int| 0 <= i < s.len() && s[i].id == id])
    } else {
        None
    }
}

/// The user with the given email.
pub open spec fn user_by_email(s: Seq<User>, e: Seq<char>) -> Option<User> {
    if exists|i: int| 0 <= i < s.len() && s[i].email@ == e {
        Some(s[choose|i: int| 0 <= i < s.len() && s[i].email@ == e])
    } else {
        None
    }
}

proof fn lemma_owner_at(b: Seq<(Seq<char>, i64)>, k: Seq<char>, i: int)
    requires
        keys_unique(b),
        0 <= i < b.len(),
        b[i].0 == k,
    ensures
        key_index(b, k) == i,
        owner(b, k) == Some(b[i].1),
{
}

proof fn lemma_user_at(s: Seq<User>, i: int)
    requires
        ids_unique(s),
        emails_unique(s),
        0 <= i < s.len(),
    ensures
        user_by_id(s, s[i].id) == Some(s[i]),
        user_by_email(s, s[i].email@) == Some(s[i]),
{
    let j = choose|j: int| 0 <= j < s.len() && s[j].id == s[i].id;
    assert(j == i);
    let m = choose|j: int| 0 <= j < s.len() && s[j].email@ == s[i].email@;
    assert(m == i);
}

/// Appending an unbound key keeps keys unique and binds it to its user.
pub proof fn lemma_push_unique(b: Seq<(Seq<char>, i64)>, k: Seq<char>, u: i64)
    requires
        keys_unique(b),
        !is_bound(b, k),
    ensures
        keys_unique(b.push((k, u))),
        owner(b.push((k, u)), k) == Some(u),
{
    let nb = b.push((k, u));
    assert forall|i: int, j: int| 0 <= i < nb.len() && 0 <= j < nb.len() && i != j implies nb[i].0
        != nb[j].0 by {
        if i == b.len() {
            assert(nb[j] == b[j]);
        } else if j == b.len() {
            assert(nb[i] == b[i]);
        } else {
            assert(nb[i] == b[i] && nb[j] == b[j]);
        }
    }
    lemma_owner_at(nb, k, b.len() as int);
}

/// Appending a new key leaves the owners of the other keys as they were.
pub proof fn lemma_push_keeps_owners(b: Seq<(Seq<char>, i64)>, k: Seq<char>, u: i64, k2: Seq<char>)
    requires
        keys_unique(b),
        !is_bound(b, k),
        k2 != k,
    ensures
        owner(b.push((k, u)), k2) == owner(b, k2),
{
    let nb = b.push((k, u));
    lemma_push_unique(b, k, u);
    if is_bound(b, k2) {
        let x = choose|x: int| 0 <= x < b.len() && b[x].0 == k2;
        assert(nb[x] == b[x]);
        lemma_owner_at(b, k2, x);
        lemma_owner_at(nb, k2, x);
    } else if is_bound(nb, k2) {
        let x = choose|x: int| 0 <= x < nb.len() && nb[x].0 == k2;
        assert(nb[x] == b[x]);
    }
}

proof fn lemma_remove_unique(b: Seq<(Seq<char>, i64)>, i: int)
    requires
        keys_unique(b),
        0 <= i < b.len(),
    ensures
        keys_unique(b.remove(i)),
        !is_bound(b.remove(i), b[i].0),
{
    let nb = b.remove(i);
    assert forall|x: int, y: int| 0 <= x < nb.len() && 0 <= y < nb.len() && x != y implies nb[x].0
        != nb[y].0 by {
        let bx = if x < i { x } else { x + 1 };
        let by_ = if y < i { y } else { y + 1 };
        assert(nb[x] == b[bx] && nb[y] == b[by_]);
    }
    if is_bound(nb, b[i].0) {
        let x = choose|x: int| 0 <= x < nb.len() && nb[x].0 == b[i].0;
        let bx = if x < i { x } else { x + 1 };
        assert(nb[x] == b[bx]);
    }
}

proof fn lemma_without_user(b: Seq<(Seq<char>, i64)>, u: i64)
    requires
        keys_unique(b),
    ensures
        keys_unique(without_user(b, u)),
        forall|x: int|
            0 <= x < without_user(b, u).len() ==> exists|y: int|
                0 <= y < b.len() && b[y] == #[trigger] without_user(b, u)[x],
        forall|x: int| 0 <= x < without_user(b, u).len() ==> #[trigger] without_user(b, u)[x].1 != u,
    decreases b.len(),
{
    if b.len() > 0 {
        let d = b.drop_last();
        assert(keys_unique(d)) by {
            assert forall|i: int, j: int| 0 <= i < d.len() && 0 <= j < d.len() && i != j implies d[i].0
                != d[j].0 by {
                assert(d[i] == b[i] && d[j] == b[j]);
            }
        }
        lemma_without_user(d, u);
        let rest = without_user(d, u);
        if b.last().1 != u {
            let nb = rest.push(b.last());
            assert forall|x: int| 0 <= x < nb.len() implies exists|y: int|
                0 <= y < b.len() && b[y] == #[trigger] nb[x] by {
                if x == rest.len() {
                    assert(b[b.len() - 1] == nb[x]);
                } else {
                    assert(nb[x] == rest[x]);
                    let y = choose|y: int| 0 <= y < d.len() && d[y] == rest[x];
                    assert(b[y] == nb[x]);
                }
            }
            assert forall|i: int, j: int| 0 <= i < nb.len() && 0 <= j < nb.len() && i != j implies nb[i].0
                != nb[j].0 by {
                if i == rest.len() {
                    assert(nb[j] == rest[j]);
                    let y = choose|y: int| 0 <= y < d.len() && d[y] == rest[j];
                    assert(b[y] == rest[j]);
                } else if j == rest.len() {
                    assert(nb[i] == rest[i]);
                    let y = choose|y: int| 0 <= y < d.len() && d[y] == rest[i];
                    assert(b[y] == rest[i]);
                } else {
                    assert(nb[i] == rest[i] && nb[j] == rest[j]);
                }
            }
            assert forall|x: int| 0 <= x < nb.len() implies #[trigger] nb[x].1 != u by {
                if x < rest.len() {
                    assert(nb[x] == rest[x]);
                }
            }
        }
    }
}

/// The latest credentials stored for a user.
pub open spec fn credentials_of(s: Seq<UserCredentials>, user_id: i64) -> Option<UserCredentials>
    decreases s.len(),
{
    if s.len() == 0 {
        None
    } else if s.last().user_id == user_id {
        Some(s.last())
    } else {
        credentials_of(s.drop_last(), user_id)
    }
}

/// The latest login session stored under an id.
pub open spec fn session_by_id(s: Seq<UserSession>, id: Seq<char>) -> Option<UserSession>
    decreases s.len(),
{
    if s.len() == 0 {
        None
    } else if s.last().id@ == id {
        Some(s.last())
    } else {
        session_by_id(s.drop_last(), id)
    }
}

/// Where the user with the given id stands.
pub open spec fn user_index(s: Seq<User>, id: i64) -> int {
    choose|i: int| 0 <= i < s.len() && s[i].id == id
}

/// A user with a profile change applied.
pub open spec fn updated(u: User, c: UpdateUserDto) -> User {
    User {
        email: match c.email {
            Some(e) => e,
            None => u.email,
        },
        username: match c.username {
            Some(n) => n,
            None => u.username,
        },
        wallet_address: match c.wallet_address {
            Some(w) => Some(w),
            None => u.wallet_address,
        },
        ..u
    }
}

/// Text of the error for a missing user.
pub open spec fn user_not_found_text(id: i64) -> Seq<char> {
    "User with ID "@ + decimal_text(id as int) + " not found"@
}

/// Storing a key twice for the same user succeeds both times and the second
/// time changes nothing, so the key is bound once; storing it afterwards for
/// another user is refused.
pub proof fn lemma_store_idempotent(b: Seq<(Seq<char>, i64)>, u: i64, v: i64, k: Seq<char>)
    requires
        keys_unique(b),
        stored(b, u, k) is Some,
        v != u,
    ensures
        keys_unique(stored(b, u, k).unwrap()),
        owner(stored(b, u, k).unwrap(), k) == Some(u),
        stored(stored(b, u, k).unwrap(), u, k) == stored(b, u, k),
        stored(stored(b, u, k).unwrap(), v, k) is None,
{
    if owner(b, k) is None {
        lemma_push_unique(b, k, u);
    }
}

/// In-memory implementation of the key/user directory.
pub struct InMemoryUserStorage {
    users: Vec<User>,
    credentials: Vec<UserCredentials>,
    sessions: Vec<UserSession>,
    public_keys: Vec<KeyBinding>,
    next_id: i64,
}

impl InMemoryUserStorage {
    /// The key bindings, in the order they were made.
    pub closed spec fn bindings(&self) -> Seq<(Seq<char>, i64)> {
        self.public_keys@.map_values(|x: KeyBinding| (x.public_key@, x.user_id))
    }

    /// The stored users, in the order they were created.
    pub closed spec fn user_list(&self) -> Seq<User> {
        self.users@
    }

    /// The stored credentials.
    pub closed spec fn credential_list(&self) -> Seq<UserCredentials> {
        self.credentials@
    }

    /// The stored login sessions.
    pub closed spec fn session_list(&self) -> Seq<UserSession> {
        self.sessions@
    }

    /// The id the next created user gets.
    pub closed spec fn next_user_id(&self) -> i64 {
        self.next_id
    }

    /// The directory's invariant: keys, user ids and emails are unique, and
    /// every user id lies below the next one.
    pub closed spec fn wf(&self) -> bool {
        &&& keys_unique(self.bindings())
        &&& ids_unique(self.users@)
        &&& emails_unique(self.users@)
        &&& 1 <= self.next_id
        &&& forall|i: int| 0 <= i < self.users@.len() ==> #[trigger] self.users@[i].id < self.next_id
    }

    /// A well-formed directory binds each key once.
    pub proof fn lemma_keys_unique(&self)
        requires
            self.wf(),
        ensures
            keys_unique(self.bindings()),
    {
    }

    /// A well-formed directory has unique user ids and emails.
    pub proof fn lemma_users_unique(&self)
        requires
            self.wf(),
        ensures
            ids_unique(self.user_list()),
            emails_unique(self.user_list()),
    {
    }

    /// An empty directory.
    pub fn new() -> (r: Self)
        ensures
            r.wf(),
            r.bindings() == Seq::<(Seq<char>, i64)>::empty(),
            r.user_list() == Seq::<User>::empty(),
            r.credential_list() == Seq::<UserCredentials>::empty(),
            r.session_list() == Seq::<UserSession>::empty(),
            r.next_user_id() == 1,
    {
        let r = InMemoryUserStorage {
            users: Vec::new(),
            credentials: Vec::new(),
            sessions: Vec::new(),
            public_keys: Vec::new(),
            next_id: 1,
        };
        assert(r.bindings() =~= Seq::<(Seq<char>, i64)>::empty());
        r
    }

    fn key_position(&self, k: &String) -> (r: Option<usize>)
        requires
            self.wf(),
        ensures
            r matches Some(i) ==> i < self.bindings().len() && self.bindings()[i as int].0 == k@
                && owner(self.bindings(), k@) == Some(self.bindings()[i as int].1),
            r is None ==> !is_bound(self.bindings(), k@) && owner(self.bindings(), k@) is None,
    {
        let mut i: usize = 0;
        while i < self.public_keys.len()
            invariant
                self.wf(),
                i <= self.public_keys@.len(),
                self.bindings().len() == self.public_keys@.len(),
                forall|j: int| 0 <= j < i ==> self.bindings()[j].0 != k@,
            decreases self.public_keys@.len() - i,
        {
            assert(self.bindings()[i as int] == (self.public_keys@[i as int].public_key@, self.public_keys@[i as int].user_id));
            if self.public_keys[i].public_key == *k {
                proof {
                    lemma_owner_at(self.bindings(), k@, i as int);
                }
                return Some(i);
            }
            i = i + 1;
        }
        None
    }

    fn user_position(&self, id: i64) -> (r: Option<usize>)
        requires
            self.wf(),
        ensures
            r matches Some(i) ==> i < self.user_list().len() && self.user_list()[i as int].id == id
                && user_by_id(self.user_list(), id) == Some(self.user_list()[i as int]),
            r is None ==> user_by_id(self.user_list(), id) is None,
    {
        let mut i: usize = 0;
        while i < self.users.len()
            invariant
                self.wf(),
                i <= self.users@.len(),
                forall|j: int| 0 <= j < i ==> self.users@[j].id != id,
            decreases self.users@.len() - i,
        {
            if self.users[i].id == id {
                proof {
                    lemma_user_at(self.users@, i as int);
                }
                return Some(i);
            }
            i = i + 1;
        }
        None
    }

    fn email_position(&self, email: &String) -> (r: Option<usize>)
        requires
            self.wf(),
        ensures
            r matches Some(i) ==> i < self.user_list().len() && self.user_list()[i as int].email@
                == email@ && user_by_email(self.user_list(), email@) == Some(
                self.user_list()[i as int],
            ),
            r is None ==> user_by_email(self.user_list(), email@) is None,
    {
        let mut i: usize = 0;
        while i < self.users.len()
            invariant
                self.wf(),
                i <= self.users@.len(),
                forall|j: int| 0 <= j < i ==> self.users@[j].email@ != email@,
            decreases self.users@.len() - i,
        {
            if self.users[i].email == *email {
                proof {
                    lemma_user_at(self.users@, i as int);
                }
                return Some(i);
            }
            i = i + 1;
        }
        None
    }

    /// How many login sessions are stored.
    pub fn session_count(&self) -> (r: usize)
        ensures
            r == self.session_list().len(),
    {
        self.sessions.len()
    }

    /// Find a user by id.
    pub fn find_user_by_id(&self, id: i64) -> (r: DashboardResult<Option<User>>)
        requires
            self.wf(),
        ensures
            r == Ok::<Option<User>, DashboardError>(user_by_id(self.user_list(), id)),
    {
        match self.user_position(id) {
            Some(i) => Ok(Some(self.users[i].copied())),
            None => Ok(None),
        }
    }

    /// Find a user by email.
    pub fn find_user_by_email(&self, email: &str) -> (r: DashboardResult<Option<User>>)
        requires
            self.wf(),
        ensures
            r == Ok::<Option<User>, DashboardError>(user_by_email(self.user_list(), email@)),
    {
        let e = email.to_owned();
        match self.email_position(&e) {
            Some(i) => Ok(Some(self.users[i].copied())),
            None => Ok(None),
        }
    }

    /// Find the user that a public key is bound to.
    pub fn find_user_by_public_key(&self, public_key: &str) -> (r: DashboardResult<Option<User>>)
        requires
            self.wf(),
        ensures
            r == Ok::<Option<User>, DashboardError>(
                match owner(self.bindings(), public_key@) {
                    Some(u) => user_by_id(self.user_list(), u),
                    None => None,
                },
            ),
    {
        let k = public_key.to_owned();
        match self.key_position(&k) {
            Some(i) => self.find_user_by_id(self.public_keys[i].user_id),
            None => Ok(None),
        }
    }

    /// Bind a public key to a user. Binding a key that is already the user's
    /// changes nothing; a key of another user is refused.
    pub fn store_public_key(&mut self, user_id: i64, public_key: &str) -> (r: DashboardResult<()>)
        requires
            old(self).wf(),
        ensures
            final(self).wf(),
            final(self).user_list() == old(self).user_list(),
            final(self).credential_list() == old(self).credential_list(),
            final(self).session_list() == old(self).session_list(),
            final(self).next_user_id() == old(self).next_user_id(),
            match stored(old(self).bindings(), user_id, public_key@) {
                Some(b) => r is Ok && final(self).bindings() == b,
                None => final(self).bindings() == old(self).bindings() && (r matches Err(
                    DashboardError::Validation(m),
                ) && m@ == "Public key already associated with another user"@),
            },
    {
        let k = public_key.to_owned();
        match self.key_position(&k) {
            Some(i) => {
                if self.public_keys[i].user_id != user_id {
                    return Err(
                        DashboardError::Validation(
                            "Public key already associated with another user".to_owned(),
                        ),
                    );
                }
                Ok(())
            },
            None => {
                proof {
                    lemma_push_unique(self.bindings(), k@, user_id);
                }
                self.public_keys.push(KeyBinding { public_key: k, user_id });
                assert(self.bindings() =~= old(self).bindings().push((public_key@, user_id)));
                Ok(())
            },
        }
    }

    /// Revoke a user's public key. `Ok(true)` when the key was the user's
    /// and is now unbound, `Ok(false)` when it was not bound at all; a key of
    /// another user is refused.
    pub fn revoke_public_key(&mut self, user_id: i64, public_key: &str) -> (r: DashboardResult<bool>)
        requires
            old(self).wf(),
        ensures
            final(self).wf(),
            final(self).user_list() == old(self).user_list(),
            final(self).credential_list() == old(self).credential_list(),
            final(self).session_list() == old(self).session_list(),
            final(self).next_user_id() == old(self).next_user_id(),
            match owner(old(self).bindings(), public_key@) {
                Some(v) => if v == user_id {
                    r == Ok::<bool, DashboardError>(true) && final(self).bindings()
                        == old(self).bindings().remove(key_index(old(self).bindings(), public_key@))
                        && owner(final(self).bindings(), public_key@) is None
                } else {
                    final(self).bindings() == old(self).bindings() && (r matches Err(
                        DashboardError::Validation(m),
                    ) && m@ == "Public key belongs to another user"@)
                },
                None => r == Ok::<bool, DashboardError>(false) && final(self).bindings()
                    == old(self).bindings(),
            },
    {
        let k = public_key.to_owned();
        match self.key_position(&k) {
            Some(i) => {
                if self.public_keys[i].user_id != user_id {
                    return Err(
                        DashboardError::Validation("Public key belongs to another user".to_owned()),
                    );
                }
                proof {
                    lemma_owner_at(self.bindings(), k@, i as int);
                    lemma_remove_unique(self.bindings(), i as int);
                }
                self.public_keys.remove(i);
                assert(self.bindings() =~= old(self).bindings().remove(i as int));
                Ok(true)
            },
            None => Ok(false),
        }
    }

    /// The public keys of a user, in the order they were bound.
    pub fn get_public_keys_for_user(&self, user_id: i64) -> (r: DashboardResult<Vec<String>>)
        requires
            self.wf(),
        ensures
            r matches Ok(v) && v@.map_values(|s: String| s@) == keys_of(self.bindings(), user_id),
    {
        let mut out: Vec<String> = Vec::new();
        let mut i: usize = 0;
        while i < self.public_keys.len()
            invariant
                i <= self.public_keys@.len(),
                self.bindings().len() == self.public_keys@.len(),
                out@.map_values(|s: String| s@) == keys_of(self.bindings().take(i as int), user_id),
            decreases self.public_keys@.len() - i,
        {
            let ghost b = self.bindings();
            assert(b.take(i + 1).drop_last() =~= b.take(i as int));
            assert(b.take(i + 1).last() == b[i as int]);
            if self.public_keys[i].user_id == user_id {
                out.push(self.public_keys[i].public_key.clone());
                assert(out@.map_values(|s: String| s@) =~= keys_of(b.take(i as int), user_id).push(
                    b[i as int].0,
                ));
            }
            i = i + 1;
        }
        assert(self.bindings().take(self.public_keys@.len() as int) =~= self.bindings());
        Ok(out)
    }

    /// Record that a key was used. The in-memory directory keeps no usage
    /// times, so nothing changes.
    pub fn update_public_key_last_used(&self, user_id: i64, public_key: &str) -> (r: DashboardResult<()>)
        ensures
            r is Ok,
    {
        Ok(())
    }

    /// Create a user with the next free id. A taken email is refused, and so
    /// is creation once the id space is used up.
    pub fn create_user(&mut self, user: CreateUserDto) -> (r: DashboardResult<User>)
        requires
            old(self).wf(),
        ensures
            final(self).wf(),
            final(self).bindings() == old(self).bindings(),
            final(self).credential_list() == old(self).credential_list(),
            final(self).session_list() == old(self).session_list(),
            user_by_email(old(self).user_list(), user.email@) is Some ==> *final(self) == *old(self)
                && (r matches Err(DashboardError::Validation(m)) && m@ == "Email "@ + user.email@
                + " is already in use"@),
            user_by_email(old(self).user_list(), user.email@) is None && old(self).next_user_id()
                == i64::MAX ==> *final(self) == *old(self) && r matches Err(
                DashboardError::InternalServer(_),
            ),
            user_by_email(old(self).user_list(), user.email@) is None && old(self).next_user_id()
                < i64::MAX ==> (r matches Ok(u) && u.id == old(self).next_user_id() && u.email
                == user.email && u.username == user.username && u.wallet_address
                == user.wallet_address && u.created_at == u.last_active && final(self).user_list()
                == old(self).user_list().push(u) && final(self).next_user_id() == old(
                self,
            ).next_user_id() + 1),
    {
        if let Some(_) = self.email_position(&user.email) {
            let message = "Email ".to_owned().concat(user.email.as_str()).concat(" is already in use");
            return Err(DashboardError::Validation(message));
        }
        if self.next_id == i64::MAX {
            return Err(DashboardError::InternalServer("User id space exhausted".to_owned()));
        }
        let id = self.next_id;
        let now = unix_now();
        let u = User {
            id,
            email: user.email,
            username: user.username,
            wallet_address: user.wallet_address,
            created_at: now,
            last_active: now,
        };
        let ghost old_users = self.users@;
        proof {
            assert forall|j: int| 0 <= j < old_users.len() implies old_users[j].email@ != u.email@ by {
                if old_users[j].email@ == u.email@ {
                    assert(exists|i: int| 0 <= i < old_users.len() && old_users[i].email@ == u.email@);
                }
            }
        }
        self.users.push(u.copied());
        self.next_id = id + 1;
        proof {
            let s = self.users@;
            assert(s == old_users.push(u));
            assert forall|i: int, j: int| 0 <= i < s.len() && 0 <= j < s.len() && i != j implies s[i].id
                != s[j].id && s[i].email@ != s[j].email@ by {
                if i == old_users.len() {
                    assert(old_users[j].id < id);
                } else if j == old_users.len() {
                    assert(old_users[i].id < id);
                }
            }
        }
        Ok(u)
    }

    /// Put a user with a given id into the directory, as seeding does: the
    /// id and email must be free, and the next id moves past it.
    pub fn seed_user(&mut self, user: User) -> (r: DashboardResult<()>)
        requires
            old(self).wf(),
        ensures
            final(self).wf(),
            final(self).bindings() == old(self).bindings(),
            user_by_id(old(self).user_list(), user.id) is None && user_by_email(
                old(self).user_list(),
                user.email@,
            ) is None && user.id < i64::MAX ==> r is Ok
                && final(self).user_list() == old(self).user_list().push(user),
            !(user_by_id(old(self).user_list(), user.id) is None && user_by_email(
                old(self).user_list(),
                user.email@,
            ) is None && user.id < i64::MAX) ==> r is Err && *final(self) == *old(self),
    {
        if self.user_position(user.id).is_some() || self.email_position(&user.email).is_some()
            || user.id == i64::MAX {
            return Err(DashboardError::validation("User id or email already in use"));
        }
        let ghost old_users = self.users@;
        proof {
            assert forall|j: int| 0 <= j < old_users.len() implies old_users[j].email@ != user.email@
                && old_users[j].id != user.id by {
                if old_users[j].email@ == user.email@ {
                    assert(exists|i: int| 0 <= i < old_users.len() && old_users[i].email@ == user.email@);
                }
                if old_users[j].id == user.id {
                    assert(exists|i: int| 0 <= i < old_users.len() && old_users[i].id == user.id);
                }
            }
        }
        let id = user.id;
        self.users.push(user);
        if self.next_id <= id {
            self.next_id = id + 1;
        }
        proof {
            let s = self.users@;
            assert forall|i: int, j: int| 0 <= i < s.len() && 0 <= j < s.len() && i != j implies s[i].id
                != s[j].id && s[i].email@ != s[j].email@ by {
                if i == old_users.len() {
                    assert(s[j] == old_users[j]);
                } else if j == old_users.len() {
                    assert(s[i] == old_users[i]);
                } else {
                    assert(s[i] == old_users[i] && s[j] == old_users[j]);
                }
            }
        }
        Ok(())
    }

    /// Apply a profile change. A missing user is not found; a new email that
    /// another user has is refused.
    pub fn update_user(&mut self, id: i64, update: UpdateUserDto) -> (r: DashboardResult<User>)
        requires
            old(self).wf(),
        ensures
            final(self).wf(),
            final(self).bindings() == old(self).bindings(),
            user_by_id(old(self).user_list(), id) is None ==> *final(self) == *old(self) && (r matches Err(
                DashboardError::NotFound(m),
            ) && m@ == user_not_found_text(id)),
            user_by_id(old(self).user_list(), id) matches Some(u) ==> match update.email {
                Some(e) if e@ != u.email@ && user_by_email(old(self).user_list(), e@) is Some =>
                    *final(self) == *old(self) && (r matches Err(DashboardError::Validation(m)) && m@ == "Email "@
                    + e@ + " is already in use"@),
                _ => r == Ok::<User, DashboardError>(updated(u, update)) && final(self).user_list()
                    == old(self).user_list().update(
                    user_index(old(self).user_list(), id),
                    updated(u, update),
                ),
            },
    {
        let i = match self.user_position(id) {
            Some(i) => i,
            None => {
                let m = "User with ID ".to_owned().concat(decimal_string(id as i128).as_str()).concat(
                    " not found",
                );
                return Err(DashboardError::NotFound(m));
            },
        };
        proof {
            lemma_user_at(self.users@, i as int);
        }
        let ghost u = self.users@[i as int];
        let ghost old_users = self.users@;
        if let Some(e) = &update.email {
            if *e != self.users[i].email && self.email_position(e).is_some() {
                let m = "Email ".to_owned().concat(e.as_str()).concat(" is already in use");
                return Err(DashboardError::Validation(m));
            }
        }
        let mut user = self.users[i].copied();
        match update.email {
            Some(e) => {
                user.email = e;
            },
            None => {},
        }
        match update.username {
            Some(n) => {
                user.username = n;
            },
            None => {},
        }
        match update.wallet_address {
            Some(w) => {
                user.wallet_address = Some(w);
            },
            None => {},
        }
        proof {
            assert forall|j: int| 0 <= j < old_users.len() && j != i implies old_users[j].email@
                != user.email@ by {
                if old_users[j].email@ == user.email@ && user.email@ != u.email@ {
                    assert(exists|k: int| 0 <= k < old_users.len() && old_users[k].email@ == user.email@);
                }
            }
        }
        self.users.set(i, user.copied());
        proof {
            let s = self.users@;
            assert forall|a: int, b: int| 0 <= a < s.len() && 0 <= b < s.len() && a != b implies s[a].id
                != s[b].id && s[a].email@ != s[b].email@ by {
                if a == i {
                    assert(s[b] == old_users[b]);
                } else if b == i {
                    assert(s[a] == old_users[a]);
                } else {
                    assert(s[a] == old_users[a] && s[b] == old_users[b]);
                }
            }
            assert forall|k: int| 0 <= k < s.len() implies #[trigger] s[k].id < self.next_id by {
                if k != i {
                    assert(s[k] == old_users[k]);
                }
            }
        }
        Ok(user)
    }

    /// Mark a user active at the current time.
    pub fn update_last_active(&mut self, user_id: i64) -> (r: DashboardResult<()>)
        requires
            old(self).wf(),
        ensures
            final(self).wf(),
            final(self).bindings() == old(self).bindings(),
            user_by_id(old(self).user_list(), user_id) is None ==> *final(self) == *old(self) && (r matches Err(
                DashboardError::NotFound(m),
            ) && m@ == user_not_found_text(user_id)),
            user_by_id(old(self).user_list(), user_id) matches Some(u) ==> r is Ok && exists|t: i64|
                final(self).user_list() == old(self).user_list().update(
                    user_index(old(self).user_list(), user_id),
                    (User { last_active: t, ..u }),
                ),
    {
        let i = match self.user_position(user_id) {
            Some(i) => i,
            None => {
                let m = "User with ID ".to_owned().concat(decimal_string(user_id as i128).as_str()).concat(
                    " not found",
                );
                return Err(DashboardError::NotFound(m));
            },
        };
        proof {
            lemma_user_at(self.users@, i as int);
        }
        let ghost old_users = self.users@;
        let mut user = self.users[i].copied();
        let now = unix_now();
        user.last_active = now;
        self.users.set(i, user);
        proof {
            let s = self.users@;
            assert(s == old_users.update(i as int, User { last_active: now, ..old_users[i as int] }));
            assert(user_index(old_users, user_id) == i);
            assert forall|a: int, b: int| 0 <= a < s.len() && 0 <= b < s.len() && a != b implies s[a].id
                != s[b].id && s[a].email@ != s[b].email@ by {
                if a == i {
                    assert(s[b] == old_users[b]);
                } else if b == i {
                    assert(s[a] == old_users[a]);
                } else {
                    assert(s[a] == old_users[a] && s[b] == old_users[b]);
                }
            }
            assert forall|k: int| 0 <= k < s.len() implies #[trigger] s[k].id < self.next_id by {
                if k != i {
                    assert(s[k] == old_users[k]);
                }
            }
        }
        Ok(())
    }

    /// Store credentials for a user; they replace any earlier ones.
    pub fn store_credentials(&mut self, user_id: i64, password_hash: &str, salt: &str) -> (r:
        DashboardResult<()>)
        requires
            old(self).wf(),
        ensures
            final(self).wf(),
            r is Ok,
            final(self).bindings() == old(self).bindings(),
            final(self).user_list() == old(self).user_list(),
            credentials_of(final(self).credential_list(), user_id) matches Some(c) && c.user_id
                == user_id && c.password_hash@ == password_hash@ && c.salt@ == salt@,
            forall|other: i64|
                other != user_id ==> credentials_of(final(self).credential_list(), other)
                    == credentials_of(old(self).credential_list(), other),
    {
        let c = UserCredentials {
            user_id,
            password_hash: password_hash.to_owned(),
            salt: salt.to_owned(),
            updated_at: unix_now(),
        };
        let ghost old_c = self.credentials@;
        self.credentials.push(c);
        assert(self.credentials@.drop_last() == old_c);
        Ok(())
    }

    /// The latest credentials of a user.
    pub fn get_credentials(&self, user_id: i64) -> (r: DashboardResult<Option<UserCredentials>>)
        ensures
            r == Ok::<Option<UserCredentials>, DashboardError>(
                credentials_of(self.credential_list(), user_id),
            ),
    {
        let mut i: usize = self.credentials.len();
        assert(self.credentials@.take(i as int) =~= self.credentials@);
        while i > 0
            invariant
                i <= self.credentials@.len(),
                credentials_of(self.credentials@, user_id) == credentials_of(
                    self.credentials@.take(i as int),
                    user_id,
                ),
            decreases i,
        {
            let ghost t = self.credentials@.take(i as int);
            assert(t.drop_last() =~= self.credentials@.take(i - 1));
            assert(t.last() == self.credentials@[i - 1]);
            if self.credentials[i - 1].user_id == user_id {
                return Ok(Some(self.credentials[i - 1].copied()));
            }
            i = i - 1;
        }
        Ok(None)
    }

    /// Store a login session under the id the caller drew for it.
    pub fn create_session(
        &mut self,
        id: String,
        user_id: i64,
        ip_address: &str,
        user_agent: &str,
        expires_in_seconds: i64,
    ) -> (r: DashboardResult<UserSession>)
        requires
            old(self).wf(),
        ensures
            final(self).wf(),
            final(self).bindings() == old(self).bindings(),
            final(self).user_list() == old(self).user_list(),
            r matches Ok(s) ==> s.id == id && s.user_id == user_id && s.ip_address@ == ip_address@
                && s.user_agent@ == user_agent@ && s.expires_at == s.created_at + expires_in_seconds
                && final(self).session_list() == old(self).session_list().push(s),
            r is Err ==> *final(self) == *old(self) && (r matches Err(DashboardError::Validation(m))
                && m@ == "Session expiry out of range"@),
    {
        let now = unix_now();
        let expires_at = match now.checked_add(expires_in_seconds) {
            Some(t) => t,
            None => {
                return Err(DashboardError::validation("Session expiry out of range"));
            },
        };
        let s = UserSession {
            id,
            user_id,
            created_at: now,
            expires_at,
            ip_address: ip_address.to_owned(),
            user_agent: user_agent.to_owned(),
        };
        self.sessions.push(s.copied());
        Ok(s)
    }

    /// The login session stored under an id.
    pub fn find_session_by_id(&self, session_id: &str) -> (r: DashboardResult<Option<UserSession>>)
        ensures
            r == Ok::<Option<UserSession>, DashboardError>(
                session_by_id(self.session_list(), session_id@),
            ),
    {
        let key = session_id.to_owned();
        let mut i: usize = self.sessions.len();
        assert(self.sessions@.take(i as int) =~= self.sessions@);
        while i > 0
            invariant
                key@ == session_id@,
                i <= self.sessions@.len(),
                session_by_id(self.sessions@, key@) == session_by_id(
                    self.sessions@.take(i as int),
                    key@,
                ),
            decreases i,
        {
            let ghost t = self.sessions@.take(i as int);
            assert(t.drop_last() =~= self.sessions@.take(i - 1));
            assert(t.last() == self.sessions@[i - 1]);
            if self.sessions[i - 1].id == key {
                return Ok(Some(self.sessions[i - 1].copied()));
            }
            i = i - 1;
        }
        Ok(None)
    }

    /// Remove every session stored under an id; whether there was one.
    pub fn delete_session(&mut self, session_id: &str) -> (r: DashboardResult<bool>)
        requires
            old(self).wf(),
        ensures
            final(self).wf(),
            final(self).bindings() == old(self).bindings(),
            final(self).user_list() == old(self).user_list(),
            final(self).session_list() == old(self).session_list().filter(
                |s: UserSession| s.id@ != session_id@,
            ),
            r == Ok::<bool, DashboardError>(session_by_id(old(self).session_list(), session_id@) is Some),
    {
        let key = session_id.to_owned();
        let ghost pred = |s: UserSession| s.id@ != key@;
        let mut kept: Vec<UserSession> = Vec::new();
        let mut i: usize = 0;
        let mut found = false;
        while i < self.sessions.len()
            invariant
                i <= self.sessions@.len(),
                pred == (|s: UserSession| s.id@ != key@),
                kept@ == self.sessions@.take(i as int).filter(pred),
                found == (session_by_id(self.sessions@.take(i as int), key@) is Some),
            decreases self.sessions@.len() - i,
        {
            let ghost t = self.sessions@.take(i + 1);
            assert(t.drop_last() =~= self.sessions@.take(i as int));
            reveal(Seq::filter);
            if self.sessions[i].id == key {
                found = true;
            } else {
                kept.push(self.sessions[i].copied());
            }
            i = i + 1;
        }
        assert(self.sessions@.take(self.sessions@.len() as int) =~= self.sessions@);
        self.sessions = kept;
        Ok(found)
    }

    /// Remove every session of a user; how many there were.
    pub fn delete_user_sessions(&mut self, user_id: i64) -> (r: DashboardResult<i64>)
        requires
            old(self).wf(),
            old(self).session_list().len() <= i64::MAX,
        ensures
            final(self).wf(),
            final(self).bindings() == old(self).bindings(),
            final(self).user_list() == old(self).user_list(),
            final(self).session_list() == old(self).session_list().filter(
                |s: UserSession| s.user_id != user_id,
            ),
            r == Ok::<i64, DashboardError>(
                (old(self).session_list().len() - final(self).session_list().len()) as i64,
            ),
    {
        let ghost pred = |s: UserSession| s.user_id != user_id;
        let mut kept: Vec<UserSession> = Vec::new();
        let mut i: usize = 0;
        while i < self.sessions.len()
            invariant
                i <= self.sessions@.len(),
                pred == (|s: UserSession| s.user_id != user_id),
                kept@ == self.sessions@.take(i as int).filter(pred),
                kept@.len() <= i,
            decreases self.sessions@.len() - i,
        {
            let ghost t = self.sessions@.take(i + 1);
            assert(t.drop_last() =~= self.sessions@.take(i as int));
            reveal(Seq::filter);
            if self.sessions[i].user_id != user_id {
                kept.push(self.sessions[i].copied());
            }
            i = i + 1;
        }
        assert(self.sessions@.take(self.sessions@.len() as int) =~= self.sessions@);
        let count = (self.sessions.len() - kept.len()) as i64;
        self.sessions = kept;
        Ok(count)
    }

    /// Delete a user with its keys, credentials and login sessions.
    /// `Ok(false)` when there is no such user.
    pub fn delete_user(&mut self, id: i64) -> (r: DashboardResult<bool>)
        requires
            old(self).wf(),
        ensures
            final(self).wf(),
            user_by_id(old(self).user_list(), id) is None ==> r == Ok::<bool, DashboardError>(false)
                && *final(self) == *old(self),
            user_by_id(old(self).user_list(), id) is Some ==> r == Ok::<bool, DashboardError>(true)
                && final(self).user_list() == old(self).user_list().remove(
                user_index(old(self).user_list(), id),
            ) && final(self).bindings() == without_user(old(self).bindings(), id)
                && final(self).credential_list() == old(self).credential_list().filter(
                |c: UserCredentials| c.user_id != id,
            ) && final(self).session_list() == old(self).session_list().filter(
                |s: UserSession| s.user_id != id,
            ),
    {
        let i = match self.user_position(id) {
            Some(i) => i,
            None => {
                return Ok(false);
            },
        };
        let ghost old_users = self.users@;
        proof {
            assert(user_index(old_users, id) == i);
            let nu = old_users.remove(i as int);
            assert forall|x: int, y: int| 0 <= x < nu.len() && 0 <= y < nu.len() && x != y implies nu[x].id
                != nu[y].id && nu[x].email@ != nu[y].email@ by {
                let bx = if x < i { x } else { x + 1 };
                let by_ = if y < i { y } else { y + 1 };
                assert(nu[x] == old_users[bx] && nu[y] == old_users[by_]);
            }
            assert forall|k: int| 0 <= k < nu.len() implies #[trigger] nu[k].id < self.next_id by {
                let bk = if k < i { k } else { k + 1 };
                assert(nu[k] == old_users[bk]);
            }
        }
        self.users.remove(i);

        let ghost b = self.bindings();
        proof {
            lemma_without_user(b, id);
        }
        let mut keys: Vec<KeyBinding> = Vec::new();
        let mut j: usize = 0;
        while j < self.public_keys.len()
            invariant
                j <= self.public_keys@.len(),
                b == self.public_keys@.map_values(|x: KeyBinding| (x.public_key@, x.user_id)),
                keys@.map_values(|x: KeyBinding| (x.public_key@, x.user_id)) == without_user(
                    b.take(j as int),
                    id,
                ),
            decreases self.public_keys@.len() - j,
        {
            assert(b.take(j + 1).drop_last() =~= b.take(j as int));
            assert(b.take(j + 1).last() == b[j as int]);
            if self.public_keys[j].user_id != id {
                let k = KeyBinding {
                    public_key: self.public_keys[j].public_key.clone(),
                    user_id: self.public_keys[j].user_id,
                };
                keys.push(k);
                assert(keys@.map_values(|x: KeyBinding| (x.public_key@, x.user_id)) =~= without_user(
                    b.take(j as int),
                    id,
                ).push(b[j as int]));
            }
            j = j + 1;
        }
        assert(b.take(b.len() as int) =~= b);
        self.public_keys = keys;

        let ghost cred_pred = |c: UserCredentials| c.user_id != id;
        let mut creds: Vec<UserCredentials> = Vec::new();
        let mut j: usize = 0;
        while j < self.credentials.len()
            invariant
                j <= self.credentials@.len(),
                cred_pred == (|c: UserCredentials| c.user_id != id),
                creds@ == self.credentials@.take(j as int).filter(cred_pred),
            decreases self.credentials@.len() - j,
        {
            assert(self.credentials@.take(j + 1).drop_last() =~= self.credentials@.take(j as int));
            reveal(Seq::filter);
            if self.credentials[j].user_id != id {
                creds.push(self.credentials[j].copied());
            }
            j = j + 1;
        }
        assert(self.credentials@.take(self.credentials@.len() as int) =~= self.credentials@);
        self.credentials = creds;

        let ghost session_pred = |s: UserSession| s.user_id != id;
        let mut sessions: Vec<UserSession> = Vec::new();
        let mut j: usize = 0;
        while j < self.sessions.len()
            invariant
                j <= self.sessions@.len(),
                session_pred == (|s: UserSession| s.user_id != id),
                sessions@ == self.sessions@.take(j as int).filter(session_pred),
            decreases self.sessions@.len() - j,
        {
            assert(self.sessions@.take(j + 1).drop_last() =~= self.sessions@.take(j as int));
            reveal(Seq::filter);
            if self.sessions[j].user_id != id {
                sessions.push(self.sessions[j].copied());
            }
            j = j + 1;
        }
        assert(self.sessions@.take(self.sessions@.len() as int) =~= self.sessions@);
        self.sessions = sessions;
        Ok(true)
    }
}

impl Default for InMemoryUserStorage {
    /// An empty directory.
    fn default() -> (r: Self)
        ensures
            r.wf(),
            r.bindings() == Seq::<(Seq<char>, i64)>::empty(),
            r.user_list() == Seq::<User>::empty(),
            r.next_user_id() == 1,
    {
        Self::new()
    }
}

} // verus!
