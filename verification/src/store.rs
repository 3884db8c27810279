//! Credential and website storage with the two invariants the service
//! rests on: usernames are unique among credential rows, and a website
//! row is visible only to the identity that owns it.
//!
//! The store is an in-memory table; every mutating operation on it is
//! meant to be serialized by the caller (a single writer at a time), so
//! the duplicate check and the insert of `sign_up_user` act as one
//! atomic step, as a backend unique index would.

use vstd::prelude::*;

use crate::password;

verus! {

/// A credential row: an identity's opaque id, its unique username, and
/// the salted one-way hash of its password. Raw passwords are never
/// stored.
pub struct User {
    pub id: String,
    pub username: String,
    pub password: String,
}

/// A website row, exclusively owned by the identity named in `user_id`.
pub struct Website {
    pub id: String,
    pub url: String,
    pub time_added: i64,
    pub user_id: String,
}

/// Why a store operation failed. `DuplicateUsername` surfaces as a
/// conflict; `InvalidCredential` merges unknown-username and
/// wrong-password, so a caller cannot enumerate usernames; `NotFound`
/// merges absent and foreign-owned websites; `HashFailure` and
/// `IdCollision` are server-side refusals — the hash derivation balked
/// at an oversized password, or a freshly drawn website id collided
/// with a stored one and the insert was refused rather than let two
/// rows share a key.
#[derive(Debug, PartialEq, Eq, Structural, Clone, Copy)]
pub enum StoreError {
    DuplicateUsername,
    InvalidCredential,
    NotFound,
    HashFailure,
    IdCollision,
}

/// The in-memory credential and website tables.
pub struct Store {
    pub users: Vec<User>,
    pub websites: Vec<Website>,
}

/// No two credential rows share a username.
pub open spec fn unique_usernames(users: Seq<User>) -> bool {
    forall|i: int, j: int|
        0 <= i < j < users.len() ==> users[i].username@ != users[j].username@
}

/// No two website rows share an id: the opaque id is the table's key,
/// so a fetched id names at most one row.
pub open spec fn unique_site_ids(sites: Seq<Website>) -> bool {
    forall|i: int, j: int| 0 <= i < j < sites.len() ==> sites[i].id@ != sites[j].id@
}

/// Some credential row carries this username.
pub open spec fn has_username(users: Seq<User>, name: Seq<char>) -> bool {
    exists|i: int| 0 <= i < users.len() && users[i].username@ == name
}

/// Some credential row carries this username and a hash that the given
/// password verifies against: the condition under which sign-in is owed.
pub open spec fn credentials_match(users: Seq<User>, name: Seq<char>, pw: Seq<char>) -> bool {
    exists|i: int|
        0 <= i < users.len() && users[i].username@ == name && password::argon2_matches(
            pw,
            users[i].password@,
        )
}

/// Whether a website row answers a fetch for id `wid` made by `owner`:
/// both the id and the owner must match, so a row owned by someone else
/// is indistinguishable from an absent one.
pub open spec fn site_answers(w: Website, wid: Seq<char>, owner: Seq<char>) -> bool {
    w.id@ == wid && w.user_id@ == owner
}

/// The first website row that answers a fetch for `wid` by `owner`, if
/// any.
pub open spec fn lookup_website(sites: Seq<Website>, wid: Seq<char>, owner: Seq<char>) -> Option<
    Website,
>
    decreases sites.len(),
{
    if sites.len() == 0 {
        None
    } else if site_answers(sites[0], wid, owner) {
        Some(sites[0])
    } else {
        lookup_website(sites.drop_first(), wid, owner)
    }
}

/// Relies on uuid::Uuid::new_v4 and its Display rendering: a fresh
/// random v4 UUID in the hyphenated form, which is 36 characters long.
/// The value is random, so nothing ties two calls' results together.
#[verifier::external_body]
fn new_uuid() -> (r: String)
    ensures
        r@.len() == 36,
{
    uuid::Uuid::new_v4().to_string()
}

/// Relies on chrono::Utc::now and its timestamp method: the current UTC
/// time in seconds since the Unix epoch. Clock-dependent, so nothing is
/// stated of the value.
#[verifier::external_body]
fn current_timestamp() -> i64 {
    chrono::Utc::now().timestamp()
}

impl Store {
    /// Whether the store is well formed: usernames are unique among
    /// credential rows, and ids are unique among website rows, so a
    /// username names at most one credential and a website id at most
    /// one website.
    pub open spec fn wf(self) -> bool {
        unique_usernames(self.users@) && unique_site_ids(self.websites@)
    }

    /// An empty store.
    pub fn new() -> (s: Store)
        ensures
            s.users@.len() == 0,
            s.websites@.len() == 0,
            s.wf(),
    {
        Store { users: Vec::new(), websites: Vec::new() }
    }

    /// Creates a credential row for a new identity: hashes the password
    /// with a fresh salt, assigns a fresh opaque id, and inserts, failing
    /// with `DuplicateUsername` — and leaving the store untouched — when
    /// the username is already taken. On a fresh username and a password
    /// within the hash bound, success is owed. The duplicate check and
    /// the insert form one atomic step under the store's single-writer
    /// discipline.
    pub fn sign_up_user(&mut self, username: String, password: String) -> (r: Result<
        String,
        StoreError,
    >)
        requires
            old(self).wf(),
        ensures
            final(self).wf(),
            final(self).websites == old(self).websites,
            r matches Err(e) ==> *final(self) == *old(self) && (e == StoreError::DuplicateUsername
                || e == StoreError::HashFailure),
            r is Err ==> ((r == Err::<String, StoreError>(StoreError::DuplicateUsername))
                <==> has_username(old(self).users@, username@)),
            has_username(old(self).users@, username@) ==> r == Err::<String, StoreError>(
                StoreError::DuplicateUsername,
            ),
            !has_username(old(self).users@, username@) && password::password_within_hash_bound(
                password@,
            ) ==> r is Ok,
            r matches Ok(id) ==> ({
                &&& !has_username(old(self).users@, username@)
                &&& final(self).users@.len() == old(self).users@.len() + 1
                &&& final(self).users@.drop_last() == old(self).users@
                &&& final(self).users@.last().id@ == id@
                &&& final(self).users@.last().username@ == username@
                &&& password::argon2_matches(password@, final(self).users@.last().password@)
            }),
    {
        let n = self.users.len();
        let mut i: usize = 0;
        while i < n
            invariant
                old(self).wf(),
                *self == *old(self),
                n == self.users@.len(),
                i <= n,
                forall|j: int| 0 <= j < i ==> self.users@[j].username@ != username@,
            decreases n - i,
        {
            if self.users[i].username == username {
                return Err(StoreError::DuplicateUsername);
            }
            i += 1;
        }
        let hashed = match password::hash_password(password.as_str()) {
            Some(h) => h,
            None => {
                return Err(StoreError::HashFailure);
            },
        };
        let id = new_uuid();
        let returned_id = id.clone();
        let row = User { id, username, password: hashed };
        self.users.push(row);
        proof {
            assert forall|a: int, b: int|
                0 <= a < b < self.users@.len() implies self.users@[a].username@
                != self.users@[b].username@ by {
                if b < self.users@.len() - 1 {
                    assert(old(self).users@[a].username@ != old(self).users@[b].username@);
                }
            }
        }
        Ok(returned_id)
    }

    /// Answers a sign-in attempt: finds the credential row named by the
    /// username and checks the password against its stored hash. Returns
    /// the identity's id exactly when such a row exists and the password
    /// verifies; an unknown username and a wrong password both come back
    /// as the same `InvalidCredential`, so the failure does not reveal
    /// whether the username exists. The store is never changed.
    pub fn sign_in_user(&mut self, input_username: String, input_password: String) -> (r: Result<
        String,
        StoreError,
    >)
        requires
            old(self).wf(),
        ensures
            *final(self) == *old(self),
            r matches Ok(id) ==> exists|k: int|
                0 <= k < old(self).users@.len() && old(self).users@[k].username@ == input_username@
                    && password::argon2_matches(input_password@, old(self).users@[k].password@)
                    && id@ == old(self).users@[k].id@,
            r is Err ==> r == Err::<String, StoreError>(StoreError::InvalidCredential)
                && !credentials_match(old(self).users@, input_username@, input_password@),
    {
        let n = self.users.len();
        let mut i: usize = 0;
        while i < n
            invariant
                old(self).wf(),
                *self == *old(self),
                n == self.users@.len(),
                i <= n,
                forall|j: int| 0 <= j < i ==> self.users@[j].username@ != input_username@,
            decreases n - i,
        {
            if self.users[i].username == input_username {
                if password::verify_password(input_password.as_str(), self.users[i].password.as_str()) {
                    return Ok(self.users[i].id.clone());
                } else {
                    proof {
                        assert forall|k: int|
                            0 <= k < self.users@.len() && self.users@[k].username@
                                == input_username@ implies !password::argon2_matches(
                            input_password@,
                            self.users@[k].password@,
                        ) by {
                            lemma_username_unique(self.users@, i as int, k);
                        }
                    }
                    return Err(StoreError::InvalidCredential);
                }
            }
            i += 1;
        }
        Err(StoreError::InvalidCredential)
    }

    /// Stores a new website row for `user_id`: draws a fresh opaque id,
    /// takes the current time, appends the row, and returns it. The
    /// drawn id is checked against every stored one, and a colliding
    /// draw is refused outright — the store never holds two rows with
    /// one id, so the id stays a key.
    pub fn create_website(&mut self, user_id: String, url: String) -> (r: Result<
        Website,
        StoreError,
    >)
        requires
            old(self).wf(),
        ensures
            final(self).wf(),
            final(self).users == old(self).users,
            r matches Err(e) ==> *final(self) == *old(self) && e == StoreError::IdCollision,
            r matches Ok(w) ==> ({
                &&& final(self).websites@ == old(self).websites@.push(w)
                &&& w.url@ == url@
                &&& w.user_id@ == user_id@
                &&& w.id@.len() == 36
                &&& forall|k: int|
                    0 <= k < old(self).websites@.len() ==> old(self).websites@[k].id@ != w.id@
            }),
    {
        let id = new_uuid();
        let n = self.websites.len();
        let mut i: usize = 0;
        while i < n
            invariant
                old(self).wf(),
                *self == *old(self),
                n == self.websites@.len(),
                i <= n,
                id@.len() == 36,
                forall|j: int| 0 <= j < i ==> self.websites@[j].id@ != id@,
            decreases n - i,
        {
            if self.websites[i].id == id {
                return Err(StoreError::IdCollision);
            }
            i += 1;
        }
        let time_added = current_timestamp();
        let row = Website { id, url, time_added, user_id };
        let returned = Website {
            id: row.id.clone(),
            url: row.url.clone(),
            time_added: row.time_added,
            user_id: row.user_id.clone(),
        };
        self.websites.push(row);
        proof {
            assert forall|a: int, b: int|
                0 <= a < b < self.websites@.len() implies self.websites@[a].id@
                != self.websites@[b].id@ by {
                if b < self.websites@.len() - 1 {
                    assert(old(self).websites@[a].id@ != old(self).websites@[b].id@);
                }
            }
        }
        Ok(returned)
    }

    /// Fetches the website with id `input_website_id`, scoped to its
    /// owner: only a row whose owner is `input_user_id` answers, and a
    /// row owned by anyone else comes back as the same `NotFound` as an
    /// absent one. The store is never changed.
    pub fn get_website(&mut self, input_website_id: String, input_user_id: String) -> (r: Result<
        Website,
        StoreError,
    >)
        ensures
            *final(self) == *old(self),
            lookup_website(old(self).websites@, input_website_id@, input_user_id@) matches Some(w0)
                ==> r matches Ok(w) && w == w0,
            lookup_website(old(self).websites@, input_website_id@, input_user_id@) is None ==> r
                == Err::<Website, StoreError>(StoreError::NotFound),
    {
        let n = self.websites.len();
        let mut i: usize = 0;
        while i < n
            invariant
                *self == *old(self),
                n == self.websites@.len(),
                i <= n,
                forall|j: int|
                    0 <= j < i ==> !site_answers(
                        self.websites@[j],
                        input_website_id@,
                        input_user_id@,
                    ),
            decreases n - i,
        {
            if self.websites[i].id == input_website_id && self.websites[i].user_id
                == input_user_id {
                let w = Website {
                    id: self.websites[i].id.clone(),
                    url: self.websites[i].url.clone(),
                    time_added: self.websites[i].time_added,
                    user_id: self.websites[i].user_id.clone(),
                };
                proof {
                    lemma_lookup_first(
                        self.websites@,
                        input_website_id@,
                        input_user_id@,
                        i as int,
                    );
                }
                return Ok(w);
            }
            i += 1;
        }
        proof {
            lemma_lookup_none(self.websites@, input_website_id@, input_user_id@);
        }
        Err(StoreError::NotFound)
    }
}

/// Law: the uniqueness invariant pins a username to at most one
/// credential row — two rows that carry the same username are the same
/// row. This is the single-row guarantee behind duplicate rejection.
pub proof fn lemma_username_unique(users: Seq<User>, i: int, j: int)
    requires
        unique_usernames(users),
        0 <= i < users.len(),
        0 <= j < users.len(),
        users[i].username@ == users[j].username@,
    ensures
        i == j,
{
}

/// The first row answering a fetch is the one `lookup_website` yields:
/// if row `i` answers and no earlier row does, the lookup returns it.
pub proof fn lemma_lookup_first(sites: Seq<Website>, wid: Seq<char>, owner: Seq<char>, i: int)
    requires
        0 <= i < sites.len(),
        site_answers(sites[i], wid, owner),
        forall|j: int| 0 <= j < i ==> !site_answers(sites[j], wid, owner),
    ensures
        lookup_website(sites, wid, owner) == Some(sites[i]),
    decreases i,
{
    if i > 0 {
        lemma_lookup_first(sites.drop_first(), wid, owner, i - 1);
    }
}

/// A fetch that no row answers yields nothing.
pub proof fn lemma_lookup_none(sites: Seq<Website>, wid: Seq<char>, owner: Seq<char>)
    requires
        forall|j: int| 0 <= j < sites.len() ==> !site_answers(sites[j], wid, owner),
    ensures
        lookup_website(sites, wid, owner) is None,
    decreases sites.len(),
{
    if sites.len() > 0 {
        lemma_lookup_none(sites.drop_first(), wid, owner);
    }
}

/// Law: with unique website ids, an id names at most one row — two rows
/// that carry the same id are the same row. This is what makes the
/// opaque id a key, as the data model asks.
pub proof fn lemma_site_id_unique(sites: Seq<Website>, i: int, j: int)
    requires
        unique_site_ids(sites),
        0 <= i < sites.len(),
        0 <= j < sites.len(),
        sites[i].id@ == sites[j].id@,
    ensures
        i == j,
{
}

/// Law: website fetches are owner-scoped. In a table with unique ids
/// that holds row `i` with id `wid` and owner `owner`, the owner's
/// fetch yields exactly that row — id, url, owner and timestamp as
/// stored — while a fetch by anyone else yields nothing: a
/// foreign-owned website is indistinguishable from an absent one.
pub proof fn lemma_owner_scoped_fetch(
    sites: Seq<Website>,
    wid: Seq<char>,
    owner: Seq<char>,
    other: Seq<char>,
    i: int,
)
    requires
        unique_site_ids(sites),
        0 <= i < sites.len(),
        sites[i].id@ == wid,
        sites[i].user_id@ == owner,
        other != owner,
    ensures
        lookup_website(sites, wid, owner) == Some(sites[i]),
        lookup_website(sites, wid, other) is None,
{
    assert forall|j: int| 0 <= j < i implies !site_answers(sites[j], wid, owner) by {
        if sites[j].id@ == wid {
            lemma_site_id_unique(sites, i, j);
        }
    }
    lemma_lookup_first(sites, wid, owner, i);
    assert forall|j: int| 0 <= j < sites.len() implies !site_answers(sites[j], wid, other) by {
        if sites[j].id@ == wid {
            lemma_site_id_unique(sites, i, j);
        }
    }
    lemma_lookup_none(sites, wid, other);
}

} // verus!
