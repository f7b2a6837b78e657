use vstd::prelude::*;

verus! {

/// Access level of a managed account.
#[derive(Debug, Clone, Copy, PartialEq, Eq, Structural)]
pub enum Role {
    Admin,
    Observer,
}

/// A managed account: its name, bcrypt hash, role and optional disk quota in GB.
#[derive(Debug, Clone)]
pub struct User {
    pub username: String,
    pub password_hash: String,
    pub role: Role,
    pub quota_gb: Option<u64>,
}

/// Mathematical value of a `User`.
pub struct UserView {
    pub username: Seq<char>,
    pub password_hash: Seq<char>,
    pub role: Role,
    pub quota_gb: Option<u64>,
}

impl View for User {
    type V = UserView;

    open spec fn view(&self) -> UserView {
        UserView {
            username: self.username@,
            password_hash: self.password_hash@,
            role: self.role,
            quota_gb: self.quota_gb,
        }
    }
}

/// Why a user-registry operation was refused.
#[derive(Debug, Clone, PartialEq, Eq)]
pub enum UserError {
    /// An account with that name is already registered.
    AlreadyExists,
    /// The name holds a character other than ASCII letters, digits, `_` and `-`.
    InvalidUsername,
    /// No account with that name is registered.
    NotFound,
    /// The account is the only administrator left.
    LastAdmin,
    /// The password could not be hashed; bcrypt's error text (with the default
    /// cost, only when no randomness is available for the salt).
    HashFailed(String),
}

impl UserError {
    /// The human-readable message of the error.
    pub fn message(&self) -> (m: String)
        ensures
            m@ == user_error_message(*self),
    {
        match self {
            UserError::AlreadyExists => "User already exists".to_owned(),
            UserError::InvalidUsername => "Invalid username: allowed characters are ASCII alphanumeric, underscore, and hyphen".to_owned(),
            UserError::NotFound => "User not found".to_owned(),
            UserError::LastAdmin => "Cannot delete the last admin user".to_owned(),
            UserError::HashFailed(text) => text.clone(),
        }
    }
}

/// The message text of each error.
pub open spec fn user_error_message(e: UserError) -> Seq<char> {
    match e {
        UserError::AlreadyExists => "User already exists"@,
        UserError::InvalidUsername => "Invalid username: allowed characters are ASCII alphanumeric, underscore, and hyphen"@,
        UserError::NotFound => "User not found"@,
        UserError::LastAdmin => "Cannot delete the last admin user"@,
        UserError::HashFailed(text) => text@,
    }
}

/// A character allowed in a user name: ASCII letter or digit, `_` or `-`.
pub open spec fn is_username_char(c: char) -> bool {
    ('a' <= c && c <= 'z') || ('A' <= c && c <= 'Z') || ('0' <= c && c <= '9') || c == '_' || c
        == '-'
}

/// A user name is valid when every character of it is allowed.
pub open spec fn valid_username(s: Seq<char>) -> bool {
    forall|i: int| 0 <= i < s.len() ==> is_username_char(#[trigger] s[i])
}

/// Tells whether every character of `username` is an ASCII letter or digit, `_` or `-`.
pub fn is_valid_username(username: &str) -> (b: bool)
    ensures
        b == valid_username(username@),
{
    let mut ok = true;
    for c in it: username.chars()
        invariant
            it.seq() == username@,
            ok == (forall|j: int| 0 <= j < it.index() ==> is_username_char(#[trigger] username@[j])),
    {
        let allowed = ('a' <= c && c <= 'z') || ('A' <= c && c <= 'Z') || ('0' <= c && c <= '9')
            || c == '_' || c == '-';
        ok = ok && allowed;
    }
    ok
}


/// One registry entry as a mathematical value: the key and the account.
pub type EntryView = (Seq<char>, UserView);

/// No two entries share a key.
pub open spec fn keys_distinct(s: Seq<EntryView>) -> bool {
    forall|i: int, j: int| 0 <= i < s.len() && 0 <= j < s.len() && i != j ==> s[i].0 != s[j].0
}

/// The map that a list of entries denotes, later entries taking precedence.
pub open spec fn map_of(s: Seq<EntryView>) -> Map<Seq<char>, UserView>
    decreases s.len(),
{
    if s.len() == 0 {
        Map::empty()
    } else {
        map_of(s.drop_last()).insert(s.last().0, s.last().1)
    }
}

/// Number of administrator entries in a list of entries.
pub open spec fn count_admins(s: Seq<EntryView>) -> nat
    decreases s.len(),
{
    if s.len() == 0 {
        0
    } else {
        count_admins(s.drop_last()) + if s.last().1.role == Role::Admin {
            1nat
        } else {
            0nat
        }
    }
}

/// Names of the administrators of a registry.
pub open spec fn admins(m: Map<Seq<char>, UserView>) -> Set<Seq<char>> {
    m.dom().filter(|k: Seq<char>| m[k].role == Role::Admin)
}

/// An account with its password hash replaced.
pub open spec fn with_password_hash(u: UserView, password_hash: Seq<char>) -> UserView {
    UserView { password_hash, ..u }
}

/// The account that `add_user` registers.
pub open spec fn new_account(
    username: Seq<char>,
    password_hash: Seq<char>,
    role: Role,
    quota_gb: Option<u64>,
) -> UserView {
    UserView { username, password_hash, role, quota_gb }
}

/// The keys of a list of entries form exactly the domain of its map.
pub proof fn lemma_map_of_dom(s: Seq<EntryView>)
    ensures
        map_of(s).dom().finite(),
        forall|k: Seq<char>| #[trigger]
            map_of(s).dom().contains(k) <==> exists|i: int| 0 <= i < s.len() && s[i].0 == k,
    decreases s.len(),
{
    if s.len() > 0 {
        lemma_map_of_dom(s.drop_last());
        assert forall|k: Seq<char>| #[trigger]
            map_of(s).dom().contains(k) implies exists|i: int| 0 <= i < s.len() && s[i].0 == k by {
            if k == s.last().0 {
                assert(s[s.len() - 1].0 == k);
            } else {
                let i = choose|i: int| 0 <= i < s.drop_last().len() && s.drop_last()[i].0 == k;
                assert(s[i].0 == k);
            }
        }
        assert forall|k: Seq<char>|
            (exists|i: int| 0 <= i < s.len() && s[i].0 == k) implies #[trigger] map_of(s).dom().contains(k) by {
            let i = choose|i: int| 0 <= i < s.len() && s[i].0 == k;
            if i < s.len() - 1 {
                assert(s.drop_last()[i].0 == k);
            }
        }
    }
}

/// With distinct keys, each entry is what its key maps to.
pub proof fn lemma_map_of_index(s: Seq<EntryView>, i: int)
    requires
        keys_distinct(s),
        0 <= i < s.len(),
    ensures
        map_of(s).dom().contains(s[i].0),
        map_of(s)[s[i].0] == s[i].1,
    decreases s.len(),
{
    lemma_map_of_dom(s);
    if i < s.len() - 1 {
        lemma_map_of_index(s.drop_last(), i);
        assert(s.drop_last()[i] == s[i]);
    }
}

/// Removing the entry at `i` removes its key from the map.
pub proof fn lemma_map_of_remove(s: Seq<EntryView>, i: int)
    requires
        keys_distinct(s),
        0 <= i < s.len(),
    ensures
        keys_distinct(s.remove(i)),
        map_of(s.remove(i)) =~= map_of(s).remove(s[i].0),
    decreases s.len(),
{
    let r = s.remove(i);
    assert(keys_distinct(r)) by {
        assert forall|a: int, b: int| 0 <= a < r.len() && 0 <= b < r.len() && a != b implies r[a].0
            != r[b].0 by {
            let a2 = if a < i { a } else { a + 1 };
            let b2 = if b < i { b } else { b + 1 };
            assert(r[a] == s[a2]);
            assert(r[b] == s[b2]);
        }
    }
    if i == s.len() - 1 {
        assert(r =~= s.drop_last());
        lemma_map_of_dom(s.drop_last());
        assert(!map_of(s.drop_last()).dom().contains(s[i].0)) by {
            if map_of(s.drop_last()).dom().contains(s[i].0) {
                let j = choose|j: int| 0 <= j < s.drop_last().len() && s.drop_last()[j].0 == s[i].0;
                assert(s[j].0 == s[i].0);
            }
        }
    } else {
        let d = s.drop_last();
        assert(keys_distinct(d));
        lemma_map_of_remove(d, i);
        assert(r.drop_last() =~= d.remove(i));
        assert(r.last() == s.last());
        assert(s.last().0 != s[i].0);
    }
}

/// Replacing the account of the entry at `i` updates its key in the map.
pub proof fn lemma_map_of_update(s: Seq<EntryView>, i: int, v: UserView)
    requires
        keys_distinct(s),
        0 <= i < s.len(),
    ensures
        keys_distinct(s.update(i, (s[i].0, v))),
        map_of(s.update(i, (s[i].0, v))) =~= map_of(s).insert(s[i].0, v),
    decreases s.len(),
{
    let u = s.update(i, (s[i].0, v));
    assert(keys_distinct(u)) by {
        assert forall|a: int, b: int| 0 <= a < u.len() && 0 <= b < u.len() && a != b implies u[a].0
            != u[b].0 by {
            assert(u[a].0 == s[a].0);
            assert(u[b].0 == s[b].0);
        }
    }
    if i == s.len() - 1 {
        assert(u.drop_last() =~= s.drop_last());
    } else {
        let d = s.drop_last();
        lemma_map_of_update(d, i, v);
        assert(u.drop_last() =~= d.update(i, (s[i].0, v)));
        assert(s.last().0 != s[i].0);
    }
}

/// With distinct keys, the map has as many names as there are entries.
pub proof fn lemma_map_of_len(s: Seq<EntryView>)
    requires
        keys_distinct(s),
    ensures
        map_of(s).dom().len() == s.len(),
    decreases s.len(),
{
    lemma_map_of_dom(s);
    if s.len() > 0 {
        let d = s.drop_last();
        assert(keys_distinct(d));
        lemma_map_of_len(d);
        lemma_map_of_dom(d);
        let k = s.last().0;
        assert(!map_of(d).dom().contains(k)) by {
            if map_of(d).dom().contains(k) {
                let j = choose|j: int| 0 <= j < d.len() && d[j].0 == k;
                assert(s[j].0 == s[s.len() - 1].0);
            }
        }
        assert(map_of(s).dom() =~= map_of(d).dom().insert(k));
    }
}

/// `users` lists the accounts of `m`, each once: `keys` are distinct names of
/// `m`, as many as `m` has, and `users[i]` is the account named `keys[i]`.
pub open spec fn account_listing(
    m: Map<Seq<char>, UserView>,
    keys: Seq<Seq<char>>,
    users: Seq<&User>,
) -> bool {
    &&& keys.len() == users.len()
    &&& keys.len() == m.dom().len()
    &&& keys.no_duplicates()
    &&& forall|i: int| 0 <= i < keys.len() ==> m.dom().contains(#[trigger] keys[i]) && users[i]@ == m[keys[i]]
}

/// Appending an entry with a fresh key keeps the keys distinct.
pub proof fn lemma_push_distinct(s: Seq<EntryView>, e: EntryView)
    requires
        keys_distinct(s),
        !map_of(s).dom().contains(e.0),
    ensures
        keys_distinct(s.push(e)),
        map_of(s.push(e)) == map_of(s).insert(e.0, e.1),
{
    lemma_map_of_dom(s);
    let p = s.push(e);
    assert(p.drop_last() =~= s);
    assert forall|a: int, b: int| 0 <= a < p.len() && 0 <= b < p.len() && a != b implies p[a].0
        != p[b].0 by {
        if a == s.len() {
            assert(s[b].0 != e.0);
        } else if b == s.len() {
            assert(s[a].0 != e.0);
        } else {
            assert(p[a] == s[a] && p[b] == s[b]);
        }
    }
}

/// The administrator count of a list with distinct keys is the number of
/// administrators of its map.
pub proof fn lemma_count_admins(s: Seq<EntryView>)
    requires
        keys_distinct(s),
    ensures
        admins(map_of(s)).finite(),
        admins(map_of(s)).len() == count_admins(s),
    decreases s.len(),
{
    lemma_map_of_dom(s);
    if s.len() == 0 {
        assert(admins(map_of(s)) =~= Set::empty());
    } else {
        let d = s.drop_last();
        assert(keys_distinct(d));
        lemma_count_admins(d);
        lemma_map_of_dom(d);
        let k = s.last().0;
        assert(!map_of(d).dom().contains(k)) by {
            if map_of(d).dom().contains(k) {
                let j = choose|j: int| 0 <= j < d.len() && d[j].0 == k;
                assert(s[j].0 == s[s.len() - 1].0);
            }
        }
        if s.last().1.role == Role::Admin {
            assert(admins(map_of(s)) =~= admins(map_of(d)).insert(k));
        } else {
            assert(admins(map_of(s)) =~= admins(map_of(d)));
        }
    }
}


/// What `bcrypt::verify` answers for a password and a stored hash (`None` when the
/// hash is malformed).
pub uninterp spec fn bcrypt_verify_outcome(password: Seq<char>, hash: Seq<char>) -> Option<bool>;

/// Calls `bcrypt::hash` with the crate's default cost on the UTF-8 bytes of `password`.
/// The salt is drawn from the operating system's randomness, so the hash itself is
/// left unsaid; what is stated is what the crate's source shows of every hash it
/// returns: `bcrypt::verify` accepts the same password against it. `Err` holds the
/// text of the error the crate reports (with the default cost, only when no
/// randomness is available); that text is left unsaid.
#[verifier::external_body]
fn bcrypt_hash(password: &str) -> (res: Result<String, String>)
    ensures
        res matches Ok(h) ==> bcrypt_verify_outcome(password@, h@) == Some(true),
{
    bcrypt::hash(password, bcrypt::DEFAULT_COST).map_err(|e| e.to_string())
}

/// Calls `bcrypt::verify(password, hash)`, `None` standing for the crate's error
/// (a malformed hash). The answer is named `bcrypt_verify_outcome`.
#[verifier::external_body]
fn bcrypt_verify(password: &str, hash: &str) -> (res: Option<bool>)
    ensures
        res == bcrypt_verify_outcome(password@, hash@),
{
    bcrypt::verify(password, hash).ok()
}

/// A field-by-field copy of an account.
fn copy_user(u: &User) -> (r: User)
    ensures
        r@ == u@,
{
    User {
        username: u.username.clone(),
        password_hash: u.password_hash.clone(),
        role: u.role,
        quota_gb: u.quota_gb,
    }
}

/// Registry of managed accounts, keyed by name.
pub struct UserManager {
    users: Vec<(String, User)>,
}

impl UserManager {
    /// The entries of the registry, in storage order.
    pub closed spec fn entries(&self) -> Seq<EntryView> {
        self.users@.map_values(|e: (String, User)| (e.0@, e.1@))
    }

    #[verifier::type_invariant]
    closed spec fn keys_unique(&self) -> bool {
        keys_distinct(self.entries())
    }

    /// An empty registry.
    pub fn new() -> (m: Self)
        ensures
            m@ == Map::<Seq<char>, UserView>::empty(),
    {
        let m = UserManager { users: Vec::new() };
        assert(m.entries() =~= Seq::<EntryView>::empty());
        m
    }

    /// Index of the entry whose key is `username`, if any.
    fn find(&self, username: &str) -> (r: Option<usize>)
        ensures
            match r {
                Some(i) => i < self.entries().len() && self.entries()[i as int].0 == username@,
                None => !self@.dom().contains(username@),
            },
            r is Some <==> self@.dom().contains(username@),
    {
        proof {
            use_type_invariant(self);
            lemma_map_of_dom(self.entries());
        }
        let key = username.to_owned();
        let n = self.users.len();
        for i in 0..n
            invariant
                n == self.users@.len(),
                key@ == username@,
                keys_distinct(self.entries()),
                forall|j: int| 0 <= j < i ==> self.entries()[j].0 != username@,
        {
            if self.users[i].0 == key {
                assert(self.entries()[i as int].0 == username@);
                proof {
                    lemma_map_of_index(self.entries(), i as int);
                }
                return Some(i);
            }
        }
        None
    }

    /// The account registered under `username`.
    pub fn get_user(&self, username: &str) -> (r: Option<&User>)
        ensures
            r is Some <==> self@.dom().contains(username@),
            r matches Some(u) ==> u@ == self@[username@],
    {
        proof {
            use_type_invariant(self);
        }
        match self.find(username) {
            Some(i) => {
                proof {
                    lemma_map_of_index(self.entries(), i as int);
                }
                Some(&self.users[i].1)
            },
            None => None,
        }
    }

    /// All registered accounts, each once, in storage order.
    pub fn list_users(&self) -> (r: Vec<&User>)
        ensures
            keys_distinct(self.entries()),
            r@.len() == self.entries().len(),
            forall|i: int| 0 <= i < r@.len() ==> (#[trigger] r@[i])@ == self.entries()[i].1,
            r@.len() == self@.dom().len(),
            exists|keys: Seq<Seq<char>>| #[trigger] account_listing(self@, keys, r@),
    {
        proof {
            use_type_invariant(self);
            lemma_map_of_len(self.entries());
        }
        let mut r: Vec<&User> = Vec::new();
        let n = self.users.len();
        for i in 0..n
            invariant
                n == self.users@.len(),
                r@.len() == i,
                forall|j: int| 0 <= j < i ==> (#[trigger] r@[j])@ == self.entries()[j].1,
        {
            r.push(&self.users[i].1);
        }
        proof {
            let keys = self.entries().map_values(|e: EntryView| e.0);
            let uv = r@;
            assert forall|i: int| 0 <= i < keys.len() implies self@.dom().contains(#[trigger] keys[i])
                && uv[i]@ == self@[keys[i]] by {
                lemma_map_of_index(self.entries(), i);
            }
            assert(keys.no_duplicates()) by {
                assert forall|a: int, b: int| 0 <= a < keys.len() && 0 <= b < keys.len() && a != b
                    implies keys[a] != keys[b] by {
                    assert(keys[a] == self.entries()[a].0);
                    assert(keys[b] == self.entries()[b].0);
                }
            }
            assert(account_listing(self@, keys, uv));
        }
        r
    }

    /// Registers `username` with an already computed password hash (`Err` standing
    /// for a hashing failure, with its text). Refuses a name that is taken, then a name with a
    /// forbidden character, then a missing hash.
    pub fn add_user_with_hash(
        &mut self,
        username: &str,
        password_hash: Result<String, String>,
        role: Role,
        quota_gb: Option<u64>,
    ) -> (r: Result<(), UserError>)
        ensures
            old(self)@.dom().contains(username@) ==> r == Err::<(), UserError>(UserError::AlreadyExists),
            !old(self)@.dom().contains(username@) && !valid_username(username@) ==> r == Err::<(), UserError>(UserError::InvalidUsername),
            !old(self)@.dom().contains(username@) && valid_username(username@) && password_hash is Err
                ==> r == Err::<(), UserError>(UserError::HashFailed(password_hash->Err_0)),
            r is Err ==> final(self)@ == old(self)@,
            r is Ok ==> password_hash is Ok && final(self)@ == old(self)@.insert(
                username@,
                new_account(username@, password_hash->Ok_0@, role, quota_gb),
            ),
            !old(self)@.dom().contains(username@) && valid_username(username@) && password_hash is Ok
                ==> r is Ok,
    {
        proof {
            use_type_invariant(&*self);
        }
        if self.find(username).is_some() {
            return Err(UserError::AlreadyExists);
        }
        if !is_valid_username(username) {
            return Err(UserError::InvalidUsername);
        }
        let hash = match password_hash {
            Ok(h) => h,
            Err(text) => return Err(UserError::HashFailed(text)),
        };
        let user = User { username: username.to_owned(), password_hash: hash, role, quota_gb };
        let mut users: Vec<(String, User)> = Vec::new();
        std::mem::swap(&mut users, &mut self.users);
        let ghost before = users@.map_values(|e: (String, User)| (e.0@, e.1@));
        assert(before == old(self).entries());
        users.push((username.to_owned(), user));
        proof {
            let after = users@.map_values(|e: (String, User)| (e.0@, e.1@));
            assert(after =~= before.push((username@, new_account(username@, hash@, role, quota_gb))));
            lemma_push_distinct(before, (username@, new_account(username@, hash@, role, quota_gb)));
        }
        self.users = users;
        Ok(())
    }

    /// Registers a new account: refuses a taken name, then a name with a character
    /// other than ASCII letters, digits, `_` and `-`; otherwise hashes the password
    /// with bcrypt and stores the account. Fails with `HashFailed`, leaving the
    /// registry unchanged, only when hashing fails.
    pub fn add_user(
        &mut self,
        username: &str,
        password: &str,
        role: Role,
        quota_gb: Option<u64>,
    ) -> (r: Result<(), UserError>)
        ensures
            old(self)@.dom().contains(username@) ==> r == Err::<(), UserError>(UserError::AlreadyExists),
            !old(self)@.dom().contains(username@) && !valid_username(username@) ==> r == Err::<(), UserError>(UserError::InvalidUsername),
            !old(self)@.dom().contains(username@) && valid_username(username@) ==> (r is Ok || r matches Err(UserError::HashFailed(_))),
            r is Err ==> final(self)@ == old(self)@,
            r is Ok ==> exists|h: Seq<char>|
                bcrypt_verify_outcome(password@, h) == Some(true)
                && #[trigger] final(self)@ == old(self)@.insert(username@, new_account(username@, h, role, quota_gb)),
    {
        if self.find(username).is_some() {
            return Err(UserError::AlreadyExists);
        }
        if !is_valid_username(username) {
            return Err(UserError::InvalidUsername);
        }
        let hash = bcrypt_hash(password);
        let r = self.add_user_with_hash(username, hash, role, quota_gb);
        proof {
            if r is Ok {
                let h = hash->Ok_0@;
                assert(final(self)@ == old(self)@.insert(username@, new_account(username@, h, role, quota_gb)));
            }
        }
        r
    }

    /// Whether `username` can be registered: refuses a taken name, then a name
    /// with a character other than ASCII letters, digits, `_` and `-`.
    pub fn check_new_user(&self, username: &str) -> (r: Result<(), UserError>)
        ensures
            self@.dom().contains(username@) ==> r == Err::<(), UserError>(UserError::AlreadyExists),
            !self@.dom().contains(username@) && !valid_username(username@) ==> r == Err::<(), UserError>(UserError::InvalidUsername),
            !self@.dom().contains(username@) && valid_username(username@) ==> r is Ok,
    {
        if self.find(username).is_some() {
            return Err(UserError::AlreadyExists);
        }
        if !is_valid_username(username) {
            return Err(UserError::InvalidUsername);
        }
        Ok(())
    }

    /// Whether `username` can be deleted: refuses an unknown name, and an
    /// administrator when it is the only one left.
    pub fn check_deletable(&self, username: &str) -> (r: Result<(), UserError>)
        ensures
            !self@.dom().contains(username@) ==> r == Err::<(), UserError>(UserError::NotFound),
            self@.dom().contains(username@) && self@[username@].role == Role::Admin
                && admins(self@).len() <= 1 ==> r == Err::<(), UserError>(UserError::LastAdmin),
            self@.dom().contains(username@) && !(self@[username@].role == Role::Admin
                && admins(self@).len() <= 1) ==> r is Ok,
    {
        proof {
            use_type_invariant(self);
        }
        let i = match self.find(username) {
            Some(i) => i,
            None => return Err(UserError::NotFound),
        };
        proof {
            lemma_map_of_index(self.entries(), i as int);
        }
        if self.users[i].1.role == Role::Admin {
            let count = self.admin_count();
            if count <= 1 {
                return Err(UserError::LastAdmin);
            }
        }
        Ok(())
    }

    /// Number of administrator entries.
    fn admin_count(&self) -> (n: usize)
        ensures
            n == admins(self@).len(),
    {
        proof {
            use_type_invariant(self);
            lemma_count_admins(self.entries());
        }
        let mut n: usize = 0;
        let len = self.users.len();
        for i in 0..len
            invariant
                len == self.users@.len(),
                n == count_admins(self.entries().take(i as int)),
                n <= i,
        {
            proof {
                assert(self.entries().take(i + 1).drop_last() =~= self.entries().take(i as int));
            }
            if self.users[i].1.role == Role::Admin {
                n = n + 1;
            }
        }
        assert(self.entries().take(len as int) =~= self.entries());
        n
    }

    /// Removes the account `username`. Refuses an unknown name, and refuses to
    /// remove an administrator when it is the only one left.
    pub fn delete_user(&mut self, username: &str) -> (r: Result<(), UserError>)
        ensures
            !old(self)@.dom().contains(username@) ==> r == Err::<(), UserError>(UserError::NotFound),
            old(self)@.dom().contains(username@) && old(self)@[username@].role == Role::Admin
                && admins(old(self)@).len() <= 1 ==> r == Err::<(), UserError>(UserError::LastAdmin),
            old(self)@.dom().contains(username@) && !(old(self)@[username@].role == Role::Admin
                && admins(old(self)@).len() <= 1) ==> r is Ok,
            r is Err ==> final(self)@ == old(self)@,
            r is Ok ==> final(self)@ == old(self)@.remove(username@),
    {
        proof {
            use_type_invariant(&*self);
        }
        let i = match self.find(username) {
            Some(i) => i,
            None => return Err(UserError::NotFound),
        };
        proof {
            lemma_map_of_index(self.entries(), i as int);
        }
        if self.users[i].1.role == Role::Admin {
            let count = self.admin_count();
            if count <= 1 {
                return Err(UserError::LastAdmin);
            }
        }
        let mut users: Vec<(String, User)> = Vec::new();
        std::mem::swap(&mut users, &mut self.users);
        let ghost before = users@.map_values(|e: (String, User)| (e.0@, e.1@));
        assert(before == old(self).entries());
        users.remove(i);
        proof {
            let after = users@.map_values(|e: (String, User)| (e.0@, e.1@));
            assert(after =~= before.remove(i as int));
            lemma_map_of_remove(before, i as int);
        }
        self.users = users;
        Ok(())
    }

    /// Stores an already computed hash (`Err` standing for a hashing failure, with
    /// its text) as the password of `username`.
    pub fn set_password_hash(&mut self, username: &str, password_hash: Result<String, String>) -> (r: Result<(), UserError>)
        ensures
            !old(self)@.dom().contains(username@) ==> r == Err::<(), UserError>(UserError::NotFound),
            old(self)@.dom().contains(username@) && password_hash is Err ==> r == Err::<(), UserError>(UserError::HashFailed(password_hash->Err_0)),
            old(self)@.dom().contains(username@) && password_hash is Ok ==> r is Ok,
            r is Err ==> final(self)@ == old(self)@,
            r is Ok ==> password_hash is Ok && final(self)@ == old(self)@.insert(
                username@,
                with_password_hash(old(self)@[username@], password_hash->Ok_0@),
            ),
    {
        proof {
            use_type_invariant(&*self);
        }
        let i = match self.find(username) {
            Some(i) => i,
            None => return Err(UserError::NotFound),
        };
        let hash = match password_hash {
            Ok(h) => h,
            Err(text) => return Err(UserError::HashFailed(text)),
        };
        proof {
            lemma_map_of_index(self.entries(), i as int);
        }
        let key = self.users[i].0.clone();
        let old_user = &self.users[i].1;
        let user = User {
            username: old_user.username.clone(),
            password_hash: hash,
            role: old_user.role,
            quota_gb: old_user.quota_gb,
        };
        let mut users: Vec<(String, User)> = Vec::new();
        std::mem::swap(&mut users, &mut self.users);
        let ghost before = users@.map_values(|e: (String, User)| (e.0@, e.1@));
        assert(before == old(self).entries());
        users.remove(i);
        users.insert(i, (key, user));
        proof {
            let v = with_password_hash(before[i as int].1, hash@);
            let after = users@.map_values(|e: (String, User)| (e.0@, e.1@));
            assert(after =~= before.update(i as int, (before[i as int].0, v)));
            lemma_map_of_update(before, i as int, v);
        }
        self.users = users;
        Ok(())
    }

    /// A fresh bcrypt hash of `new_password` for the existing account
    /// `username`, not yet stored. Refuses an unknown name; fails with
    /// `HashFailed` only when hashing fails.
    pub fn prepare_password_hash(&self, username: &str, new_password: &str) -> (r: Result<String, UserError>)
        ensures
            !self@.dom().contains(username@) ==> r == Err::<String, UserError>(UserError::NotFound),
            self@.dom().contains(username@) ==> (r is Ok || r matches Err(UserError::HashFailed(_))),
            r matches Ok(h) ==> bcrypt_verify_outcome(new_password@, h@) == Some(true),
    {
        if self.find(username).is_none() {
            return Err(UserError::NotFound);
        }
        match bcrypt_hash(new_password) {
            Ok(h) => Ok(h),
            Err(text) => Err(UserError::HashFailed(text)),
        }
    }

    /// Replaces the password of `username` by a fresh bcrypt hash of
    /// `new_password`. Refuses an unknown name; fails with `HashFailed`, leaving
    /// the registry unchanged, only when hashing fails.
    pub fn update_password(&mut self, username: &str, new_password: &str) -> (r: Result<(), UserError>)
        ensures
            !old(self)@.dom().contains(username@) ==> r == Err::<(), UserError>(UserError::NotFound),
            old(self)@.dom().contains(username@) ==> (r is Ok || r matches Err(UserError::HashFailed(_))),
            r is Err ==> final(self)@ == old(self)@,
            r is Ok ==> exists|h: Seq<char>|
                bcrypt_verify_outcome(new_password@, h) == Some(true)
                && #[trigger] final(self)@ == old(self)@.insert(
                    username@,
                    with_password_hash(old(self)@[username@], h),
                ),
    {
        let hash = match self.prepare_password_hash(username, new_password) {
            Ok(h) => h,
            Err(e) => return Err(e),
        };
        let ghost h = hash@;
        let r = self.set_password_hash(username, Ok(hash));
        proof {
            if r is Ok {
                assert(final(self)@ == old(self)@.insert(
                    username@,
                    with_password_hash(old(self)@[username@], h),
                ));
            }
        }
        r
    }

    /// The account `username` if it exists and the outcome of checking the
    /// password against its hash is a success.
    pub fn user_if_verified(&self, username: &str, outcome: Option<bool>) -> (r: Option<User>)
        ensures
            r is Some <==> self@.dom().contains(username@) && outcome == Some(true),
            r matches Some(u) ==> u@ == self@[username@],
    {
        match self.get_user(username) {
            Some(user) => {
                if outcome == Some(true) {
                    Some(copy_user(user))
                } else {
                    None
                }
            },
            None => None,
        }
    }

    /// The account `username` when `password` matches its stored bcrypt hash.
    pub fn verify(&self, username: &str, password: &str) -> (r: Option<User>)
        ensures
            r is Some <==> self@.dom().contains(username@) && bcrypt_verify_outcome(
                password@,
                self@[username@].password_hash,
            ) == Some(true),
            r matches Some(u) ==> u@ == self@[username@],
    {
        match self.get_user(username) {
            Some(user) => {
                let outcome = bcrypt_verify(password, user.password_hash.as_str());
                self.user_if_verified(username, outcome)
            },
            None => None,
        }
    }

    /// When the registry is empty, stores the default administrator `admin` with
    /// the given hash (`Err` standing for a hashing failure, with its text) and answers `true`;
    /// leaves a non-empty registry alone and answers `false`.
    pub fn install_default_admin(&mut self, password_hash: Result<String, String>) -> (r: Result<bool, UserError>)
        ensures
            old(self)@ != Map::<Seq<char>, UserView>::empty() ==> r == Ok::<bool, UserError>(false) && final(self)@ == old(self)@,
            old(self)@ == Map::<Seq<char>, UserView>::empty() && password_hash is Err ==> r == Err::<bool, UserError>(UserError::HashFailed(password_hash->Err_0)) && final(self)@ == old(self)@,
            old(self)@ == Map::<Seq<char>, UserView>::empty() && password_hash is Ok ==> r == Ok::<bool, UserError>(true)
                && final(self)@ == Map::<Seq<char>, UserView>::empty().insert(
                    "admin"@,
                    new_account("admin"@, password_hash->Ok_0@, Role::Admin, None),
                ),
    {
        proof {
            use_type_invariant(&*self);
            if self.users@.len() > 0 {
                lemma_map_of_index(self.entries(), 0);
            }
        }
        if self.users.len() > 0 {
            return Ok(false);
        }
        assert(self.entries() =~= Seq::<EntryView>::empty());
        let name = "admin";
        proof {
            reveal_strlit("admin");
        }
        match self.add_user_with_hash(name, password_hash, Role::Admin, None) {
            Ok(()) => Ok(true),
            Err(e) => Err(e),
        }
    }

    /// When the registry is empty, creates the default administrator `admin`
    /// with password `admin` (hashed with bcrypt) and answers `true`; leaves a
    /// non-empty registry alone and answers `false`. Fails with `HashFailed`,
    /// leaving the registry empty, only when hashing fails.
    pub fn ensure_default_admin(&mut self) -> (r: Result<bool, UserError>)
        ensures
            old(self)@ != Map::<Seq<char>, UserView>::empty() ==> r == Ok::<bool, UserError>(false) && final(self)@ == old(self)@,
            old(self)@ == Map::<Seq<char>, UserView>::empty() ==> (r == Ok::<bool, UserError>(true) || r matches Err(UserError::HashFailed(_))),
            r is Err ==> final(self)@ == old(self)@,
            r == Ok::<bool, UserError>(true) ==> exists|h: Seq<char>|
                bcrypt_verify_outcome("admin"@, h) == Some(true)
                && #[trigger] final(self)@ == Map::<Seq<char>, UserView>::empty().insert(
                    "admin"@,
                    new_account("admin"@, h, Role::Admin, None),
                ),
    {
        proof {
            use_type_invariant(&*self);
            if self.users@.len() > 0 {
                lemma_map_of_index(self.entries(), 0);
            }
        }
        if self.users.len() > 0 {
            return Ok(false);
        }
        assert(self.entries() =~= Seq::<EntryView>::empty());
        let hash = bcrypt_hash("admin");
        let r = self.install_default_admin(hash);
        proof {
            if r == Ok::<bool, UserError>(true) {
                let h = hash->Ok_0@;
                assert(final(self)@ == Map::<Seq<char>, UserView>::empty().insert(
                    "admin"@,
                    new_account("admin"@, h, Role::Admin, None),
                ));
            }
        }
        r
    }

    /// Stores `user` under `key`, replacing any account already stored there.
    fn upsert(&mut self, key: String, user: User)
        ensures
            final(self)@ == old(self)@.insert(key@, user@),
    {
        proof {
            use_type_invariant(&*self);
        }
        let found = self.find(key.as_str());
        let mut users: Vec<(String, User)> = Vec::new();
        std::mem::swap(&mut users, &mut self.users);
        let ghost before = users@.map_values(|e: (String, User)| (e.0@, e.1@));
        assert(before == old(self).entries());
        match found {
            Some(i) => {
                users.remove(i);
                users.insert(i, (key, user));
                proof {
                    let after = users@.map_values(|e: (String, User)| (e.0@, e.1@));
                    assert(after =~= before.update(i as int, (before[i as int].0, user@)));
                    lemma_map_of_update(before, i as int, user@);
                }
            },
            None => {
                let ghost e = (key@, user@);
                users.push((key, user));
                proof {
                    let after = users@.map_values(|e: (String, User)| (e.0@, e.1@));
                    assert(after =~= before.push(e));
                    lemma_push_distinct(before, e);
                }
            },
        }
        self.users = users;
    }

    /// A registry holding the given (name, account) pairs; when a name occurs
    /// twice the later pair wins, as when inserting them one by one into a map.
    pub fn from_entries(entries: Vec<(String, User)>) -> (m: Self)
        ensures
            m@ == map_of(entries@.map_values(|e: (String, User)| (e.0@, e.1@))),
    {
        let ghost ev = entries@.map_values(|e: (String, User)| (e.0@, e.1@));
        let mut m = UserManager::new();
        let n = entries.len();
        assert(ev.take(0) =~= Seq::<EntryView>::empty());
        for i in 0..n
            invariant
                n == entries@.len(),
                ev == entries@.map_values(|e: (String, User)| (e.0@, e.1@)),
                m@ == map_of(ev.take(i as int)),
        {
            proof {
                assert(ev.take(i + 1).drop_last() =~= ev.take(i as int));
            }
            m.upsert(entries[i].0.clone(), copy_user(&entries[i].1));
        }
        assert(ev.take(n as int) =~= ev);
        m
    }

    /// The stored (name, account) pairs, in storage order.
    pub fn export_entries(&self) -> (r: Vec<(String, User)>)
        ensures
            r@.map_values(|e: (String, User)| (e.0@, e.1@)) == self.entries(),
            keys_distinct(self.entries()),
            r@.len() == self@.dom().len(),
            forall|i: int| 0 <= i < r@.len() ==> self@.dom().contains((#[trigger] r@[i]).0@)
                && r@[i].1@ == self@[r@[i].0@],
            forall|i: int, j: int| 0 <= i < r@.len() && 0 <= j < r@.len() && i != j
                ==> (#[trigger] r@[i]).0@ != (#[trigger] r@[j]).0@,
    {
        proof {
            use_type_invariant(self);
            lemma_map_of_len(self.entries());
        }
        let mut r: Vec<(String, User)> = Vec::new();
        let n = self.users.len();
        for i in 0..n
            invariant
                n == self.users@.len(),
                r@.len() == i,
                forall|j: int| 0 <= j < i ==> (#[trigger] r@[j]).0@ == self.entries()[j].0 && r@[j].1@ == self.entries()[j].1,
        {
            r.push((self.users[i].0.clone(), copy_user(&self.users[i].1)));
        }
        assert(r@.map_values(|e: (String, User)| (e.0@, e.1@)) =~= self.entries());
        proof {
            assert forall|i: int| 0 <= i < r@.len() implies self@.dom().contains((#[trigger] r@[i]).0@)
                && r@[i].1@ == self@[r@[i].0@] by {
                lemma_map_of_index(self.entries(), i);
            }
        }
        r
    }
}

impl Default for UserManager {
    fn default() -> (m: Self)
        ensures
            m@ == Map::<Seq<char>, UserView>::empty(),
    {
        UserManager::new()
    }
}

impl View for UserManager {
    type V = Map<Seq<char>, UserView>;

    open spec fn view(&self) -> Map<Seq<char>, UserView> {
        map_of(self.entries())
    }
}


/// A password registered by `add_user` verifies afterwards: when the registry
/// after a successful `add_user(u, p, role, quota)` is the one before with the new
/// account inserted under a hash that bcrypt accepts for `p`, then `verify(u, p)`
/// succeeds on it and the account carries the requested role and quota.
pub proof fn law_added_user_verifies(
    before: Map<Seq<char>, UserView>,
    after: Map<Seq<char>, UserView>,
    username: Seq<char>,
    password: Seq<char>,
    role: Role,
    quota_gb: Option<u64>,
)
    requires
        exists|h: Seq<char>|
            bcrypt_verify_outcome(password, h) == Some(true) && after == #[trigger] before.insert(
                username,
                new_account(username, h, role, quota_gb),
            ),
    ensures
        after.dom().contains(username),
        bcrypt_verify_outcome(password, after[username].password_hash) == Some(true),
        after[username].role == role,
        after[username].quota_gb == quota_gb,
        after[username].username == username,
        forall|k: Seq<char>| k != username ==> (#[trigger] after.dom().contains(k) <==> before.dom().contains(k)),
        forall|k: Seq<char>| k != username && before.dom().contains(k) ==> #[trigger] after[k] == before[k],
{
}

/// A changed password verifies afterwards, and nothing but that account's hash
/// changes.
pub proof fn law_updated_password_verifies(
    before: Map<Seq<char>, UserView>,
    after: Map<Seq<char>, UserView>,
    username: Seq<char>,
    new_password: Seq<char>,
)
    requires
        before.dom().contains(username),
        exists|h: Seq<char>|
            bcrypt_verify_outcome(new_password, h) == Some(true) && after == #[trigger] before.insert(
                username,
                with_password_hash(before[username], h),
            ),
    ensures
        after.dom() == before.dom(),
        bcrypt_verify_outcome(new_password, after[username].password_hash) == Some(true),
        after[username].role == before[username].role,
        after[username].quota_gb == before[username].quota_gb,
        after[username].username == before[username].username,
        forall|k: Seq<char>| k != username && before.dom().contains(k) ==> #[trigger] after[k] == before[k],
{
    assert(after.dom() =~= before.dom());
}

/// Deleting never leaves a registry that had an administrator without one:
/// whenever `delete_user` succeeds on a registry with at least one administrator,
/// at least one remains.
pub proof fn law_delete_keeps_an_admin(before: Map<Seq<char>, UserView>, username: Seq<char>)
    requires
        before.dom().finite(),
        admins(before).len() >= 1,
        before.dom().contains(username),
        !(before[username].role == Role::Admin && admins(before).len() <= 1),
    ensures
        admins(before.remove(username)).len() >= 1,
{
    let after = before.remove(username);
    assert(admins(before).finite()) by {
        before.dom().lemma_len_filter(|k: Seq<char>| before[k].role == Role::Admin);
    }
    if before[username].role == Role::Admin {
        assert(admins(after) =~= admins(before).remove(username));
    } else {
        assert(admins(after) =~= admins(before));
    }
}

/// What a registry exports is what it holds: any list of (name, account) pairs
/// with the properties `export_entries` guarantees (one pair per name of the
/// registry, each with that name's account, no name twice) denotes the registry's
/// map again, so `from_entries(export_entries(m))` equals `m`.
pub proof fn law_entries_round_trip(m: &UserManager, exported: Seq<EntryView>)
    requires
        exported.len() == m@.dom().len(),
        forall|i: int| 0 <= i < exported.len() ==> m@.dom().contains(#[trigger] exported[i].0)
            && exported[i].1 == m@[exported[i].0],
        forall|i: int, j: int| 0 <= i < exported.len() && 0 <= j < exported.len() && i != j
            ==> (#[trigger] exported[i]).0 != (#[trigger] exported[j]).0,
    ensures
        map_of(exported) == m@,
{
    let e = map_of(exported);
    assert(keys_distinct(exported)) by {
        assert forall|i: int, j: int| 0 <= i < exported.len() && 0 <= j < exported.len() && i != j
            implies exported[i].0 != exported[j].0 by {
            assert(exported[i].0 != exported[j].0);
        }
    }
    lemma_map_of_dom(exported);
    lemma_map_of_len(exported);
    lemma_map_of_dom(m.entries());
    assert(e.dom().subset_of(m@.dom())) by {
        assert forall|k: Seq<char>| e.dom().contains(k) implies m@.dom().contains(k) by {
            let i = choose|i: int| 0 <= i < exported.len() && exported[i].0 == k;
            assert(m@.dom().contains(exported[i].0));
        }
    }
    vstd::set_lib::lemma_subset_equality(e.dom(), m@.dom());
    assert forall|k: Seq<char>| e.dom().contains(k) implies e[k] == m@[k] by {
        let i = choose|i: int| 0 <= i < exported.len() && exported[i].0 == k;
        lemma_map_of_index(exported, i);
        assert(exported[i].1 == m@[exported[i].0]);
    }
    assert(e =~= m@);
}

/// A registry's map is finite, so its administrators can be counted.
pub proof fn law_registry_is_finite(m: &UserManager)
    ensures
        m@.dom().finite(),
{
    lemma_map_of_dom(m.entries());
}


/// A host-level account operation that accompanies a registry change.
#[derive(Debug, Clone, Copy, PartialEq, Eq, Structural)]
pub enum AccountStep {
    /// Create the system account with the given password.
    CreateSystemUser,
    /// Limit the system account's disk usage to this many GB.
    SetQuota(u64),
    /// Remove the system account and its home.
    DeleteSystemUser,
    /// Set the system account's password.
    SetSystemPassword,
}

/// Host operations that accompany registering an account: with root privileges,
/// create the system account, then set its quota when one is given; without
/// them, none (the registry alone is updated).
pub fn add_user_system_steps(is_root: bool, quota_gb: Option<u64>) -> (s: Vec<AccountStep>)
    ensures
        !is_root ==> s@.len() == 0,
        is_root && quota_gb is None ==> s@ == seq![AccountStep::CreateSystemUser],
        is_root && quota_gb is Some ==> s@ == seq![AccountStep::CreateSystemUser, AccountStep::SetQuota(quota_gb->0)],
{
    let mut s: Vec<AccountStep> = Vec::new();
    if is_root {
        s.push(AccountStep::CreateSystemUser);
        if let Some(gb) = quota_gb {
            s.push(AccountStep::SetQuota(gb));
        }
    }
    s
}

/// Host operations that accompany deleting an account: with root privileges,
/// remove the system account; without them, none.
pub fn delete_user_system_steps(is_root: bool) -> (s: Vec<AccountStep>)
    ensures
        !is_root ==> s@.len() == 0,
        is_root ==> s@ == seq![AccountStep::DeleteSystemUser],
{
    let mut s: Vec<AccountStep> = Vec::new();
    if is_root {
        s.push(AccountStep::DeleteSystemUser);
    }
    s
}

/// Host operations that accompany a password change: with root privileges, set
/// the system account's password; without them, none.
pub fn update_password_system_steps(is_root: bool) -> (s: Vec<AccountStep>)
    ensures
        !is_root ==> s@.len() == 0,
        is_root ==> s@ == seq![AccountStep::SetSystemPassword],
{
    let mut s: Vec<AccountStep> = Vec::new();
    if is_root {
        s.push(AccountStep::SetSystemPassword);
    }
    s
}

/// The characters allowed in a user name are exactly the ASCII letters (upper
/// and lower case), the ASCII digits, `_` and `-`, by code point.
pub proof fn law_username_characters(c: char)
    ensures
        is_username_char(c) <==> (0x41 <= (c as u32) <= 0x5A || 0x61 <= (c as u32) <= 0x7A
            || 0x30 <= (c as u32) <= 0x39 || (c as u32) == 0x5F || (c as u32) == 0x2D),
{
}

/// When several entries share a name, the last one wins: the name maps to the
/// account of its last entry.
pub proof fn law_later_entries_win(s: Seq<EntryView>, i: int)
    requires
        0 <= i < s.len(),
        forall|j: int| i < j < s.len() ==> #[trigger] s[j].0 != s[i].0,
    ensures
        map_of(s).dom().contains(s[i].0),
        map_of(s)[s[i].0] == s[i].1,
    decreases s.len(),
{
    if i < s.len() - 1 {
        let d = s.drop_last();
        assert forall|j: int| i < j < d.len() implies #[trigger] d[j].0 != d[i].0 by {
            assert(d[j] == s[j]);
        }
        law_later_entries_win(d, i);
        assert(d[i] == s[i]);
        assert(s[s.len() - 1].0 != s[i].0);
    }
}

/// The administrators of a registry are exactly its accounts with the Admin role.
pub proof fn law_admins(m: Map<Seq<char>, UserView>, k: Seq<char>)
    ensures
        admins(m).contains(k) <==> (m.dom().contains(k) && m[k].role == Role::Admin),
{
}

/// A new account holds what it was registered with, and replacing a password hash
/// changes the hash and nothing else.
pub proof fn law_account_fields(
    u: UserView,
    username: Seq<char>,
    h: Seq<char>,
    role: Role,
    quota_gb: Option<u64>,
)
    ensures
        new_account(username, h, role, quota_gb).username == username,
        new_account(username, h, role, quota_gb).password_hash == h,
        new_account(username, h, role, quota_gb).role == role,
        new_account(username, h, role, quota_gb).quota_gb == quota_gb,
        with_password_hash(u, h).password_hash == h,
        with_password_hash(u, h).username == u.username,
        with_password_hash(u, h).role == u.role,
        with_password_hash(u, h).quota_gb == u.quota_gb,
{
}

/// Each registry error has its own message: no two errors that are not the same
/// read the same.
pub proof fn law_error_messages_distinct(a: UserError, b: UserError)
    requires
        !(a is HashFailed) && !(b is HashFailed),
        a != b,
    ensures
        user_error_message(a) != user_error_message(b),
{
    reveal_strlit("User already exists");
    reveal_strlit("Invalid username: allowed characters are ASCII alphanumeric, underscore, and hyphen");
    reveal_strlit("User not found");
    reveal_strlit("Cannot delete the last admin user");
    assert("User already exists"@.len() == 19);
    assert("User not found"@.len() == 14);
    assert("Cannot delete the last admin user"@.len() == 33);
    assert("Invalid username: allowed characters are ASCII alphanumeric, underscore, and hyphen"@.len() > 33);
}

} // verus!
