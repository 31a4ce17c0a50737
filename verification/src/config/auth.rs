//! Credentials: the four ways to sign in, told apart by the keys they use.

use crate::text::str_eq;
use vstd::prelude::*;

verus! {

/// The credentials of a root user.
#[derive(Clone, Debug, PartialEq, Eq)]
pub struct Root {
    user: String,
    pass: String,
}

/// The credentials of a user of one namespace.
#[derive(Clone, Debug, PartialEq, Eq)]
pub struct Namespace {
    ns: String,
    user: String,
    pass: String,
}

/// The credentials of a user of one database.
#[derive(Clone, Debug, PartialEq, Eq)]
pub struct Database {
    pub ns: String,
    pub db: String,
    pub user: String,
    pub pass: String,
}

/// The credentials of a scope: where it lives, and the parameters that its
/// sign-in asks for.
#[derive(Clone, Debug, PartialEq)]
pub struct Scope<P> {
    pub ns: String,
    pub db: String,
    pub sc: String,
    pub params: P,
}

/// A user's name and password.
pub struct RootView {
    pub user: Seq<char>,
    pub pass: Seq<char>,
}

/// A namespace, and a user's name and password.
pub struct NamespaceView {
    pub ns: Seq<char>,
    pub user: Seq<char>,
    pub pass: Seq<char>,
}

/// A namespace, a database, and a user's name and password.
pub struct DatabaseView {
    pub ns: Seq<char>,
    pub db: Seq<char>,
    pub user: Seq<char>,
    pub pass: Seq<char>,
}

impl View for Root {
    type V = RootView;

    closed spec fn view(&self) -> RootView {
        RootView { user: self.user@, pass: self.pass@ }
    }
}

impl View for Namespace {
    type V = NamespaceView;

    closed spec fn view(&self) -> NamespaceView {
        NamespaceView { ns: self.ns@, user: self.user@, pass: self.pass@ }
    }
}

impl View for Database {
    type V = DatabaseView;

    open spec fn view(&self) -> DatabaseView {
        DatabaseView { ns: self.ns@, db: self.db@, user: self.user@, pass: self.pass@ }
    }
}

impl Root {
    pub fn new(user: &str, pass: &str) -> (r: Root)
        ensures
            r@ == (RootView { user: user@, pass: pass@ }),
    {
        Root { user: user.to_owned(), pass: pass.to_owned() }
    }

    /// The keys of a root user's credentials.
    pub fn keys() -> (keys: Vec<&'static str>)
        ensures
            key_views(keys@) == root_keys(),
    {
        let keys = vec!["user", "pass"];
        assert(key_views(keys@) =~= root_keys());
        keys
    }

    pub fn user(&self) -> (user: &str)
        ensures
            user@ == self@.user,
    {
        self.user.as_str()
    }

    pub fn pass(&self) -> (pass: &str)
        ensures
            pass@ == self@.pass,
    {
        self.pass.as_str()
    }
}

impl Default for Root {
    /// The user `root` with the password `root`.
    fn default() -> (r: Root)
        ensures
            r@ == (RootView { user: "root"@, pass: "root"@ }),
    {
        Root::new("root", "root")
    }
}

impl Namespace {
    pub fn new(user: &str, pass: &str, ns: &str) -> (n: Namespace)
        ensures
            n@ == (NamespaceView { ns: ns@, user: user@, pass: pass@ }),
    {
        Namespace { ns: ns.to_owned(), user: user.to_owned(), pass: pass.to_owned() }
    }

    /// The keys of a namespace user's credentials.
    pub fn keys() -> (keys: Vec<&'static str>)
        ensures
            key_views(keys@) == namespace_keys(),
    {
        let keys = vec!["user", "pass", "ns"];
        assert(key_views(keys@) =~= namespace_keys());
        keys
    }

    pub fn ns(&self) -> (ns: &str)
        ensures
            ns@ == self@.ns,
    {
        self.ns.as_str()
    }

    pub fn user(&self) -> (user: &str)
        ensures
            user@ == self@.user,
    {
        self.user.as_str()
    }

    pub fn pass(&self) -> (pass: &str)
        ensures
            pass@ == self@.pass,
    {
        self.pass.as_str()
    }
}

impl Database {
    pub fn new(user: &str, pass: &str, ns: &str, db: &str) -> (d: Database)
        ensures
            d@ == (DatabaseView { ns: ns@, db: db@, user: user@, pass: pass@ }),
    {
        Database {
            ns: ns.to_owned(),
            db: db.to_owned(),
            user: user.to_owned(),
            pass: pass.to_owned(),
        }
    }

    /// The keys of a database user's credentials.
    pub fn keys() -> (keys: Vec<&'static str>)
        ensures
            key_views(keys@) == database_keys(),
    {
        let keys = vec!["user", "pass", "ns", "db"];
        assert(key_views(keys@) =~= database_keys());
        keys
    }
}

impl<P> Scope<P> {
    pub fn new(ns: &str, db: &str, sc: &str, params: P) -> (s: Scope<P>)
        ensures
            s.ns@ == ns@,
            s.db@ == db@,
            s.sc@ == sc@,
            s.params == params,
    {
        Scope { ns: ns.to_owned(), db: db.to_owned(), sc: sc.to_owned(), params }
    }

    /// The keys that every scope's credentials have; the parameters' keys
    /// come on top of them.
    pub fn keys() -> (keys: Vec<&'static str>)
        ensures
            key_views(keys@) == scope_keys(),
    {
        let keys = vec!["ns", "db", "sc"];
        assert(key_views(keys@) =~= scope_keys());
        keys
    }
}

/// The keys of a list, each as its characters.
pub open spec fn key_views(keys: Seq<&'static str>) -> Seq<Seq<char>> {
    Seq::new(keys.len(), |i: int| keys[i]@)
}

/// The keys of a root user's credentials.
pub open spec fn root_keys() -> Seq<Seq<char>> {
    seq!["user"@, "pass"@]
}

/// The keys of a namespace user's credentials.
pub open spec fn namespace_keys() -> Seq<Seq<char>> {
    seq!["user"@, "pass"@, "ns"@]
}

/// The keys of a database user's credentials.
pub open spec fn database_keys() -> Seq<Seq<char>> {
    seq!["user"@, "pass"@, "ns"@, "db"@]
}

/// The keys that every scope's credentials have.
pub open spec fn scope_keys() -> Seq<Seq<char>> {
    seq!["ns"@, "db"@, "sc"@]
}

/// Whether two lists hold the same keys, whatever their order and however
/// often a key stands in them.
pub open spec fn same_keys(a: Seq<Seq<char>>, b: Seq<Seq<char>>) -> bool {
    &&& forall|i: int| 0 <= i < a.len() ==> b.contains(#[trigger] a[i])
    &&& forall|i: int| 0 <= i < b.len() ==> a.contains(#[trigger] b[i])
}

/// The keys of a list of owned strings, each as its characters.
pub open spec fn owned_views(keys: Seq<String>) -> Seq<Seq<char>> {
    Seq::new(keys.len(), |i: int| keys[i]@)
}

/// Whether `key` stands in `keys`.
fn has_key(keys: &Vec<&'static str>, key: &str) -> (found: bool)
    ensures
        found == key_views(keys@).contains(key@),
{
    let mut i: usize = 0;
    while i < keys.len()
        invariant
            i <= keys.len(),
            forall|j: int| 0 <= j < i ==> key_views(keys@)[j] != key@,
        decreases keys.len() - i,
    {
        if str_eq(keys[i], key) {
            assert(key_views(keys@)[i as int] == key@);
            return true;
        }
        i += 1;
    }
    false
}

/// Whether `key` stands in `given`.
fn is_given(given: &Vec<String>, key: &str) -> (found: bool)
    ensures
        found == owned_views(given@).contains(key@),
{
    let mut i: usize = 0;
    while i < given.len()
        invariant
            i <= given.len(),
            forall|j: int| 0 <= j < i ==> owned_views(given@)[j] != key@,
        decreases given.len() - i,
    {
        if str_eq(given[i].as_str(), key) {
            assert(owned_views(given@)[i as int] == key@);
            return true;
        }
        i += 1;
    }
    false
}

/// Whether the keys that were given are those that are expected.
pub fn keys_match(given: &Vec<String>, expected: &Vec<&'static str>) -> (same: bool)
    ensures
        same == same_keys(owned_views(given@), key_views(expected@)),
{
    let mut i: usize = 0;
    while i < given.len()
        invariant
            i <= given.len(),
            forall|j: int|
                0 <= j < i ==> key_views(expected@).contains(#[trigger] owned_views(given@)[j]),
        decreases given.len() - i,
    {
        if !has_key(expected, given[i].as_str()) {
            assert(!key_views(expected@).contains(owned_views(given@)[i as int]));
            return false;
        }
        i += 1;
    }
    let mut k: usize = 0;
    while k < expected.len()
        invariant
            k <= expected.len(),
            forall|j: int|
                0 <= j < given.len() ==> key_views(expected@).contains(
                    #[trigger] owned_views(given@)[j],
                ),
            forall|j: int|
                0 <= j < k ==> owned_views(given@).contains(#[trigger] key_views(expected@)[j]),
        decreases expected.len() - k,
    {
        if !is_given(given, expected[k]) {
            assert(!owned_views(given@).contains(key_views(expected@)[k as int]));
            return false;
        }
        k += 1;
    }
    true
}

/// The form of a set of credentials.
#[derive(Clone, Copy, Debug, PartialEq, Eq, Structural)]
pub enum Shape {
    Root,
    Namespace,
    Database,
    Scope,
}

/// Why a set of keys is no set of credentials.
#[derive(Clone, Copy, Debug, PartialEq, Eq, Structural)]
pub enum CredentialError {
    /// Two keys that are not `user` and `pass`.
    RootKeys,
    /// Three keys that are not `user`, `pass` and `ns`.
    NamespaceKeys,
    /// Four keys that are not `user`, `pass`, `ns` and `db`.
    DatabaseKeys,
}

/// Any of the four credentials. A scope's may still be missing.
#[derive(Clone, Debug, PartialEq)]
pub enum AuthCredentials<P> {
    Root(Root),
    NS(Namespace),
    DB(Database),
    SC(Option<Scope<P>>),
}

/// The form that a set of keys asks for: by their number first, and then
/// by what they are. Four keys that are not a database user's are left to
/// be a scope's.
pub open spec fn shape_of(keys: Seq<Seq<char>>) -> Result<Shape, CredentialError> {
    if keys.len() == 2 {
        if same_keys(keys, root_keys()) {
            Ok(Shape::Root)
        } else {
            Err(CredentialError::RootKeys)
        }
    } else if keys.len() == 3 {
        if same_keys(keys, namespace_keys()) {
            Ok(Shape::Namespace)
        } else {
            Err(CredentialError::NamespaceKeys)
        }
    } else if keys.len() == 4 && same_keys(keys, database_keys()) {
        Ok(Shape::Database)
    } else {
        Ok(Shape::Scope)
    }
}

/// As `shape_of`, but four keys have to be a database user's.
pub open spec fn strict_shape_of(keys: Seq<Seq<char>>) -> Result<Shape, CredentialError> {
    if keys.len() == 4 && !same_keys(keys, database_keys()) {
        Err(CredentialError::DatabaseKeys)
    } else {
        shape_of(keys)
    }
}

impl<P> AuthCredentials<P> {
    pub fn is_root(&self) -> (b: bool)
        ensures
            b == (self is Root),
    {
        matches!(self, AuthCredentials::Root(_))
    }

    pub fn is_ns(&self) -> (b: bool)
        ensures
            b == (self is NS),
    {
        matches!(self, AuthCredentials::NS(_))
    }

    pub fn is_db(&self) -> (b: bool)
        ensures
            b == (self is DB),
    {
        matches!(self, AuthCredentials::DB(_))
    }

    pub fn is_sc(&self) -> (b: bool)
        ensures
            b == (self is SC),
    {
        matches!(self, AuthCredentials::SC(_))
    }

    /// The form of the credentials that have the keys `keys`.
    pub fn shape(keys: &Vec<String>) -> (r: Result<Shape, CredentialError>)
        ensures
            r == shape_of(owned_views(keys@)),
    {
        let n = keys.len();
        if n == 2 {
            if keys_match(keys, &Root::keys()) {
                Ok(Shape::Root)
            } else {
                Err(CredentialError::RootKeys)
            }
        } else if n == 3 {
            if keys_match(keys, &Namespace::keys()) {
                Ok(Shape::Namespace)
            } else {
                Err(CredentialError::NamespaceKeys)
            }
        } else if n == 4 && keys_match(keys, &Database::keys()) {
            Ok(Shape::Database)
        } else {
            Ok(Shape::Scope)
        }
    }
}

/// Any of the four credentials, each complete.
#[derive(Clone, Debug, PartialEq)]
pub enum SurrealCredentials<P> {
    Root(Root),
    Namespace(Namespace),
    Database(Database),
    Scope(Scope<P>),
}

impl<P> SurrealCredentials<P> {
    /// The form of the credentials that have the keys `keys`, where four
    /// keys have to be a database user's.
    pub fn shape(keys: &Vec<String>) -> (r: Result<Shape, CredentialError>)
        ensures
            r == strict_shape_of(owned_views(keys@)),
    {
        if keys.len() == 4 && !keys_match(keys, &Database::keys()) {
            Err(CredentialError::DatabaseKeys)
        } else {
            AuthCredentials::<P>::shape(keys)
        }
    }

    /// The form of these credentials.
    pub fn form(&self) -> (s: Shape)
        ensures
            s == match self {
                SurrealCredentials::Root(_) => Shape::Root,
                SurrealCredentials::Namespace(_) => Shape::Namespace,
                SurrealCredentials::Database(_) => Shape::Database,
                SurrealCredentials::Scope(_) => Shape::Scope,
            },
    {
        match self {
            SurrealCredentials::Root(_) => Shape::Root,
            SurrealCredentials::Namespace(_) => Shape::Namespace,
            SurrealCredentials::Database(_) => Shape::Database,
            SurrealCredentials::Scope(_) => Shape::Scope,
        }
    }
}

} // verus!
