//! Store keys and the node paths that chunk keys are placed under.
use vstd::prelude::*;
use vstd::string::*;

verus! {

/// Whether `s` is a valid store key: non-empty and not starting with `/`.
pub open spec fn is_valid_store_key(s: Seq<char>) -> bool {
    s.len() > 0 && s[0] != '/'
}

/// Whether `s` has two `/` in a row.
pub open spec fn has_empty_component(s: Seq<char>) -> bool {
    exists|i: int| 0 <= i < s.len() - 1 && #[trigger] s[i] == '/' && s[i + 1] == '/'
}

/// Whether `s` is a valid node path: `/` alone, or starting with `/`, not
/// ending with `/` and without two `/` in a row.
pub open spec fn is_valid_node_path(s: Seq<char>) -> bool {
    s.len() > 0 && s[0] == '/' && (s.len() == 1 || s.last() != '/') && !has_empty_component(s)
}

/// The key under which a chunk with key `chunk_key` of the node at `path` is stored:
/// the path without its leading `/`, then `/`, then the chunk key; or the chunk key
/// alone for the root node.
pub open spec fn data_key_of(path: Seq<char>, chunk_key: Seq<char>) -> Seq<char> {
    if path.len() <= 1 {
        chunk_key
    } else {
        path.subrange(1, path.len() as int) + seq!['/'] + chunk_key
    }
}

/// A key of a store: a relative path naming one stored value.
#[derive(Debug, Clone)]
pub struct StoreKey {
    key: String,
}

/// A string that is not a valid store key.
#[derive(Debug, Clone)]
pub struct StoreKeyError {
    key: String,
}

/// A node path: `/` for the root node, else `/` followed by the node's name
/// components separated by `/`.
#[derive(Debug, Clone)]
pub struct NodePath {
    path: String,
}

/// A string that is not a valid node path.
#[derive(Debug, Clone)]
pub struct NodePathError {
    path: String,
}

impl View for StoreKey {
    type V = Seq<char>;

    closed spec fn view(&self) -> Seq<char> {
        self.key@
    }
}

impl View for StoreKeyError {
    type V = Seq<char>;

    closed spec fn view(&self) -> Seq<char> {
        self.key@
    }
}

impl View for NodePath {
    type V = Seq<char>;

    closed spec fn view(&self) -> Seq<char> {
        self.path@
    }
}

impl View for NodePathError {
    type V = Seq<char>;

    closed spec fn view(&self) -> Seq<char> {
        self.path@
    }
}

/// Whether `s` is non-empty and starts with `c`.
fn starts_with_char(s: &str, c: char) -> (r: bool)
    ensures
        r == (s@.len() > 0 && s@[0] == c),
{
    s.unicode_len() > 0 && s.get_char(0) == c
}

/// Whether `s` has two `/` in a row.
fn find_empty_component(s: &str) -> (r: bool)
    ensures
        r == has_empty_component(s@),
{
    let len = s.unicode_len();
    if len < 2 {
        return false;
    }
    let mut i: usize = 0;
    while i < len - 1
        invariant
            len == s@.len(),
            len >= 2,
            i <= len - 1,
            forall|j: int| 0 <= j < i ==> !(#[trigger] s@[j] == '/' && s@[j + 1] == '/'),
        decreases len - 1 - i,
    {
        if s.get_char(i) == '/' && s.get_char(i + 1) == '/' {
            return true;
        }
        i = i + 1;
    }
    false
}

impl StoreKey {
    /// Whether the key is valid.
    pub closed spec fn wf(&self) -> bool {
        is_valid_store_key(self.key@)
    }

    /// Creates a store key from `key`, or returns an error holding `key` if it
    /// is not a valid store key.
    pub fn new(key: &str) -> (r: Result<StoreKey, StoreKeyError>)
        ensures
            match r {
                Ok(k) => is_valid_store_key(key@) && k@ == key@ && k.wf(),
                Err(e) => !is_valid_store_key(key@) && e@ == key@,
            },
    {
        let valid = key.unicode_len() > 0 && !starts_with_char(key, '/');
        if valid {
            Ok(StoreKey { key: String::from_str(key) })
        } else {
            Err(StoreKeyError { key: String::from_str(key) })
        }
    }

    /// Creates a store key from a string already known to be valid.
    pub(crate) fn new_unchecked(key: String) -> (r: StoreKey)
        requires
            is_valid_store_key(key@),
        ensures
            r@ == key@,
            r.wf(),
    {
        StoreKey { key }
    }

    /// The key as a string slice.
    pub fn as_str(&self) -> (r: &str)
        ensures
            r@ == self@,
    {
        self.key.as_str()
    }
}

impl PartialEq for StoreKey {
    fn eq(&self, other: &StoreKey) -> (r: bool) {
        self.key == other.key
    }
}

impl vstd::std_specs::cmp::PartialEqSpecImpl for StoreKey {
    open spec fn obeys_eq_spec() -> bool {
        true
    }

    open spec fn eq_spec(&self, other: &StoreKey) -> bool {
        self@ == other@
    }
}

impl Eq for StoreKey {
}

impl NodePath {
    /// Whether the path is valid.
    pub closed spec fn wf(&self) -> bool {
        is_valid_node_path(self.path@)
    }

    /// The path of the root node, `/`.
    pub fn root() -> (r: NodePath)
        ensures
            r@ == seq!['/'],
            r.wf(),
    {
        proof {
            reveal_strlit("/");
        }
        NodePath { path: String::from_str("/") }
    }

    /// Creates a node path from `path`, or returns an error holding `path` if
    /// it is not a valid node path.
    pub fn new(path: &str) -> (r: Result<NodePath, NodePathError>)
        ensures
            match r {
                Ok(p) => is_valid_node_path(path@) && p@ == path@ && p.wf(),
                Err(e) => !is_valid_node_path(path@) && e@ == path@,
            },
    {
        let len = path.unicode_len();
        let valid = starts_with_char(path, '/') && (len == 1 || path.get_char(len - 1) != '/')
            && !find_empty_component(path);
        if valid {
            Ok(NodePath { path: String::from_str(path) })
        } else {
            Err(NodePathError { path: String::from_str(path) })
        }
    }

    /// The path as a string slice.
    pub fn as_str(&self) -> (r: &str)
        ensures
            r@ == self@,
    {
        self.path.as_str()
    }
}

/// The store key of the chunk with key `chunk_key` in the node at `path`.
pub fn data_key(path: &NodePath, chunk_key: &StoreKey) -> (r: StoreKey)
    requires
        path.wf(),
        chunk_key.wf(),
    ensures
        r@ == data_key_of(path@, chunk_key@),
        r.wf(),
{
    let p = path.as_str();
    let len = p.unicode_len();
    if len <= 1 {
        StoreKey { key: String::from_str(chunk_key.as_str()) }
    } else {
        let mut key = String::from_str(p.substring_char(1, len));
        proof {
            reveal_strlit("/");
        }
        key.append("/");
        key.append(chunk_key.as_str());
        assert(key@ =~= data_key_of(path@, chunk_key@));
        assert(key@[0] == path@[1]);
        assert(path@[1] != '/') by {
            if path@[1] == '/' {
                assert(path@[0int] == '/' && path@[0int + 1] == '/');
            }
        }
        StoreKey { key }
    }
}

} // verus!
