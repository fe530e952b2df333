//! Object keys: a namespace and a key, both joined with `/`.
use vstd::prelude::*;
use vstd::string::StringExecFns;

verus! {

/// `a` and `b` joined by one `/`.
pub open spec fn joined(a: Seq<char>, b: Seq<char>) -> Seq<char> {
    a + seq!['/'] + b
}

/// The text of each string, in order.
pub open spec fn views(v: Seq<String>) -> Seq<Seq<char>> {
    v.map_values(|s: String| s@)
}

/// Where a blob lives in the object store: a namespace (bucket and folders)
/// and a key inside it.
#[derive(Debug, Clone, PartialEq, Eq)]
pub struct ObjectTarget {
    pub namespace: String,
    pub key: String,
}

impl ObjectTarget {
    /// The full path of the blob.
    pub open spec fn full_path(&self) -> Seq<char> {
        joined(self.namespace@, self.key@)
    }
}

/// Joins two path parts with one `/`.
pub fn join_path(a: &str, b: &str) -> (r: String)
    ensures
        r@ == joined(a@, b@),
{
    let mut r = String::from_str(a);
    proof {
        reveal_strlit("/");
    }
    r.append("/");
    r.append(b);
    r
}

} // verus!
