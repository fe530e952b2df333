//! The listing and deletion coordinator.
use vstd::prelude::*;
use vstd::string::StringExecFns;
use crate::paths::{join_path, joined, views, ObjectTarget};
use crate::{STATUS_NOT_FOUND, STATUS_OK};

verus! {

/// A listing request: every key under `name`.
#[derive(Debug, Clone, PartialEq, Eq)]
pub struct ListInfo {
    pub name: String,
}

/// A deletion request: the blob `item_name` in the folder `project_name`.
#[derive(Debug, Clone, PartialEq, Eq)]
pub struct DeleteItem {
    pub project_name: String,
    pub item_name: String,
}

/// What to ask the object store to list.
#[derive(Debug, Clone, PartialEq, Eq)]
pub struct ListRequest {
    pub prefix: String,
    pub delimiter: String,
}

/// The reply to a listing request.
#[derive(Debug, Clone, PartialEq, Eq)]
pub struct KeyListing {
    pub status: u16,
    pub keys: Vec<String>,
}

/// The keys that the listed objects carry, in their order.
pub open spec fn present_keys(listed: Seq<Option<String>>) -> Seq<Seq<char>>
    decreases listed.len(),
{
    if listed.len() == 0 {
        Seq::empty()
    } else {
        match listed.last() {
            Some(k) => present_keys(listed.drop_last()).push(k@),
            None => present_keys(listed.drop_last()),
        }
    }
}

impl ListInfo {
    /// Everything under `name`, down to the next `/`.
    pub fn list_request(&self) -> (r: ListRequest)
        ensures
            r.prefix@ == self.name@,
            r.delimiter@ == seq!['/'],
    {
        proof {
            reveal_strlit("/");
        }
        ListRequest { prefix: self.name.clone(), delimiter: String::from_str("/") }
    }
}

/// The reply to a listing, from the keys of the objects that the store
/// listed (an object without a key is passed over): found with the keys,
/// or not found with no key when there are none.
pub fn list_reply(listed: &Vec<Option<String>>) -> (r: KeyListing)
    ensures
        views(r.keys@) == present_keys(listed@),
        r.status == (if present_keys(listed@).len() == 0 {
            STATUS_NOT_FOUND
        } else {
            STATUS_OK
        }),
{
    let mut keys: Vec<String> = Vec::new();
    let mut i: usize = 0;
    while i < listed.len()
        invariant
            i <= listed.len(),
            views(keys@) == present_keys(listed@.subrange(0, i as int)),
        decreases listed.len() - i,
    {
        assert(listed@.subrange(0, i + 1).drop_last() =~= listed@.subrange(0, i as int));
        match &listed[i] {
            Some(k) => {
                keys.push(k.clone());
                assert(views(keys@) =~= present_keys(listed@.subrange(0, i + 1)));
            },
            None => {},
        }
        i = i + 1;
    }
    assert(listed@.subrange(0, listed.len() as int) =~= listed@);
    let status = if keys.len() == 0 {
        STATUS_NOT_FOUND
    } else {
        STATUS_OK
    };
    KeyListing { status, keys }
}

impl DeleteItem {
    /// The blob to delete: `item_name` in the namespace `{root}/{project_name}`.
    pub fn target(&self, root: &str) -> (r: ObjectTarget)
        ensures
            r.namespace@ == joined(root@, self.project_name@),
            r.key@ == self.item_name@,
    {
        ObjectTarget {
            namespace: join_path(root, self.project_name.as_str()),
            key: self.item_name.clone(),
        }
    }
}

} // verus!
