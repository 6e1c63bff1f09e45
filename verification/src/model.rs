//! The data that the audit works on.

use vstd::prelude::*;

verus! {

/// The file that holds the snapshot of the last collection.
pub const SNAPSHOT_FILE: &'static str = "data.json";

/// The file that holds the manifest of the last sweep.
pub const MANIFEST_FILE: &'static str = "deleted.json";

/// The credentials of one run: a session token, the account whose follow list
/// is audited, and the token that authorises changes to that list.
pub struct Config {
    pub sessdata: String,
    pub vmid: String,
    pub csrf_token: String,
}

/// One followed account.
#[derive(Debug, PartialEq, Eq)]
pub struct Relation {
    pub mid: u64,
    pub mtime: u64,
    pub uname: String,
}

/// What a `Relation` holds, as mathematical values.
pub struct RelationView {
    pub mid: u64,
    pub mtime: u64,
    pub uname: Seq<char>,
}

impl View for Relation {
    type V = RelationView;

    open spec fn view(&self) -> RelationView {
        RelationView { mid: self.mid, mtime: self.mtime, uname: self.uname@ }
    }
}

impl Clone for Relation {
    fn clone(&self) -> (copy: Relation)
        ensures
            copy == *self,
    {
        Relation { mid: self.mid, mtime: self.mtime, uname: self.uname.clone() }
    }
}

/// The views of a sequence of relations, in the same order.
pub open spec fn relation_views(relations: Seq<Relation>) -> Seq<RelationView> {
    relations.map_values(|r: Relation| r@)
}

/// A follow list as the server reported it: the entries, and the number of
/// entries that the server said the whole list has.
#[derive(Debug, PartialEq, Eq)]
pub struct Snapshot {
    pub list: Vec<Relation>,
    pub total: u16,
}

/// What a `Snapshot` holds, as mathematical values.
pub struct SnapshotView {
    pub list: Seq<RelationView>,
    pub total: u16,
}

impl View for Snapshot {
    type V = SnapshotView;

    open spec fn view(&self) -> SnapshotView {
        SnapshotView { list: relation_views(self.list@), total: self.total }
    }
}

/// Why a request to the server gave no usable reply.
#[derive(Clone, Copy, Debug, PartialEq, Eq, Structural)]
pub enum RequestError {
    /// The request could not be sent, or no reply came back.
    Network,
    /// A reply came back in a shape other than the expected one.
    Protocol,
}

} // verus!
