use vstd::prelude::*;
use crate::address::Address;

verus! {

/// A timezone-aware instant as the wire format carries it: seconds since the
/// epoch in UTC together with a fixed offset in seconds. Offsets are bounded
/// by one day and the instant by a comfortable range, so converting to a
/// local naive timestamp never overflows.
#[derive(Debug)]
pub struct WireTime {
    pub secs: i64,
    pub offset: i32,
}

pub open spec fn wf_time(t: WireTime) -> bool {
    &&& -0x1000_0000_0000_0000 <= t.secs <= 0x1000_0000_0000_0000
    &&& -86400 <= t.offset <= 86400
}

pub open spec fn spec_naive_local(t: WireTime) -> int {
    t.secs + t.offset
}

impl WireTime {
    /// Drop the offset: the naive local timestamp this instant shows on a
    /// clock at its own offset.
    pub fn naive_local(&self) -> (r: i64)
        requires
            wf_time(*self),
        ensures
            r == spec_naive_local(*self),
    {
        self.secs + (self.offset as i64)
    }

    pub fn utc(secs: i64) -> (r: WireTime)
        ensures
            r.secs == secs,
            r.offset == 0,
    {
        WireTime { secs, offset: 0 }
    }
}

/// The raw markdown source carried beside the rendered content, so that the
/// original text survives the round trip.
#[derive(Debug)]
pub struct Source {
    pub content: String,
}

/// The wire representation of a post: an addressable "Page" object as it is
/// exchanged between instances. Unrecognized top-level attributes are kept in
/// `unparsed`, captured at parse time and ignored when a page is built
/// locally.
#[derive(Debug)]
pub struct Page {
    pub id: Address,
    pub attributed_to: Address,
    pub to: Vec<Address>,
    pub name: String,
    pub content: Option<String>,
    pub media_type: Option<String>,
    pub source: Option<Source>,
    pub url: Option<Address>,
    pub image: Option<Address>,
    pub comments_enabled: Option<bool>,
    pub sensitive: Option<bool>,
    pub stickied: Option<bool>,
    pub published: Option<WireTime>,
    pub updated: Option<WireTime>,
    pub unparsed: Vec<(String, String)>,
}

/// A minimal wire representation of a deleted object: its original kind and
/// the moment of its last change.
#[derive(Debug)]
pub struct Tombstone {
    pub former_kind: String,
    pub deleted: WireTime,
}

} // verus!
