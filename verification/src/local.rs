use vstd::prelude::*;
use crate::address::Address;

verus! {

/// The locally persisted form of a post. Timestamps are naive local seconds;
/// the network address (`ap_id`) is immutable once the row exists and is the
/// upsert key.
#[derive(Debug)]
pub struct ApubPost {
    pub id: u64,
    pub name: String,
    pub url: Option<Address>,
    pub body: Option<String>,
    pub creator_id: u64,
    pub community_id: u64,
    pub removed: bool,
    pub locked: bool,
    pub published: i64,
    pub updated: Option<i64>,
    pub deleted: bool,
    pub nsfw: bool,
    pub stickied: bool,
    pub embed_title: Option<String>,
    pub embed_description: Option<String>,
    pub embed_html: Option<String>,
    pub thumbnail_url: Option<Address>,
    pub ap_id: Address,
    pub local: bool,
}

impl ApubPost {
    /// The collaborator interface reports when this copy was last refreshed
    /// from its origin; a post is never refreshed on a timer.
    pub fn last_refreshed_at(&self) -> (r: Option<i64>)
        ensures
            r is None,
    {
        None
    }
}

/// The persistence form an inbound conversion hands to the upsert operation.
/// A `None` in an optional flag or timestamp means: keep the stored value on
/// update, take the column default on insert.
#[derive(Debug)]
pub struct PostForm {
    pub name: String,
    pub url: Option<Address>,
    pub body: Option<String>,
    pub creator_id: u64,
    pub community_id: u64,
    pub removed: Option<bool>,
    pub locked: Option<bool>,
    pub published: Option<i64>,
    pub updated: Option<i64>,
    pub deleted: Option<bool>,
    pub nsfw: Option<bool>,
    pub stickied: Option<bool>,
    pub embed_title: Option<String>,
    pub embed_description: Option<String>,
    pub embed_html: Option<String>,
    pub thumbnail_url: Option<Address>,
    pub ap_id: Address,
    pub local: Option<bool>,
}

/// A local actor: the persisted copy of a person, keyed by numeric id and by
/// network address.
#[derive(Debug)]
pub struct Person {
    pub id: u64,
    pub actor_id: Address,
}

/// A local community: the persisted copy, with the ids of the actors it has
/// banned.
#[derive(Debug)]
pub struct Community {
    pub id: u64,
    pub actor_id: Address,
    pub banned: Vec<u64>,
}

impl Person {
    pub fn duplicate(&self) -> (r: Person)
        ensures
            r == *self,
    {
        Person { id: self.id, actor_id: self.actor_id.duplicate() }
    }
}

pub fn dup_opt_string(o: &Option<String>) -> (r: Option<String>)
    ensures
        r == *o,
{
    match o {
        Some(s) => Some(s.clone()),
        None => None,
    }
}

pub fn dup_opt_addr(o: &Option<Address>) -> (r: Option<Address>)
    ensures
        r == *o,
{
    match o {
        Some(a) => Some(a.duplicate()),
        None => None,
    }
}

pub fn copy_ids(v: &Vec<u64>) -> (r: Vec<u64>)
    ensures
        r@ == v@,
{
    let mut out: Vec<u64> = Vec::new();
    let mut i: usize = 0;
    while i < v.len()
        invariant
            0 <= i <= v.len(),
            out@ == v@.subrange(0, i as int),
        decreases v.len() - i,
    {
        out.push(v[i]);
        i += 1;
    }
    proof {
        assert(out@ =~= v@);
    }
    out
}

impl ApubPost {
    pub fn duplicate(&self) -> (r: ApubPost)
        ensures
            r == *self,
    {
        ApubPost {
            id: self.id,
            name: self.name.clone(),
            url: dup_opt_addr(&self.url),
            body: dup_opt_string(&self.body),
            creator_id: self.creator_id,
            community_id: self.community_id,
            removed: self.removed,
            locked: self.locked,
            published: self.published,
            updated: self.updated,
            deleted: self.deleted,
            nsfw: self.nsfw,
            stickied: self.stickied,
            embed_title: dup_opt_string(&self.embed_title),
            embed_description: dup_opt_string(&self.embed_description),
            embed_html: dup_opt_string(&self.embed_html),
            thumbnail_url: dup_opt_addr(&self.thumbnail_url),
            ap_id: self.ap_id.duplicate(),
            local: self.local,
        }
    }
}

impl Community {
    pub open spec fn has_banned(&self, person_id: u64) -> bool {
        self.banned@.contains(person_id)
    }

    pub fn duplicate(&self) -> (r: Community)
        ensures
            r.id == self.id,
            r.actor_id == self.actor_id,
            r.banned@ == self.banned@,
    {
        Community {
            id: self.id,
            actor_id: self.actor_id.duplicate(),
            banned: copy_ids(&self.banned),
        }
    }
}

} // verus!
