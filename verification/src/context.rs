use vstd::prelude::*;
use crate::address::Address;
use crate::error::ConvertError;
use crate::local::{ApubPost, Community, Person, PostForm};
use crate::local::{copy_ids, dup_opt_addr, dup_opt_string};

verus! {

// ---------------------------------------------------------------------------
// Request budget
// ---------------------------------------------------------------------------

/// Bounds the remote fetches one inbound conversion may trigger. `used`
/// counts every fetch attempted so far in the call tree; no fetch happens
/// once `used` reaches `limit`.
#[derive(Debug)]
pub struct Budget {
    pub used: u32,
    pub limit: u32,
}

pub open spec fn wf_budget(b: Budget) -> bool {
    b.used <= b.limit
}

impl Budget {
    pub fn new(limit: u32) -> (r: Budget)
        ensures
            r.used == 0,
            r.limit == limit,
            wf_budget(r),
    {
        Budget { used: 0, limit }
    }

    /// Claim one remote fetch. Returns false, changing nothing, when the
    /// budget is already spent.
    pub fn try_fetch(&mut self) -> (r: bool)
        requires
            wf_budget(*old(self)),
        ensures
            wf_budget(*final(self)),
            final(self).limit == old(self).limit,
            r <==> old(self).used < old(self).limit,
            r ==> final(self).used == old(self).used + 1,
            !r ==> final(self).used == old(self).used,
    {
        if self.used < self.limit {
            self.used = self.used + 1;
            true
        } else {
            false
        }
    }
}

// ---------------------------------------------------------------------------
// Collaborator models
// ---------------------------------------------------------------------------

/// A payload the transport collaborator hands back for one address.
#[derive(Debug)]
pub enum RemoteEntity {
    Person(Person),
    Community(Community),
}

/// One address the transport can resolve, with the entity it yields.
#[derive(Debug)]
pub struct RemoteEntry {
    pub addr: String,
    pub entity: RemoteEntity,
}

/// What the metadata collaborator reports for one external link.
#[derive(Debug)]
pub struct SiteMetadata {
    pub title: Option<String>,
    pub description: Option<String>,
    pub html: Option<String>,
    pub thumbnail: Option<Address>,
}

/// One link the metadata collaborator knows, with its page metadata.
#[derive(Debug)]
pub struct MetaEntry {
    pub url: String,
    pub meta: SiteMetadata,
}

impl SiteMetadata {
    pub fn duplicate(&self) -> (r: SiteMetadata)
        ensures
            r == *self,
    {
        SiteMetadata {
            title: dup_opt_string(&self.title),
            description: dup_opt_string(&self.description),
            html: dup_opt_string(&self.html),
            thumbnail: dup_opt_addr(&self.thumbnail),
        }
    }
}

// ---------------------------------------------------------------------------
// Post store
// ---------------------------------------------------------------------------

/// The persisted posts, keyed by network address. Addresses and row ids are
/// unique; `next_id` is above every stored id.
#[derive(Debug)]
pub struct PostStore {
    pub posts: Vec<ApubPost>,
    pub next_id: u64,
}

pub open spec fn wf_store(s: PostStore) -> bool {
    &&& forall|i: int, j: int|
        0 <= i < s.posts@.len() && 0 <= j < s.posts@.len() && i != j
            ==> s.posts@[i].ap_id.text@ != s.posts@[j].ap_id.text@
    &&& forall|i: int, j: int|
        0 <= i < s.posts@.len() && 0 <= j < s.posts@.len() && i != j
            ==> s.posts@[i].id != s.posts@[j].id
    &&& forall|i: int| 0 <= i < s.posts@.len() ==> #[trigger] s.posts@[i].id < s.next_id
}

pub open spec fn has_post_addr(posts: Seq<ApubPost>, addr: Seq<char>) -> bool {
    exists|i: int| 0 <= i < posts.len() && posts[i].ap_id.text@ == addr
}

pub open spec fn post_addr_idx(posts: Seq<ApubPost>, addr: Seq<char>) -> int {
    choose|i: int| 0 <= i < posts.len() && posts[i].ap_id.text@ == addr
}

pub open spec fn spec_read_post(posts: Seq<ApubPost>, addr: Seq<char>) -> Option<ApubPost> {
    if has_post_addr(posts, addr) {
        Some(posts[post_addr_idx(posts, addr)])
    } else {
        None
    }
}

pub open spec fn has_post_id(posts: Seq<ApubPost>, id: u64) -> bool {
    exists|i: int| 0 <= i < posts.len() && posts[i].id == id
}

pub open spec fn post_id_idx(posts: Seq<ApubPost>, id: u64) -> int {
    choose|i: int| 0 <= i < posts.len() && posts[i].id == id
}

/// The row an update leaves behind: form fields replace stored ones, an
/// absent optional keeps the stored value; id and address never change.
pub open spec fn merged(old_row: ApubPost, f: PostForm) -> ApubPost {
    ApubPost {
        id: old_row.id,
        name: f.name,
        url: f.url,
        body: f.body,
        creator_id: f.creator_id,
        community_id: f.community_id,
        removed: if f.removed is Some { f.removed.unwrap() } else { old_row.removed },
        locked: if f.locked is Some { f.locked.unwrap() } else { old_row.locked },
        published: if f.published is Some { f.published.unwrap() } else { old_row.published },
        updated: f.updated,
        deleted: if f.deleted is Some { f.deleted.unwrap() } else { old_row.deleted },
        nsfw: if f.nsfw is Some { f.nsfw.unwrap() } else { old_row.nsfw },
        stickied: if f.stickied is Some { f.stickied.unwrap() } else { old_row.stickied },
        embed_title: f.embed_title,
        embed_description: f.embed_description,
        embed_html: f.embed_html,
        thumbnail_url: f.thumbnail_url,
        ap_id: old_row.ap_id,
        local: if f.local is Some { f.local.unwrap() } else { old_row.local },
    }
}

/// The row an insert creates: absent optionals take the column defaults, a
/// missing published timestamp takes the current time.
pub open spec fn inserted(f: PostForm, id: u64, now: i64) -> ApubPost {
    ApubPost {
        id: id,
        name: f.name,
        url: f.url,
        body: f.body,
        creator_id: f.creator_id,
        community_id: f.community_id,
        removed: if f.removed is Some { f.removed.unwrap() } else { false },
        locked: if f.locked is Some { f.locked.unwrap() } else { false },
        published: if f.published is Some { f.published.unwrap() } else { now },
        updated: f.updated,
        deleted: if f.deleted is Some { f.deleted.unwrap() } else { false },
        nsfw: if f.nsfw is Some { f.nsfw.unwrap() } else { false },
        stickied: if f.stickied is Some { f.stickied.unwrap() } else { false },
        embed_title: f.embed_title,
        embed_description: f.embed_description,
        embed_html: f.embed_html,
        thumbnail_url: f.thumbnail_url,
        ap_id: f.ap_id,
        local: if f.local is Some { f.local.unwrap() } else { true },
    }
}

/// The row an upsert of `f` returns: the merged update of the existing row
/// for that address, or a fresh insert.
pub open spec fn spec_upsert_row(s: PostStore, f: PostForm, now: i64) -> ApubPost {
    if has_post_addr(s.posts@, f.ap_id.text@) {
        merged(s.posts@[post_addr_idx(s.posts@, f.ap_id.text@)], f)
    } else {
        inserted(f, s.next_id, now)
    }
}

/// The post sequence an upsert of `f` leaves behind: one row updated in
/// place, or one row appended; never a duplicate address.
pub open spec fn spec_upsert_posts(s: PostStore, f: PostForm, now: i64) -> Seq<ApubPost> {
    if has_post_addr(s.posts@, f.ap_id.text@) {
        s.posts@.update(post_addr_idx(s.posts@, f.ap_id.text@), spec_upsert_row(s, f, now))
    } else {
        s.posts@.push(spec_upsert_row(s, f, now))
    }
}

impl PostStore {
    pub fn new() -> (r: PostStore)
        ensures
            r.posts@.len() == 0,
            r.next_id == 1,
            wf_store(r),
    {
        PostStore { posts: Vec::new(), next_id: 1 }
    }

    fn find_by_addr(&self, addr: &String) -> (r: Option<usize>)
        requires
            wf_store(*self),
        ensures
            match r {
                Some(i) => i < self.posts@.len() && self.posts@[i as int].ap_id.text@ == addr@
                    && has_post_addr(self.posts@, addr@)
                    && post_addr_idx(self.posts@, addr@) == i as int,
                None => !has_post_addr(self.posts@, addr@),
            },
    {
        let mut i: usize = 0;
        while i < self.posts.len()
            invariant
                wf_store(*self),
                0 <= i <= self.posts@.len(),
                forall|j: int| 0 <= j < i ==> self.posts@[j].ap_id.text@ != addr@,
            decreases self.posts@.len() - i,
        {
            if self.posts[i].ap_id.text == *addr {
                proof {
                    let k = post_addr_idx(self.posts@, addr@);
                    assert(has_post_addr(self.posts@, addr@));
                    assert(k == i as int);
                }
                return Some(i);
            }
            i += 1;
        }
        None
    }

    /// Local read keyed on the immutable network address.
    pub fn read_from_apub_id(&self, addr: &String) -> (r: Option<ApubPost>)
        requires
            wf_store(*self),
        ensures
            r == spec_read_post(self.posts@, addr@),
    {
        match self.find_by_addr(addr) {
            Some(i) => Some(self.posts[i].duplicate()),
            None => None,
        }
    }

    /// Create-or-update keyed on the form's network address: re-processing
    /// the same address updates the one existing row in place and never
    /// creates a duplicate.
    #[verifier::rlimit(60)]
    pub fn upsert(&mut self, form: PostForm, now: i64) -> (r: ApubPost)
        requires
            wf_store(*old(self)),
            old(self).next_id < u64::MAX,
        ensures
            wf_store(*final(self)),
            r == spec_upsert_row(*old(self), form, now),
            final(self).posts@ == spec_upsert_posts(*old(self), form, now),
            final(self).next_id == if has_post_addr(old(self).posts@, form.ap_id.text@) {
                old(self).next_id
            } else {
                (old(self).next_id + 1) as u64
            },
    {
        let idx = self.find_by_addr(&form.ap_id.text);
        match idx {
            Some(i) => {
                let old_row = &self.posts[i];
                let row = ApubPost {
                    id: old_row.id,
                    name: form.name,
                    url: form.url,
                    body: form.body,
                    creator_id: form.creator_id,
                    community_id: form.community_id,
                    removed: match form.removed {
                        Some(b) => b,
                        None => old_row.removed,
                    },
                    locked: match form.locked {
                        Some(b) => b,
                        None => old_row.locked,
                    },
                    published: match form.published {
                        Some(t) => t,
                        None => old_row.published,
                    },
                    updated: form.updated,
                    deleted: match form.deleted {
                        Some(b) => b,
                        None => old_row.deleted,
                    },
                    nsfw: match form.nsfw {
                        Some(b) => b,
                        None => old_row.nsfw,
                    },
                    stickied: match form.stickied {
                        Some(b) => b,
                        None => old_row.stickied,
                    },
                    embed_title: form.embed_title,
                    embed_description: form.embed_description,
                    embed_html: form.embed_html,
                    thumbnail_url: form.thumbnail_url,
                    ap_id: old_row.ap_id.duplicate(),
                    local: match form.local {
                        Some(b) => b,
                        None => old_row.local,
                    },
                };
                let out = row.duplicate();
                self.posts[i] = row;
                proof {
                    let ops = old(self).posts@;
                    let nps = self.posts@;
                    assert forall|a: int, b: int|
                        0 <= a < nps.len() && 0 <= b < nps.len() && a != b
                        implies nps[a].ap_id.text@ != nps[b].ap_id.text@ by {
                        assert(ops[a].ap_id.text@ != ops[b].ap_id.text@);
                    }
                    assert forall|a: int, b: int|
                        0 <= a < nps.len() && 0 <= b < nps.len() && a != b
                        implies nps[a].id != nps[b].id by {
                        assert(ops[a].id != ops[b].id);
                    }
                    assert forall|a: int| 0 <= a < nps.len()
                        implies #[trigger] nps[a].id < self.next_id by {
                        assert(ops[a].id < old(self).next_id);
                    }
                }
                out
            },
            None => {
                let id = self.next_id;
                let row = ApubPost {
                    id: id,
                    name: form.name,
                    url: form.url,
                    body: form.body,
                    creator_id: form.creator_id,
                    community_id: form.community_id,
                    removed: match form.removed {
                        Some(b) => b,
                        None => false,
                    },
                    locked: match form.locked {
                        Some(b) => b,
                        None => false,
                    },
                    published: match form.published {
                        Some(t) => t,
                        None => now,
                    },
                    updated: form.updated,
                    deleted: match form.deleted {
                        Some(b) => b,
                        None => false,
                    },
                    nsfw: match form.nsfw {
                        Some(b) => b,
                        None => false,
                    },
                    stickied: match form.stickied {
                        Some(b) => b,
                        None => false,
                    },
                    embed_title: form.embed_title,
                    embed_description: form.embed_description,
                    embed_html: form.embed_html,
                    thumbnail_url: form.thumbnail_url,
                    ap_id: form.ap_id,
                    local: match form.local {
                        Some(b) => b,
                        None => true,
                    },
                };
                let out = row.duplicate();
                self.posts.push(row);
                self.next_id = self.next_id + 1;
                proof {
                    let ops = old(self).posts@;
                    let nps = self.posts@;
                    let last = nps.len() - 1;
                    assert(!has_post_addr(ops, form.ap_id.text@));
                    assert forall|a: int, b: int|
                        0 <= a < nps.len() && 0 <= b < nps.len() && a != b
                        implies nps[a].ap_id.text@ != nps[b].ap_id.text@ by {
                        if a < last && b < last {
                            assert(ops[a].ap_id.text@ != ops[b].ap_id.text@);
                        } else if a == last {
                            if ops[b].ap_id.text@ == form.ap_id.text@ {
                                assert(has_post_addr(ops, form.ap_id.text@));
                            }
                        } else {
                            if ops[a].ap_id.text@ == form.ap_id.text@ {
                                assert(has_post_addr(ops, form.ap_id.text@));
                            }
                        }
                    }
                    assert forall|a: int, b: int|
                        0 <= a < nps.len() && 0 <= b < nps.len() && a != b
                        implies nps[a].id != nps[b].id by {
                        if a < last && b < last {
                            assert(ops[a].id != ops[b].id);
                        } else if a == last {
                            assert(ops[b].id < old(self).next_id);
                        } else {
                            assert(ops[a].id < old(self).next_id);
                        }
                    }
                    assert forall|a: int| 0 <= a < nps.len()
                        implies #[trigger] nps[a].id < self.next_id by {
                        if a < last {
                            assert(ops[a].id < old(self).next_id);
                        }
                    }
                }
                out
            },
        }
    }

    fn find_by_id(&self, id: u64) -> (r: Option<usize>)
        requires
            wf_store(*self),
        ensures
            match r {
                Some(i) => i < self.posts@.len() && self.posts@[i as int].id == id
                    && has_post_id(self.posts@, id) && post_id_idx(self.posts@, id) == i as int,
                None => !has_post_id(self.posts@, id),
            },
    {
        let mut i: usize = 0;
        while i < self.posts.len()
            invariant
                wf_store(*self),
                0 <= i <= self.posts@.len(),
                forall|j: int| 0 <= j < i ==> self.posts@[j].id != id,
            decreases self.posts@.len() - i,
        {
            if self.posts[i].id == id {
                proof {
                    assert(has_post_id(self.posts@, id));
                    let k = post_id_idx(self.posts@, id);
                    assert(k == i as int);
                }
                return Some(i);
            }
            i += 1;
        }
        None
    }

    /// Mark one row deleted, keyed by row id; the row itself stays.
    pub fn mark_deleted(&mut self, id: u64) -> (r: Result<(), ConvertError>)
        requires
            wf_store(*old(self)),
        ensures
            wf_store(*final(self)),
            final(self).next_id == old(self).next_id,
            match r {
                Ok(()) => has_post_id(old(self).posts@, id) && final(self).posts@ == old(
                    self,
                ).posts@.update(
                    post_id_idx(old(self).posts@, id),
                    ApubPost {
                        deleted: true,
                        ..old(self).posts@[post_id_idx(old(self).posts@, id)]
                    },
                ),
                Err(e) => e == ConvertError::NotFound && !has_post_id(old(self).posts@, id)
                    && final(self).posts@ == old(self).posts@,
            },
    {
        match self.find_by_id(id) {
            Some(i) => {
                let new_row = ApubPost { deleted: true, ..self.posts[i].duplicate() };
                self.posts[i] = new_row;
                Ok(())
            },
            None => Err(ConvertError::NotFound),
        }
    }
}

// ---------------------------------------------------------------------------
// Conversion context
// ---------------------------------------------------------------------------

/// Everything one conversion reads or writes: the persisted state, what the
/// transport and metadata collaborators would answer, and the instance
/// settings. The current time comes from the caller.
#[derive(Debug)]
pub struct Context {
    pub posts: PostStore,
    pub persons: Vec<Person>,
    pub communities: Vec<Community>,
    pub remote: Vec<RemoteEntry>,
    pub metadata: Vec<MetaEntry>,
    pub slur_pattern: Option<String>,
    pub now: i64,
}

pub open spec fn wf_context(ctx: Context) -> bool {
    &&& wf_store(ctx.posts)
    &&& forall|i: int, j: int|
        0 <= i < ctx.persons@.len() && 0 <= j < ctx.persons@.len() && i != j
            ==> ctx.persons@[i].actor_id.text@ != ctx.persons@[j].actor_id.text@
    &&& forall|i: int, j: int|
        0 <= i < ctx.persons@.len() && 0 <= j < ctx.persons@.len() && i != j
            ==> ctx.persons@[i].id != ctx.persons@[j].id
    &&& forall|i: int, j: int|
        0 <= i < ctx.communities@.len() && 0 <= j < ctx.communities@.len() && i != j
            ==> ctx.communities@[i].actor_id.text@ != ctx.communities@[j].actor_id.text@
    &&& forall|i: int, j: int|
        0 <= i < ctx.communities@.len() && 0 <= j < ctx.communities@.len() && i != j
            ==> ctx.communities@[i].id != ctx.communities@[j].id
    &&& forall|i: int, j: int|
        0 <= i < ctx.remote@.len() && 0 <= j < ctx.remote@.len() && i != j
            ==> ctx.remote@[i].addr@ != ctx.remote@[j].addr@
    &&& forall|i: int, j: int|
        0 <= i < ctx.metadata@.len() && 0 <= j < ctx.metadata@.len() && i != j
            ==> ctx.metadata@[i].url@ != ctx.metadata@[j].url@
}

pub open spec fn has_person_addr(ps: Seq<Person>, a: Seq<char>) -> bool {
    exists|i: int| 0 <= i < ps.len() && ps[i].actor_id.text@ == a
}

pub open spec fn spec_person_by_addr(ps: Seq<Person>, a: Seq<char>) -> Option<Person> {
    if has_person_addr(ps, a) {
        Some(ps[choose|i: int| 0 <= i < ps.len() && ps[i].actor_id.text@ == a])
    } else {
        None
    }
}

pub open spec fn has_person_id(ps: Seq<Person>, id: u64) -> bool {
    exists|i: int| 0 <= i < ps.len() && ps[i].id == id
}

pub open spec fn spec_person_by_id(ps: Seq<Person>, id: u64) -> Option<Person> {
    if has_person_id(ps, id) {
        Some(ps[choose|i: int| 0 <= i < ps.len() && ps[i].id == id])
    } else {
        None
    }
}

pub open spec fn has_community_addr(cs: Seq<Community>, a: Seq<char>) -> bool {
    exists|i: int| 0 <= i < cs.len() && cs[i].actor_id.text@ == a
}

pub open spec fn spec_community_by_addr(cs: Seq<Community>, a: Seq<char>) -> Option<Community> {
    if has_community_addr(cs, a) {
        Some(cs[choose|i: int| 0 <= i < cs.len() && cs[i].actor_id.text@ == a])
    } else {
        None
    }
}

pub open spec fn has_community_id(cs: Seq<Community>, id: u64) -> bool {
    exists|i: int| 0 <= i < cs.len() && cs[i].id == id
}

pub open spec fn spec_community_by_id(cs: Seq<Community>, id: u64) -> Option<Community> {
    if has_community_id(cs, id) {
        Some(cs[choose|i: int| 0 <= i < cs.len() && cs[i].id == id])
    } else {
        None
    }
}

pub open spec fn has_remote(rs: Seq<RemoteEntry>, a: Seq<char>) -> bool {
    exists|i: int| 0 <= i < rs.len() && rs[i].addr@ == a
}

pub open spec fn spec_remote(rs: Seq<RemoteEntry>, a: Seq<char>) -> Option<RemoteEntity> {
    if has_remote(rs, a) {
        Some(rs[choose|i: int| 0 <= i < rs.len() && rs[i].addr@ == a].entity)
    } else {
        None
    }
}

pub open spec fn has_meta(ms: Seq<MetaEntry>, u: Seq<char>) -> bool {
    exists|i: int| 0 <= i < ms.len() && ms[i].url@ == u
}

pub open spec fn spec_meta(ms: Seq<MetaEntry>, u: Seq<char>) -> Option<SiteMetadata> {
    if has_meta(ms, u) {
        Some(ms[choose|i: int| 0 <= i < ms.len() && ms[i].url@ == u].meta)
    } else {
        None
    }
}

/// Two communities carry the same data (their banned lists may live in
/// different allocations).
pub open spec fn eq_community(a: Community, b: Community) -> bool {
    &&& a.id == b.id
    &&& a.actor_id == b.actor_id
    &&& a.banned@ == b.banned@
}

impl Context {
    /// Local person lookup by network address.
    pub fn local_person(&self, addr: &String) -> (r: Option<Person>)
        requires
            wf_context(*self),
        ensures
            r == spec_person_by_addr(self.persons@, addr@),
    {
        let mut i: usize = 0;
        while i < self.persons.len()
            invariant
                wf_context(*self),
                0 <= i <= self.persons@.len(),
                forall|j: int| 0 <= j < i ==> self.persons@[j].actor_id.text@ != addr@,
            decreases self.persons@.len() - i,
        {
            if self.persons[i].actor_id.text == *addr {
                proof {
                    let k = choose|k: int|
                        0 <= k < self.persons@.len() && self.persons@[k].actor_id.text@ == addr@;
                    assert(has_person_addr(self.persons@, addr@));
                    assert(k == i as int);
                }
                return Some(self.persons[i].duplicate());
            }
            i += 1;
        }
        None
    }

    /// Local person lookup by row id.
    pub fn person_by_id(&self, id: u64) -> (r: Option<Person>)
        requires
            wf_context(*self),
        ensures
            r == spec_person_by_id(self.persons@, id),
    {
        let mut i: usize = 0;
        while i < self.persons.len()
            invariant
                wf_context(*self),
                0 <= i <= self.persons@.len(),
                forall|j: int| 0 <= j < i ==> self.persons@[j].id != id,
            decreases self.persons@.len() - i,
        {
            if self.persons[i].id == id {
                proof {
                    let k = choose|k: int|
                        0 <= k < self.persons@.len() && self.persons@[k].id == id;
                    assert(has_person_id(self.persons@, id));
                    assert(k == i as int);
                }
                return Some(self.persons[i].duplicate());
            }
            i += 1;
        }
        None
    }

    /// Local community lookup by network address.
    pub fn local_community(&self, addr: &String) -> (r: Option<Community>)
        requires
            wf_context(*self),
        ensures
            match r {
                Some(c) => spec_community_by_addr(self.communities@, addr@) matches Some(sc)
                    && eq_community(c, sc),
                None => spec_community_by_addr(self.communities@, addr@) is None,
            },
    {
        let mut i: usize = 0;
        while i < self.communities.len()
            invariant
                wf_context(*self),
                0 <= i <= self.communities@.len(),
                forall|j: int| 0 <= j < i ==> self.communities@[j].actor_id.text@ != addr@,
            decreases self.communities@.len() - i,
        {
            if self.communities[i].actor_id.text == *addr {
                proof {
                    let k = choose|k: int|
                        0 <= k < self.communities@.len() && self.communities@[k].actor_id.text@
                            == addr@;
                    assert(has_community_addr(self.communities@, addr@));
                    assert(k == i as int);
                }
                return Some(self.communities[i].duplicate());
            }
            i += 1;
        }
        None
    }

    /// Local community lookup by row id.
    pub fn community_by_id(&self, id: u64) -> (r: Option<Community>)
        requires
            wf_context(*self),
        ensures
            match r {
                Some(c) => spec_community_by_id(self.communities@, id) matches Some(sc)
                    && eq_community(c, sc),
                None => spec_community_by_id(self.communities@, id) is None,
            },
    {
        let mut i: usize = 0;
        while i < self.communities.len()
            invariant
                wf_context(*self),
                0 <= i <= self.communities@.len(),
                forall|j: int| 0 <= j < i ==> self.communities@[j].id != id,
            decreases self.communities@.len() - i,
        {
            if self.communities[i].id == id {
                proof {
                    let k = choose|k: int|
                        0 <= k < self.communities@.len() && self.communities@[k].id == id;
                    assert(has_community_id(self.communities@, id));
                    assert(k == i as int);
                }
                return Some(self.communities[i].duplicate());
            }
            i += 1;
        }
        None
    }

    /// What the transport would hand back for one address, if anything.
    pub fn remote_payload(&self, addr: &String) -> (r: Option<RemoteEntity>)
        requires
            wf_context(*self),
        ensures
            match r {
                Some(e) => spec_remote(self.remote@, addr@) matches Some(se)
                    && eq_remote_entity(e, se),
                None => spec_remote(self.remote@, addr@) is None,
            },
    {
        let mut i: usize = 0;
        while i < self.remote.len()
            invariant
                wf_context(*self),
                0 <= i <= self.remote@.len(),
                forall|j: int| 0 <= j < i ==> self.remote@[j].addr@ != addr@,
            decreases self.remote@.len() - i,
        {
            if self.remote[i].addr == *addr {
                proof {
                    let k = choose|k: int|
                        0 <= k < self.remote@.len() && self.remote@[k].addr@ == addr@;
                    assert(has_remote(self.remote@, addr@));
                    assert(k == i as int);
                }
                let e = match &self.remote[i].entity {
                    RemoteEntity::Person(p) => RemoteEntity::Person(p.duplicate()),
                    RemoteEntity::Community(c) => RemoteEntity::Community(c.duplicate()),
                };
                return Some(e);
            }
            i += 1;
        }
        None
    }

    /// What the metadata collaborator reports for one link, if anything.
    pub fn site_metadata(&self, url: &String) -> (r: Option<SiteMetadata>)
        requires
            wf_context(*self),
        ensures
            r == spec_meta(self.metadata@, url@),
    {
        let mut i: usize = 0;
        while i < self.metadata.len()
            invariant
                wf_context(*self),
                0 <= i <= self.metadata@.len(),
                forall|j: int| 0 <= j < i ==> self.metadata@[j].url@ != url@,
            decreases self.metadata@.len() - i,
        {
            if self.metadata[i].url == *url {
                proof {
                    let k = choose|k: int|
                        0 <= k < self.metadata@.len() && self.metadata@[k].url@ == url@;
                    assert(has_meta(self.metadata@, url@));
                    assert(k == i as int);
                }
                return Some(self.metadata[i].meta.duplicate());
            }
            i += 1;
        }
        None
    }
}

/// Two remote payloads carry the same data.
pub open spec fn eq_remote_entity(a: RemoteEntity, b: RemoteEntity) -> bool {
    match (a, b) {
        (RemoteEntity::Person(p), RemoteEntity::Person(q)) => p == q,
        (RemoteEntity::Community(c), RemoteEntity::Community(d)) => eq_community(c, d),
        _ => false,
    }
}

} // verus!
