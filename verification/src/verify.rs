use vstd::prelude::*;
use crate::address::{public_address, public_marker, Address};
use crate::context::{
    spec_community_by_addr, spec_person_by_addr, spec_read_post, spec_remote, wf_budget,
    wf_context, Budget, Context, RemoteEntity, eq_community,
};
use crate::error::ConvertError;
use crate::local::{ApubPost, Community, Person};
use crate::sanitize::{check_slurs, title_blocked};
use crate::wire::Page;

verus! {

// ---------------------------------------------------------------------------
// Audience check
// ---------------------------------------------------------------------------

/// The audience list carries the public marker somewhere.
pub open spec fn spec_is_public(to: Seq<Address>) -> bool {
    exists|i: int| 0 <= i < to.len() && to[i].text@ == public_marker()
}

/// First verification step: a post not addressed to the public collection is
/// rejected, never silently dropped.
pub fn verify_is_public(to: &Vec<Address>) -> (r: Result<(), ConvertError>)
    ensures
        r is Ok <==> spec_is_public(to@),
        r is Err ==> r == Result::<(), ConvertError>::Err(ConvertError::NotPublic),
{
    let marker = public_address();
    let mut i: usize = 0;
    while i < to.len()
        invariant
            marker@ == public_marker(),
            0 <= i <= to@.len(),
            forall|j: int| 0 <= j < i ==> to@[j].text@ != public_marker(),
        decreases to@.len() - i,
    {
        if to[i].text == marker {
            return Ok(());
        }
        i += 1;
    }
    Err(ConvertError::NotPublic)
}

// ---------------------------------------------------------------------------
// Bounded dereference
// ---------------------------------------------------------------------------

/// Resolving a person address: a local copy costs nothing; a miss claims one
/// unit of budget and asks the transport, whose payload must have the
/// expected kind.
pub open spec fn spec_deref_person(ctx: Context, addr: Seq<char>, b: Budget) -> (Result<
    Person,
    ConvertError,
>, Budget) {
    match spec_person_by_addr(ctx.persons@, addr) {
        Some(p) => (Ok(p), b),
        None => {
            if b.used >= b.limit {
                (Err(ConvertError::FetchExhausted), b)
            } else {
                let b2 = Budget { used: (b.used + 1) as u32, limit: b.limit };
                match spec_remote(ctx.remote@, addr) {
                    Some(RemoteEntity::Person(p)) => (Ok(p), b2),
                    Some(RemoteEntity::Community(_)) => (Err(ConvertError::SchemaMismatch), b2),
                    None => (Err(ConvertError::NotFound), b2),
                }
            }
        },
    }
}

/// Resolving a community address, with the same budget discipline.
pub open spec fn spec_deref_community(ctx: Context, addr: Seq<char>, b: Budget) -> (Result<
    Community,
    ConvertError,
>, Budget) {
    match spec_community_by_addr(ctx.communities@, addr) {
        Some(c) => (Ok(c), b),
        None => {
            if b.used >= b.limit {
                (Err(ConvertError::FetchExhausted), b)
            } else {
                let b2 = Budget { used: (b.used + 1) as u32, limit: b.limit };
                match spec_remote(ctx.remote@, addr) {
                    Some(RemoteEntity::Community(c)) => (Ok(c), b2),
                    Some(RemoteEntity::Person(_)) => (Err(ConvertError::SchemaMismatch), b2),
                    None => (Err(ConvertError::NotFound), b2),
                }
            }
        },
    }
}

pub fn deref_person(ctx: &Context, addr: &Address, budget: &mut Budget) -> (r: Result<
    Person,
    ConvertError,
>)
    requires
        wf_context(*ctx),
        wf_budget(*old(budget)),
    ensures
        wf_budget(*final(budget)),
        ({
            let (sr, sb) = spec_deref_person(*ctx, addr.text@, *old(budget));
            r == sr && *final(budget) == sb
        }),
{
    match ctx.local_person(&addr.text) {
        Some(p) => Ok(p),
        None => {
            if !budget.try_fetch() {
                Err(ConvertError::FetchExhausted)
            } else {
                match ctx.remote_payload(&addr.text) {
                    Some(RemoteEntity::Person(p)) => Ok(p),
                    Some(RemoteEntity::Community(_)) => Err(ConvertError::SchemaMismatch),
                    None => Err(ConvertError::NotFound),
                }
            }
        },
    }
}

pub fn deref_community(ctx: &Context, addr: &Address, budget: &mut Budget) -> (r: Result<
    Community,
    ConvertError,
>)
    requires
        wf_context(*ctx),
        wf_budget(*old(budget)),
    ensures
        wf_budget(*final(budget)),
        ({
            let (sr, sb) = spec_deref_community(*ctx, addr.text@, *old(budget));
            &&& *final(budget) == sb
            &&& match (r, sr) {
                (Ok(c), Ok(sc)) => eq_community(c, sc),
                (Err(e), Err(se)) => e == se,
                _ => false,
            }
        }),
{
    match ctx.local_community(&addr.text) {
        Some(c) => Ok(c),
        None => {
            if !budget.try_fetch() {
                Err(ConvertError::FetchExhausted)
            } else {
                match ctx.remote_payload(&addr.text) {
                    Some(RemoteEntity::Community(c)) => Ok(c),
                    Some(RemoteEntity::Person(_)) => Err(ConvertError::SchemaMismatch),
                    None => Err(ConvertError::NotFound),
                }
            }
        },
    }
}

// ---------------------------------------------------------------------------
// Community resolution scan
// ---------------------------------------------------------------------------

/// The audience scan: the first entry that resolves to a community wins;
/// entries that fail to resolve are skipped, each still paying its fetch.
pub open spec fn spec_scan(ctx: Context, to: Seq<Address>, b: Budget) -> (Result<
    Community,
    ConvertError,
>, Budget)
    decreases to.len(),
{
    if to.len() == 0 {
        (Err(ConvertError::NoCommunityInAudience), b)
    } else {
        let (r0, b0) = spec_deref_community(ctx, to[0].text@, b);
        match r0 {
            Ok(c) => (Ok(c), b0),
            Err(_) => spec_scan(ctx, to.skip(1), b0),
        }
    }
}

// ---------------------------------------------------------------------------
// Moderator-action classification
// ---------------------------------------------------------------------------

/// Only moderators may change stickied/locked, so an inbound copy whose
/// stickied flag or comments-enabled flag differs from the stored copy is a
/// moderator action. With no stored copy it never is.
pub open spec fn spec_mod_action(page: Page, stored: Option<ApubPost>) -> bool {
    match stored {
        Some(p) => page.stickied != Some(p.stickied) || page.comments_enabled != Some(!p.locked),
        None => false,
    }
}

/// The identity rule after classification: a moderator action trusts the
/// object's own address; anything else must share its domain authority with
/// the attribution and with the domain the message came from.
pub open spec fn spec_domain_ok(page: Page, stored: Option<ApubPost>, dom: Address) -> bool {
    spec_mod_action(page, stored) || (page.attributed_to.host@ == page.id.host@ && page.id.host@
        == dom.host@)
}

fn neq_opt_bool(a: Option<bool>, b: bool) -> (r: bool)
    ensures
        r == (a != Some(b)),
{
    match a {
        Some(x) => x != b,
        None => true,
    }
}

fn ids_contain(v: &Vec<u64>, id: u64) -> (r: bool)
    ensures
        r == v@.contains(id),
{
    let mut i: usize = 0;
    while i < v.len()
        invariant
            0 <= i <= v@.len(),
            forall|j: int| 0 <= j < i ==> v@[j] != id,
        decreases v@.len() - i,
    {
        if v[i] == id {
            return true;
        }
        i += 1;
    }
    false
}

impl Page {
    /// The object's own address, unchecked; for callers that have already
    /// decided the identity rule.
    pub fn id_unchecked(&self) -> (r: &Address)
        ensures
            r == self.id,
    {
        &self.id
    }

    /// The object's own address, accepted only when it shares the expected
    /// domain authority.
    pub fn id(&self, expected_domain: &Address) -> (r: Result<&Address, ConvertError>)
        ensures
            r is Ok <==> self.id.matches_domain(expected_domain),
            r matches Ok(a) ==> a == self.id,
            r is Err ==> r == Result::<&Address, ConvertError>::Err(ConvertError::DomainMismatch),
    {
        if self.id.domains_match(expected_domain) {
            Ok(&self.id)
        } else {
            Err(ConvertError::DomainMismatch)
        }
    }

    /// Classify the update against the stored copy, if one exists.
    pub fn is_mod_action(&self, ctx: &Context) -> (r: bool)
        requires
            wf_context(*ctx),
        ensures
            r == spec_mod_action(*self, spec_read_post(ctx.posts.posts@, self.id.text@)),
    {
        match ctx.posts.read_from_apub_id(&self.id.text) {
            Some(p) => {
                let st = neq_opt_bool(self.stickied, p.stickied);
                let ce = neq_opt_bool(self.comments_enabled, !p.locked);
                st || ce
            },
            None => false,
        }
    }

    /// Scan the audience in order and resolve the first community in it.
    pub fn extract_community(&self, ctx: &Context, budget: &mut Budget) -> (r: Result<
        Community,
        ConvertError,
    >)
        requires
            wf_context(*ctx),
            wf_budget(*old(budget)),
        ensures
            wf_budget(*final(budget)),
            ({
                let (sr, sb) = spec_scan(*ctx, self.to@, *old(budget));
                &&& *final(budget) == sb
                &&& match (r, sr) {
                    (Ok(c), Ok(sc)) => eq_community(c, sc),
                    (Err(e), Err(se)) => e == se,
                    _ => false,
                }
            }),
    {
        let ghost b_start = *budget;
        proof {
            assert(self.to@.skip(0) =~= self.to@);
        }
        let mut i: usize = 0;
        while i < self.to.len()
            invariant
                wf_context(*ctx),
                wf_budget(*budget),
                b_start == *old(budget),
                0 <= i <= self.to@.len(),
                spec_scan(*ctx, self.to@, b_start) == spec_scan(
                    *ctx,
                    self.to@.skip(i as int),
                    *budget,
                ),
            decreases self.to@.len() - i,
        {
            let ghost b_head = *budget;
            proof {
                assert(self.to@.skip(i as int)[0] == self.to@[i as int]);
                assert(self.to@.skip(i as int).len() > 0);
            }
            let c = deref_community(ctx, &self.to[i], budget);
            proof {
                assert(self.to@.skip(i as int).skip(1) =~= self.to@.skip(i as int + 1));
                assert(spec_scan(*ctx, self.to@, b_start) == spec_scan(
                    *ctx,
                    self.to@.skip(i as int),
                    b_head,
                ));
            }
            if let Ok(c) = c {
                proof {
                    let (r0, b0) = spec_deref_community(
                        *ctx,
                        self.to@[i as int].text@,
                        b_head,
                    );
                    assert(r0 is Ok);
                    assert(b0 == *budget);
                    assert(eq_community(c, r0.unwrap()));
                    assert(spec_scan(*ctx, self.to@.skip(i as int), b_head) == (
                        Result::<Community, ConvertError>::Ok(r0.unwrap()),
                        b0,
                    ));
                }
                return Ok(c);
            }
            i += 1;
        }
        proof {
            assert(self.to@.skip(i as int).len() == 0);
        }
        Err(ConvertError::NoCommunityInAudience)
    }
}

// ---------------------------------------------------------------------------
// The pipeline
// ---------------------------------------------------------------------------

/// The whole verification pipeline, with the budget it leaves behind:
/// audience publicity, then the identity rule (relaxed for moderator
/// actions), then community resolution, then membership, then content
/// safety. The first failure is final.
pub open spec fn spec_verify(page: Page, ctx: Context, dom: Address, b: Budget) -> (Result<
    (Person, Community),
    ConvertError,
>, Budget) {
    if !spec_is_public(page.to@) {
        (Err(ConvertError::NotPublic), b)
    } else if !spec_domain_ok(page, spec_read_post(ctx.posts.posts@, page.id.text@), dom) {
        (Err(ConvertError::DomainMismatch), b)
    } else {
        let (cr, b1) = spec_scan(ctx, page.to@, b);
        match cr {
            Err(e) => (Err(e), b1),
            Ok(community) => {
                let (pr, b2) = spec_deref_person(ctx, page.attributed_to.text@, b1);
                match pr {
                    Err(e) => (Err(e), b2),
                    Ok(person) => {
                        if community.has_banned(person.id) {
                            (Err(ConvertError::NotCommunityMember), b2)
                        } else if title_blocked(ctx.slur_pattern, page.name@) {
                            (Err(ConvertError::ProhibitedContent), b2)
                        } else {
                            (Ok((person, community)), b2)
                        }
                    },
                }
            },
        }
    }
}

impl Page {
    /// Run every check an inbound page must pass before it is trusted, and
    /// hand back the attributed actor and the resolved community.
    pub fn verify(&self, ctx: &Context, expected_domain: &Address, budget: &mut Budget) -> (r:
        Result<(Person, Community), ConvertError>)
        requires
            wf_context(*ctx),
            wf_budget(*old(budget)),
        ensures
            wf_budget(*final(budget)),
            ({
                let (sr, sb) = spec_verify(*self, *ctx, *expected_domain, *old(budget));
                &&& *final(budget) == sb
                &&& match (r, sr) {
                    (Ok((p, c)), Ok((sp, sc))) => p == sp && eq_community(c, sc),
                    (Err(e), Err(se)) => e == se,
                    _ => false,
                }
            }),
    {
        if let Err(e) = verify_is_public(&self.to) {
            return Err(e);
        }
        let mod_action = self.is_mod_action(ctx);
        if !mod_action {
            if !self.attributed_to.domains_match(&self.id) {
                return Err(ConvertError::DomainMismatch);
            }
            if self.id(expected_domain).is_err() {
                return Err(ConvertError::DomainMismatch);
            }
        }
        let community = match self.extract_community(ctx, budget) {
            Ok(c) => c,
            Err(e) => {
                return Err(e);
            },
        };
        let person = match deref_person(ctx, &self.attributed_to, budget) {
            Ok(p) => p,
            Err(e) => {
                return Err(e);
            },
        };
        if ids_contain(&community.banned, person.id) {
            return Err(ConvertError::NotCommunityMember);
        }
        if let Err(e) = check_slurs(&self.name, &ctx.slur_pattern) {
            return Err(e);
        }
        Ok((person, community))
    }
}

} // verus!
