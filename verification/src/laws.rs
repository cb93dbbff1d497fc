use vstd::prelude::*;
use crate::address::Address;
use crate::context::{
    has_post_addr, post_addr_idx, spec_community_by_addr, spec_community_by_id,
    spec_person_by_addr, spec_person_by_id, spec_read_post, spec_upsert_posts, spec_upsert_row,
    wf_budget, wf_context, wf_store, Budget, Context, PostStore,
};
use crate::convert::{body_matches, eq_modulo_enrichment, page_of, spec_form};
use crate::error::ConvertError;
use crate::local::{ApubPost, Community, Person, PostForm};
use crate::sanitize::{spec_remove_slurs, title_blocked};
use crate::verify::{
    spec_deref_community, spec_deref_person, spec_is_public, spec_mod_action, spec_scan,
    spec_verify,
};
use crate::wire::Page;

verus! {

/// A page whose audience omits the public marker is rejected as not public,
/// before anything else is looked at and without touching the budget.
pub proof fn lemma_audience_rejection(page: Page, ctx: Context, dom: Address, b: Budget)
    requires
        !spec_is_public(page.to@),
    ensures
        spec_verify(page, ctx, dom, b) == (
            Result::<(Person, Community), ConvertError>::Err(ConvertError::NotPublic),
            b,
        ),
{
}

proof fn lemma_scan_no_domain_err(ctx: Context, to: Seq<Address>, b: Budget)
    ensures
        spec_scan(ctx, to, b).0 != Result::<Community, ConvertError>::Err(
            ConvertError::DomainMismatch,
        ),
        spec_scan(ctx, to, b).0 != Result::<Community, ConvertError>::Err(
            ConvertError::NotPublic,
        ),
    decreases to.len(),
{
    if to.len() > 0 {
        let (r0, b0) = spec_deref_community(ctx, to[0].text@, b);
        if !(r0 is Ok) {
            lemma_scan_no_domain_err(ctx, to.skip(1), b0);
        }
    }
}

/// A page whose attribution authority differs from its own address authority
/// is rejected with a domain mismatch whenever it is not classified as a
/// moderator action.
pub proof fn lemma_domain_enforcement(page: Page, ctx: Context, dom: Address, b: Budget)
    requires
        spec_is_public(page.to@),
        !spec_mod_action(page, spec_read_post(ctx.posts.posts@, page.id.text@)),
        page.attributed_to.host@ != page.id.host@,
    ensures
        spec_verify(page, ctx, dom, b) == (
            Result::<(Person, Community), ConvertError>::Err(ConvertError::DomainMismatch),
            b,
        ),
{
}

/// The relaxation half of the identity rule: once an update is classified as
/// a moderator action, no domain comparison can reject it.
pub proof fn lemma_mod_action_relaxes(page: Page, ctx: Context, dom: Address, b: Budget)
    requires
        spec_mod_action(page, spec_read_post(ctx.posts.posts@, page.id.text@)),
    ensures
        spec_verify(page, ctx, dom, b).0 != Result::<(Person, Community), ConvertError>::Err(
            ConvertError::DomainMismatch,
        ),
{
    if spec_is_public(page.to@) {
        let (cr, b1) = spec_scan(ctx, page.to@, b);
        lemma_scan_no_domain_err(ctx, page.to@, b);
    }
}

proof fn lemma_scan_budget(ctx: Context, to: Seq<Address>, b: Budget)
    requires
        wf_budget(b),
    ensures
        ({
            let b2 = spec_scan(ctx, to, b).1;
            &&& wf_budget(b2)
            &&& b2.limit == b.limit
            &&& b.used <= b2.used
        }),
    decreases to.len(),
{
    if to.len() > 0 {
        let (r0, b0) = spec_deref_community(ctx, to[0].text@, b);
        if !(r0 is Ok) {
            lemma_scan_budget(ctx, to.skip(1), b0);
        }
    }
}

/// The budget bound: however deeply an inbound conversion chases references,
/// the verification pipeline never fetches past the budget's limit — with a
/// budget of `N` fetches left, at most `N` remote fetches happen.
pub proof fn lemma_budget_bound(page: Page, ctx: Context, dom: Address, b: Budget)
    requires
        wf_budget(b),
    ensures
        ({
            let b2 = spec_verify(page, ctx, dom, b).1;
            &&& b2.limit == b.limit
            &&& b.used <= b2.used <= b2.limit
        }),
{
    lemma_scan_budget(ctx, page.to@, b);
}

/// Upserting the same form twice is one upsert: the second pass finds the
/// row the first pass left, rewrites it to itself, and returns it unchanged.
pub proof fn lemma_upsert_idempotent(s: PostStore, s2: PostStore, f: PostForm, now: i64, now2: i64)
    requires
        wf_store(s),
        wf_store(s2),
        s2.posts@ == spec_upsert_posts(s, f, now),
    ensures
        spec_upsert_row(s2, f, now2) == spec_upsert_row(s, f, now),
        spec_upsert_posts(s2, f, now2) == s2.posts@,
{
    let row1 = spec_upsert_row(s, f, now);
    let a = f.ap_id.text@;
    if has_post_addr(s.posts@, a) {
        let i = post_addr_idx(s.posts@, a);
        assert(s2.posts@[i] == row1);
        assert(row1.ap_id.text@ == a);
        assert(has_post_addr(s2.posts@, a));
        let i2 = post_addr_idx(s2.posts@, a);
        assert(i2 == i);
        assert(spec_upsert_row(s2, f, now2) == row1);
        assert(spec_upsert_posts(s2, f, now2) =~= s2.posts@);
    } else {
        let n = s.posts@.len() as int;
        assert(s2.posts@[n] == row1);
        assert(row1.ap_id.text@ == a);
        assert(has_post_addr(s2.posts@, a));
        let i2 = post_addr_idx(s2.posts@, a);
        assert(i2 == n);
        assert(spec_upsert_row(s2, f, now2) == row1);
        assert(spec_upsert_posts(s2, f, now2) =~= s2.posts@);
    }
}

proof fn lemma_scan_same_collaborators(ctx: Context, ctx2: Context, to: Seq<Address>, b: Budget)
    requires
        ctx2.communities@ == ctx.communities@,
        ctx2.remote@ == ctx.remote@,
    ensures
        spec_scan(ctx2, to, b) == spec_scan(ctx, to, b),
    decreases to.len(),
{
    if to.len() > 0 {
        let (r0, b0) = spec_deref_community(ctx, to[0].text@, b);
        assert(spec_deref_community(ctx2, to[0].text@, b) == (r0, b0));
        if !(r0 is Ok) {
            lemma_scan_same_collaborators(ctx, ctx2, to.skip(1), b0);
        }
    }
}

/// Delivering the same page twice is one delivery: after a first successful
/// inbound conversion, a second conversion of the same page, with a fresh
/// budget of the same size, passes the pipeline with the same actor and
/// community, keeps the store at one row for the address, and leaves that
/// row as a single application would, on every non-enrichment field. The
/// attribution and address must share the expected authority, so that the
/// outcome does not hang on how the second delivery is classified.
pub proof fn lemma_inbound_idempotent(
    page: Page,
    ctx: Context,
    ctx2: Context,
    dom: Address,
    b: Budget,
    creator: Person,
    community: Community,
    bd: Option<String>,
    now2: i64,
)
    requires
        wf_context(ctx),
        wf_context(ctx2),
        wf_budget(b),
        spec_verify(page, ctx, dom, b).0 == Result::<(Person, Community), ConvertError>::Ok(
            (creator, community),
        ),
        body_matches(bd, page, ctx.slur_pattern),
        ctx2.persons@ == ctx.persons@,
        ctx2.communities@ == ctx.communities@,
        ctx2.remote@ == ctx.remote@,
        ctx2.metadata@ == ctx.metadata@,
        ctx2.slur_pattern == ctx.slur_pattern,
        ctx2.posts.posts@ == spec_upsert_posts(
            ctx.posts,
            spec_form(page, creator, community, ctx, bd),
            ctx.now,
        ),
        page.attributed_to.host@ == page.id.host@,
        page.id.host@ == dom.host@,
    ensures
        spec_verify(page, ctx2, dom, b) == (
            Result::<(Person, Community), ConvertError>::Ok((creator, community)),
            spec_verify(page, ctx, dom, b).1,
        ),
        forall|bd2: Option<String>|
            #[trigger] body_matches(bd2, page, ctx2.slur_pattern) ==> {
                let f1 = spec_form(page, creator, community, ctx, bd);
                let f2 = spec_form(page, creator, community, ctx2, bd2);
                &&& eq_modulo_enrichment(
                    spec_upsert_row(ctx2.posts, f2, now2),
                    spec_upsert_row(ctx.posts, f1, ctx.now),
                )
                &&& spec_upsert_posts(ctx2.posts, f2, now2).len() == ctx2.posts.posts@.len()
            },
{
    let f1 = spec_form(page, creator, community, ctx, bd);
    let row1 = spec_upsert_row(ctx.posts, f1, ctx.now);
    let a = page.id.text@;
    // The row the first pass left is the one stored under the address.
    if has_post_addr(ctx.posts.posts@, a) {
        let i = post_addr_idx(ctx.posts.posts@, a);
        assert(ctx2.posts.posts@[i] == row1);
    } else {
        let n = ctx.posts.posts@.len() as int;
        assert(ctx2.posts.posts@[n] == row1);
    }
    assert(row1.ap_id.text@ == a);
    assert(has_post_addr(ctx2.posts.posts@, a));
    let i2 = post_addr_idx(ctx2.posts.posts@, a);
    assert(ctx2.posts.posts@[i2].ap_id.text@ == a);
    assert(ctx2.posts.posts@[i2] == row1);
    // The second pass through the pipeline sees the same collaborators.
    lemma_scan_same_collaborators(ctx, ctx2, page.to@, b);
    let (cr, b1) = spec_scan(ctx, page.to@, b);
    assert(cr == Result::<Community, ConvertError>::Ok(community));
    assert(spec_deref_person(ctx2, page.attributed_to.text@, b1) == spec_deref_person(
        ctx,
        page.attributed_to.text@,
        b1,
    ));
    assert(spec_verify(page, ctx2, dom, b) == (
        Result::<(Person, Community), ConvertError>::Ok((creator, community)),
        spec_verify(page, ctx, dom, b).1,
    ));
    // The second upsert updates the first row in place, to itself.
    assert forall|bd2: Option<String>|
        #[trigger] body_matches(bd2, page, ctx2.slur_pattern) implies {
        let f2 = spec_form(page, creator, community, ctx2, bd2);
        &&& eq_modulo_enrichment(spec_upsert_row(ctx2.posts, f2, now2), row1)
        &&& spec_upsert_posts(ctx2.posts, f2, now2).len() == ctx2.posts.posts@.len()
    } by {
        let f2 = spec_form(page, creator, community, ctx2, bd2);
        let row2 = spec_upsert_row(ctx2.posts, f2, now2);
        assert(row2 == crate::context::merged(row1, f2));
        match page.source {
            Some(s) => {
                assert(bd matches Some(x) && x@ == spec_remove_slurs(ctx.slur_pattern, s.content@));
                assert(bd2 matches Some(y) && y@ == spec_remove_slurs(
                    ctx.slur_pattern,
                    s.content@,
                ));
            },
            None => {},
        }
        assert(eq_modulo_enrichment(row2, row1));
    }
}

/// The round trip: converting a stored post to its wire page and converting
/// that page back, against a context that resolves the creator and community
/// locally, passes every check without a fetch and writes the post back to
/// itself on every field that does not come from network enrichment.
pub proof fn lemma_round_trip(
    post: ApubPost,
    page: Page,
    creator: Person,
    community: Community,
    ctx: Context,
    dom: Address,
    b: Budget,
)
    requires
        wf_context(ctx),
        wf_budget(b),
        page_of(page, post, creator, community),
        spec_read_post(ctx.posts.posts@, post.ap_id.text@) == Some(post),
        spec_person_by_id(ctx.persons@, post.creator_id) == Some(creator),
        spec_community_by_id(ctx.communities@, post.community_id) == Some(community),
        spec_person_by_addr(ctx.persons@, creator.actor_id.text@) == Some(creator),
        spec_community_by_addr(ctx.communities@, community.actor_id.text@) == Some(community),
        creator.actor_id.host@ == post.ap_id.host@,
        post.ap_id.host@ == dom.host@,
        !community.banned@.contains(creator.id),
        !title_blocked(ctx.slur_pattern, post.name@),
        match post.body {
            Some(t) => spec_remove_slurs(ctx.slur_pattern, t@) == t@,
            None => true,
        },
        !post.local,
    ensures
        spec_verify(page, ctx, dom, b) == (
            Result::<(Person, Community), ConvertError>::Ok((creator, community)),
            b,
        ),
        forall|bd: Option<String>|
            #[trigger] body_matches(bd, page, ctx.slur_pattern) ==> eq_modulo_enrichment(
                spec_upsert_row(ctx.posts, spec_form(page, creator, community, ctx, bd), ctx.now),
                post,
            ),
{
    // Step 1: the audience carries the public marker at its second entry.
    assert(page.to@[1].text@ == crate::address::public_marker());
    assert(spec_is_public(page.to@));
    // Step 2: the stored copy agrees on both moderator-only flags, so this is
    // no moderator action, and the authorities agree.
    let stored = spec_read_post(ctx.posts.posts@, page.id.text@);
    assert(page.id == post.ap_id);
    assert(stored == Some(post));
    assert(!spec_mod_action(page, stored));
    // Step 3: the first audience entry is the community's own address, which
    // resolves locally, so the scan ends at once and the budget is untouched.
    assert(page.to@[0] == community.actor_id);
    assert(spec_deref_community(ctx, page.to@[0].text@, b) == (
        Result::<Community, ConvertError>::Ok(community),
        b,
    ));
    assert(page.to@.len() > 0);
    assert(spec_scan(ctx, page.to@, b) == (
        Result::<Community, ConvertError>::Ok(community),
        b,
    ));
    // Step 4: the attribution resolves locally to the creator.
    assert(page.attributed_to == creator.actor_id);
    assert(spec_deref_person(ctx, page.attributed_to.text@, b) == (
        Result::<Person, ConvertError>::Ok(creator),
        b,
    ));
    assert(spec_verify(page, ctx, dom, b) == (
        Result::<(Person, Community), ConvertError>::Ok((creator, community)),
        b,
    ));
    // The creator and community rows carry the ids the post refers to.
    assert(creator.id == post.creator_id);
    assert(community.id == post.community_id);
    // Step 5: the form writes the post back to itself.
    assert forall|bd: Option<String>|
        #[trigger] body_matches(bd, page, ctx.slur_pattern) implies eq_modulo_enrichment(
        spec_upsert_row(ctx.posts, spec_form(page, creator, community, ctx, bd), ctx.now),
        post,
    ) by {
        let f = spec_form(page, creator, community, ctx, bd);
        assert(f.ap_id.text@ == post.ap_id.text@);
        assert(has_post_addr(ctx.posts.posts@, f.ap_id.text@));
        let i = post_addr_idx(ctx.posts.posts@, f.ap_id.text@);
        assert(ctx.posts.posts@[i] == post);
        let row = spec_upsert_row(ctx.posts, f, ctx.now);
        assert(row == crate::context::merged(post, f));
        match post.body {
            Some(t) => {
                assert(page.source matches Some(s) && s.content == t);
                assert(bd matches Some(x) && x@ == spec_remove_slurs(ctx.slur_pattern, t@));
            },
            None => {
                assert(page.source is None);
            },
        }
        assert(eq_modulo_enrichment(row, post));
    }
}

} // verus!
