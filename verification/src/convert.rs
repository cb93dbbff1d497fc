use vstd::prelude::*;
use crate::address::{public_address, public_marker, Address};
use crate::context::{
    has_post_addr, spec_community_by_id, spec_meta, spec_person_by_id, spec_read_post,
    spec_upsert_posts, spec_upsert_row, wf_budget, wf_context, Budget, Context, SiteMetadata,
};
use crate::error::ConvertError;
use crate::local::{dup_opt_addr, ApubPost, Community, Person, PostForm};
use crate::sanitize::{markdown_to_html, remove_slurs, rendered_html, spec_remove_slurs};
use crate::verify::spec_verify;
use crate::wire::{spec_naive_local, wf_time, Page, Source, Tombstone, WireTime};

verus! {

/// Timestamps an inbound page may carry: bounded so that dropping the offset
/// stays within the machine's integer range.
pub open spec fn wf_page(p: Page) -> bool {
    &&& match p.published {
        Some(t) => wf_time(t),
        None => true,
    }
    &&& match p.updated {
        Some(t) => wf_time(t),
        None => true,
    }
}

/// The page `to_apub` builds from a post and its creator and community: every
/// field recoverable from the local entity alone, the audience being the
/// community followed by the public marker.
pub open spec fn page_of(page: Page, post: ApubPost, creator: Person, community: Community) -> bool {
    &&& page.id == post.ap_id
    &&& page.attributed_to == creator.actor_id
    &&& page.to@.len() == 2
    &&& page.to@[0] == community.actor_id
    &&& page.to@[1].text@ == public_marker()
    &&& page.name == post.name
    &&& match post.body {
        Some(b) => page.content matches Some(c) && c@ == rendered_html(b@),
        None => page.content is None,
    }
    &&& page.media_type matches Some(m) && m@ == "text/html"@
    &&& match post.body {
        Some(b) => page.source matches Some(s) && s.content == b,
        None => page.source is None,
    }
    &&& page.url == post.url
    &&& page.image == post.thumbnail_url
    &&& page.comments_enabled == Some(!post.locked)
    &&& page.sensitive == Some(post.nsfw)
    &&& page.stickied == Some(post.stickied)
    &&& page.published == Some(WireTime { secs: post.published, offset: 0 })
    &&& page.updated == match post.updated {
        Some(t) => Some(WireTime { secs: t, offset: 0 }),
        None => None,
    }
    &&& page.unparsed@.len() == 0
}

/// Equality on every field that does not come from network enrichment: the
/// embed metadata and the thumbnail are what the metadata collaborator may
/// contribute, and body text is compared by content.
pub open spec fn eq_modulo_enrichment(a: ApubPost, b: ApubPost) -> bool {
    &&& a.id == b.id
    &&& a.name@ == b.name@
    &&& a.url == b.url
    &&& match (a.body, b.body) {
        (Some(x), Some(y)) => x@ == y@,
        (None, None) => true,
        _ => false,
    }
    &&& a.creator_id == b.creator_id
    &&& a.community_id == b.community_id
    &&& a.removed == b.removed
    &&& a.locked == b.locked
    &&& a.published == b.published
    &&& a.updated == b.updated
    &&& a.deleted == b.deleted
    &&& a.nsfw == b.nsfw
    &&& a.stickied == b.stickied
    &&& a.ap_id == b.ap_id
    &&& a.local == b.local
}

/// The body text an inbound conversion persists for the given page.
pub open spec fn body_matches(b: Option<String>, page: Page, pattern: Option<String>) -> bool {
    match page.source {
        Some(s) => b matches Some(t) && t@ == spec_remove_slurs(pattern, s.content@),
        None => b is None,
    }
}

/// The enrichment the metadata collaborator contributes for this page.
pub open spec fn spec_enrichment(page: Page, ctx: Context) -> Option<SiteMetadata> {
    match page.url {
        Some(u) => spec_meta(ctx.metadata@, u.text@),
        None => None,
    }
}

/// The persistence form an inbound conversion builds from a verified page:
/// the body is passed in because its sanitized text is named, not computed,
/// at the specification level.
pub open spec fn spec_form(
    page: Page,
    creator: Person,
    community: Community,
    ctx: Context,
    body: Option<String>,
) -> PostForm {
    let meta = spec_enrichment(page, ctx);
    PostForm {
        name: page.name,
        url: page.url,
        body: body,
        creator_id: creator.id,
        community_id: community.id,
        removed: None,
        locked: match page.comments_enabled {
            Some(e) => Some(!e),
            None => None,
        },
        published: match page.published {
            Some(t) => Some(spec_naive_local(t) as i64),
            None => None,
        },
        updated: match page.updated {
            Some(t) => Some(spec_naive_local(t) as i64),
            None => None,
        },
        deleted: None,
        nsfw: page.sensitive,
        stickied: page.stickied,
        embed_title: match meta {
            Some(m) => m.title,
            None => None,
        },
        embed_description: match meta {
            Some(m) => m.description,
            None => None,
        },
        embed_html: match meta {
            Some(m) => m.html,
            None => None,
        },
        thumbnail_url: match page.image {
            Some(i) => Some(i),
            None => match meta {
                Some(m) => m.thumbnail,
                None => None,
            },
        },
        ap_id: page.id,
        local: Some(false),
    }
}

impl ApubPost {
    /// Local read keyed on the immutable network address.
    pub fn read_from_apub_id(object_id: &Address, ctx: &Context) -> (r: Option<ApubPost>)
        requires
            wf_context(*ctx),
        ensures
            r == spec_read_post(ctx.posts.posts@, object_id.text@),
    {
        ctx.posts.read_from_apub_id(&object_id.text)
    }

    /// An inbound deletion: mark the stored row deleted, keep the row.
    pub fn delete(self, ctx: &mut Context) -> (r: Result<(), ConvertError>)
        requires
            wf_context(*old(ctx)),
        ensures
            wf_context(*final(ctx)),
            final(ctx).persons == old(ctx).persons,
            final(ctx).communities == old(ctx).communities,
            final(ctx).remote == old(ctx).remote,
            final(ctx).metadata == old(ctx).metadata,
            final(ctx).slur_pattern == old(ctx).slur_pattern,
            final(ctx).now == old(ctx).now,
            final(ctx).posts.next_id == old(ctx).posts.next_id,
            match r {
                Ok(()) => crate::context::has_post_id(old(ctx).posts.posts@, self.id)
                    && final(ctx).posts.posts@ == old(ctx).posts.posts@.update(
                    crate::context::post_id_idx(old(ctx).posts.posts@, self.id),
                    ApubPost {
                        deleted: true,
                        ..old(ctx).posts.posts@[crate::context::post_id_idx(
                            old(ctx).posts.posts@,
                            self.id,
                        )]
                    },
                ),
                Err(e) => e == ConvertError::NotFound && !crate::context::has_post_id(
                    old(ctx).posts.posts@,
                    self.id,
                ) && final(ctx).posts.posts@ == old(ctx).posts.posts@,
            },
    {
        ctx.posts.mark_deleted(self.id)
    }

    /// Turn a local post into a page that can be sent out: a pure mapping
    /// from the post and its locally stored creator and community.
    pub fn to_apub(&self, ctx: &Context) -> (r: Result<Page, ConvertError>)
        requires
            wf_context(*ctx),
        ensures
            r is Ok <==> crate::context::has_person_id(ctx.persons@, self.creator_id)
                && crate::context::has_community_id(ctx.communities@, self.community_id),
            r matches Ok(page) ==> page_of(
                page,
                *self,
                spec_person_by_id(ctx.persons@, self.creator_id).unwrap(),
                spec_community_by_id(ctx.communities@, self.community_id).unwrap(),
            ),
            r is Err ==> r == Result::<Page, ConvertError>::Err(ConvertError::NotFound),
    {
        let creator = match ctx.person_by_id(self.creator_id) {
            Some(p) => p,
            None => {
                return Err(ConvertError::NotFound);
            },
        };
        let community = match ctx.community_by_id(self.community_id) {
            Some(c) => c,
            None => {
                return Err(ConvertError::NotFound);
            },
        };
        let mut to: Vec<Address> = Vec::new();
        to.push(community.actor_id);
        to.push(Address::from_parts(public_address(), String::new()));
        let content = match &self.body {
            Some(b) => Some(markdown_to_html(b.as_str())),
            None => None,
        };
        let source = match &self.body {
            Some(b) => Some(Source { content: b.clone() }),
            None => None,
        };
        let page = Page {
            id: self.ap_id.duplicate(),
            attributed_to: creator.actor_id,
            to,
            name: self.name.clone(),
            content,
            media_type: Some(String::from_str("text/html")),
            source,
            url: dup_opt_addr(&self.url),
            image: dup_opt_addr(&self.thumbnail_url),
            comments_enabled: Some(!self.locked),
            sensitive: Some(self.nsfw),
            stickied: Some(self.stickied),
            published: Some(WireTime::utc(self.published)),
            updated: match self.updated {
                Some(t) => Some(WireTime::utc(t)),
                None => None,
            },
            unparsed: Vec::new(),
        };
        Ok(page)
    }

    /// The outbound deletion notice: the object's kind and its last change.
    pub fn to_tombstone(&self) -> (r: Tombstone)
        ensures
            r.former_kind@ == "Page"@,
            r.deleted == (WireTime {
                secs: match self.updated {
                    Some(t) => t,
                    None => self.published,
                },
                offset: 0,
            }),
    {
        let secs = match self.updated {
            Some(t) => t,
            None => self.published,
        };
        Tombstone { former_kind: String::from_str("Page"), deleted: WireTime::utc(secs) }
    }

    /// Run the verification pipeline on an inbound page and persist the
    /// validated form by upsert; on any failure nothing is persisted.
    pub fn from_apub(
        page: &Page,
        ctx: &mut Context,
        expected_domain: &Address,
        budget: &mut Budget,
    ) -> (r: Result<ApubPost, ConvertError>)
        requires
            wf_context(*old(ctx)),
            wf_budget(*old(budget)),
            wf_page(*page),
            old(ctx).posts.next_id < u64::MAX,
        ensures
            wf_context(*final(ctx)),
            wf_budget(*final(budget)),
            final(ctx).persons == old(ctx).persons,
            final(ctx).communities == old(ctx).communities,
            final(ctx).remote == old(ctx).remote,
            final(ctx).metadata == old(ctx).metadata,
            final(ctx).slur_pattern == old(ctx).slur_pattern,
            final(ctx).now == old(ctx).now,
            ({
                let (vr, vb) = spec_verify(*page, *old(ctx), *expected_domain, *old(budget));
                &&& *final(budget) == vb
                &&& match (r, vr) {
                    (Err(e), Err(se)) => e == se && final(ctx).posts == old(ctx).posts,
                    (Ok(post), Ok(pc)) => exists|b: Option<String>|
                        {
                            &&& #[trigger] body_matches(b, *page, old(ctx).slur_pattern)
                            &&& post == spec_upsert_row(
                                old(ctx).posts,
                                spec_form(*page, pc.0, pc.1, *old(ctx), b),
                                old(ctx).now,
                            )
                            &&& final(ctx).posts.posts@ == spec_upsert_posts(
                                old(ctx).posts,
                                spec_form(*page, pc.0, pc.1, *old(ctx), b),
                                old(ctx).now,
                            )
                            &&& final(ctx).posts.next_id == if has_post_addr(
                                old(ctx).posts.posts@,
                                page.id.text@,
                            ) {
                                old(ctx).posts.next_id
                            } else {
                                (old(ctx).posts.next_id + 1) as u64
                            }
                        },
                    _ => false,
                }
            }),
    {
        let (creator, community) = match page.verify(ctx, expected_domain, budget) {
            Ok(pc) => pc,
            Err(e) => {
                return Err(e);
            },
        };
        let meta = match &page.url {
            Some(u) => ctx.site_metadata(&u.text),
            None => None,
        };
        let (embed_title, embed_description, embed_html, fallback_thumb) = match meta {
            Some(m) => (m.title, m.description, m.html, m.thumbnail),
            None => (None, None, None, None),
        };
        let thumbnail_url = match &page.image {
            Some(i) => Some(i.duplicate()),
            None => fallback_thumb,
        };
        let body = match &page.source {
            Some(s) => Some(remove_slurs(&s.content, &ctx.slur_pattern)),
            None => None,
        };
        let published = match &page.published {
            Some(t) => Some(t.naive_local()),
            None => None,
        };
        let updated = match &page.updated {
            Some(t) => Some(t.naive_local()),
            None => None,
        };
        let form = PostForm {
            name: page.name.clone(),
            url: dup_opt_addr(&page.url),
            body,
            creator_id: creator.id,
            community_id: community.id,
            removed: None,
            locked: match page.comments_enabled {
                Some(e) => Some(!e),
                None => None,
            },
            published,
            updated,
            deleted: None,
            nsfw: page.sensitive,
            stickied: page.stickied,
            embed_title,
            embed_description,
            embed_html,
            thumbnail_url,
            ap_id: page.id.duplicate(),
            local: Some(false),
        };
        let ghost gform = form;
        let ghost gb = form.body;
        let now = ctx.now;
        let post = ctx.posts.upsert(form, now);
        proof {
            let (vr, vb) = spec_verify(*page, *old(ctx), *expected_domain, *old(budget));
            let pc = vr.unwrap();
            assert(body_matches(gb, *page, old(ctx).slur_pattern));
            assert(gform == spec_form(*page, pc.0, pc.1, *old(ctx), gb));
        }
        Ok(post)
    }
}

} // verus!
