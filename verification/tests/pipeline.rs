use apub_post::address::{public_address, Address};
use apub_post::context::{Budget, Context, MetaEntry, PostStore, RemoteEntity, RemoteEntry,
    SiteMetadata};
use apub_post::error::ConvertError;
use apub_post::local::{ApubPost, Community, Person};
use apub_post::wire::{Page, Source, WireTime};

fn addr(s: &str) -> Address {
    Address::parse(s).unwrap()
}

fn base_post(ap_id: &str, creator_id: u64, community_id: u64) -> ApubPost {
    ApubPost {
        id: 1,
        name: "Post title".to_string(),
        url: None,
        body: Some("012345678901234567890123456789012345678901234".to_string()),
        creator_id,
        community_id,
        removed: false,
        locked: false,
        published: 1_600_000_000,
        updated: None,
        deleted: false,
        nsfw: false,
        stickied: true,
        embed_title: None,
        embed_description: None,
        embed_html: None,
        thumbnail_url: None,
        ap_id: addr(ap_id),
        local: false,
    }
}

fn base_context() -> (Context, Person, Community) {
    let creator = Person { id: 10, actor_id: addr("https://a.example/u/bob") };
    let community = Community {
        id: 20,
        actor_id: addr("https://a.example/c/cats"),
        banned: Vec::new(),
    };
    let ctx = Context {
        posts: PostStore::new(),
        persons: vec![Person { id: 10, actor_id: addr("https://a.example/u/bob") }],
        communities: vec![Community {
            id: 20,
            actor_id: addr("https://a.example/c/cats"),
            banned: Vec::new(),
        }],
        remote: Vec::new(),
        metadata: Vec::new(),
        slur_pattern: None,
        now: 1_700_000_000,
    };
    (ctx, creator, community)
}

fn inbound_page(community_addr: &str, with_public: bool) -> Page {
    let mut to = vec![addr(community_addr)];
    if with_public {
        to.push(Address::from_parts(public_address(), String::new()));
    }
    Page {
        id: addr("https://a.example/post/1"),
        attributed_to: addr("https://a.example/u/bob"),
        to,
        name: "Post title".to_string(),
        content: None,
        media_type: None,
        source: Some(Source {
            content: "012345678901234567890123456789012345678901234".to_string(),
        }),
        url: None,
        image: None,
        comments_enabled: Some(true),
        sensitive: Some(false),
        stickied: Some(true),
        published: Some(WireTime { secs: 1_600_000_000, offset: 0 }),
        updated: None,
        unparsed: Vec::new(),
    }
}

#[test]
fn test_parse_lemmy_post() {
    let (mut ctx, _creator, _community) = base_context();
    let page = inbound_page("https://a.example/c/cats", true);
    let expected_domain = addr("https://a.example/post/1");
    let mut budget = Budget::new(25);

    let post = ApubPost::from_apub(&page, &mut ctx, &expected_domain, &mut budget).unwrap();

    assert_eq!(post.ap_id.text, "https://a.example/post/1");
    assert_eq!(post.name, "Post title");
    assert!(post.body.is_some());
    assert_eq!(post.body.as_ref().unwrap().len(), 45);
    assert!(!post.locked);
    assert!(post.stickied);
    assert_eq!(budget.used, 0);

    let to_apub = post.to_apub(&ctx).unwrap();
    assert_eq!(to_apub.id.text, page.id.text);
    assert_eq!(to_apub.attributed_to.text, page.attributed_to.text);
    assert_eq!(to_apub.name, page.name);
    assert_eq!(to_apub.source.unwrap().content, page.source.unwrap().content);
    assert_eq!(to_apub.stickied, Some(true));
    assert_eq!(to_apub.comments_enabled, Some(true));
}

#[test]
fn test_not_public_rejected() {
    let (mut ctx, _creator, _community) = base_context();
    let page = inbound_page("https://a.example/c/cats", false);
    let expected_domain = addr("https://a.example/post/1");
    let mut budget = Budget::new(25);

    let r = ApubPost::from_apub(&page, &mut ctx, &expected_domain, &mut budget);
    assert_eq!(r.unwrap_err(), ConvertError::NotPublic);
    assert_eq!(ctx.posts.posts.len(), 0);
}

#[test]
fn test_domain_mismatch_rejected() {
    let (mut ctx, _creator, _community) = base_context();
    let mut page = inbound_page("https://a.example/c/cats", true);
    page.attributed_to = addr("https://b.example/u/eve");
    let expected_domain = addr("https://a.example/post/1");
    let mut budget = Budget::new(25);

    let r = ApubPost::from_apub(&page, &mut ctx, &expected_domain, &mut budget);
    assert_eq!(r.unwrap_err(), ConvertError::DomainMismatch);
    assert_eq!(ctx.posts.posts.len(), 0);
}

#[test]
fn test_mod_action_relaxes_domain_check() {
    let (mut ctx, _creator, _community) = base_context();
    // A stored copy whose stickied flag differs from the inbound page makes
    // the update a moderator action, so the mismatched attribution passes.
    let mut stored = base_post("https://a.example/post/1", 10, 20);
    stored.stickied = false;
    ctx.posts.posts.push(stored);
    ctx.posts.next_id = 2;

    let mut page = inbound_page("https://a.example/c/cats", true);
    page.attributed_to = addr("https://b.example/u/mod");
    ctx.persons.push(Person { id: 11, actor_id: addr("https://b.example/u/mod") });
    let expected_domain = addr("https://a.example/post/1");
    let mut budget = Budget::new(25);

    let post = ApubPost::from_apub(&page, &mut ctx, &expected_domain, &mut budget).unwrap();
    assert!(post.stickied);
    assert_eq!(ctx.posts.posts.len(), 1);
}

#[test]
fn test_budget_bound() {
    let (mut ctx, _creator, _community) = base_context();
    ctx.communities.clear();
    let mut page = inbound_page("https://c.example/c/one", true);
    page.to = vec![
        addr("https://c.example/c/one"),
        addr("https://c.example/c/two"),
        addr("https://c.example/c/three"),
        Address::from_parts(public_address(), String::new()),
    ];
    let expected_domain = addr("https://a.example/post/1");
    let mut budget = Budget::new(2);

    let r = ApubPost::from_apub(&page, &mut ctx, &expected_domain, &mut budget);
    assert_eq!(r.unwrap_err(), ConvertError::NoCommunityInAudience);
    // Three unknown addresses and the marker, but only two fetches allowed.
    assert_eq!(budget.used, 2);
    assert_eq!(budget.limit, 2);
}

#[test]
fn test_round_trip() {
    let (mut ctx, _creator, _community) = base_context();
    let stored = base_post("https://a.example/post/1", 10, 20);
    ctx.posts.posts.push(stored.duplicate());
    ctx.posts.next_id = 2;

    let page = stored.to_apub(&ctx).unwrap();
    let expected_domain = addr("https://a.example/post/1");
    let mut budget = Budget::new(25);
    let back = ApubPost::from_apub(&page, &mut ctx, &expected_domain, &mut budget).unwrap();

    assert_eq!(back.id, stored.id);
    assert_eq!(back.name, stored.name);
    assert_eq!(back.body, stored.body);
    assert_eq!(back.creator_id, stored.creator_id);
    assert_eq!(back.community_id, stored.community_id);
    assert_eq!(back.removed, stored.removed);
    assert_eq!(back.locked, stored.locked);
    assert_eq!(back.published, stored.published);
    assert_eq!(back.updated, stored.updated);
    assert_eq!(back.deleted, stored.deleted);
    assert_eq!(back.nsfw, stored.nsfw);
    assert_eq!(back.stickied, stored.stickied);
    assert_eq!(back.ap_id.text, stored.ap_id.text);
    assert_eq!(back.local, stored.local);
    assert_eq!(budget.used, 0);
    assert_eq!(ctx.posts.posts.len(), 1);
}

#[test]
fn test_idempotent_upsert() {
    let (mut ctx, _creator, _community) = base_context();
    let page = inbound_page("https://a.example/c/cats", true);
    let expected_domain = addr("https://a.example/post/1");

    let mut budget = Budget::new(25);
    let first = ApubPost::from_apub(&page, &mut ctx, &expected_domain, &mut budget).unwrap();
    assert_eq!(ctx.posts.posts.len(), 1);

    let mut budget2 = Budget::new(25);
    let second = ApubPost::from_apub(&page, &mut ctx, &expected_domain, &mut budget2).unwrap();
    assert_eq!(ctx.posts.posts.len(), 1);
    assert_eq!(second.id, first.id);
    assert_eq!(second.name, first.name);
    assert_eq!(second.body, first.body);
    assert_eq!(second.published, first.published);
    assert_eq!(second.stickied, first.stickied);
    assert_eq!(second.locked, first.locked);
}

#[test]
fn test_fetch_exhausted_and_not_found() {
    let (mut ctx, _creator, _community) = base_context();
    // The attributed person is not stored locally; with no budget the fetch
    // is refused, with budget but no transport entry it is a miss.
    let mut page = inbound_page("https://a.example/c/cats", true);
    page.attributed_to = addr("https://a.example/u/ghost");
    // A ghost author is no moderator action and the domain matches.
    let expected_domain = addr("https://a.example/post/1");

    let mut empty_budget = Budget::new(0);
    let r = ApubPost::from_apub(&page, &mut ctx, &expected_domain, &mut empty_budget);
    assert_eq!(r.unwrap_err(), ConvertError::FetchExhausted);

    let mut budget = Budget::new(5);
    let r2 = ApubPost::from_apub(&page, &mut ctx, &expected_domain, &mut budget);
    assert_eq!(r2.unwrap_err(), ConvertError::NotFound);
    assert_eq!(budget.used, 1);
}

#[test]
fn test_remote_fetch_and_schema_mismatch() {
    let (mut ctx, _creator, _community) = base_context();
    let mut page = inbound_page("https://a.example/c/cats", true);
    page.attributed_to = addr("https://a.example/u/alice");
    // The author is reachable over the transport and counts against the
    // budget; the page address is a moderator action? No: no stored copy, so
    // the domains must match, which they do.
    ctx.remote.push(RemoteEntry {
        addr: "https://a.example/u/alice".to_string(),
        entity: RemoteEntity::Person(Person {
            id: 30,
            actor_id: addr("https://a.example/u/alice"),
        }),
    });
    let expected_domain = addr("https://a.example/post/1");
    let mut budget = Budget::new(5);
    let post = ApubPost::from_apub(&page, &mut ctx, &expected_domain, &mut budget).unwrap();
    assert_eq!(post.creator_id, 30);
    assert_eq!(budget.used, 1);

    // A transport payload of the wrong kind is a schema mismatch.
    let mut ctx2 = base_context().0;
    let mut page2 = inbound_page("https://a.example/c/cats", true);
    page2.attributed_to = addr("https://a.example/u/charlie");
    ctx2.remote.push(RemoteEntry {
        addr: "https://a.example/u/charlie".to_string(),
        entity: RemoteEntity::Community(Community {
            id: 40,
            actor_id: addr("https://a.example/u/charlie"),
            banned: Vec::new(),
        }),
    });
    let mut budget2 = Budget::new(5);
    let r = ApubPost::from_apub(&page2, &mut ctx2, &expected_domain, &mut budget2);
    assert_eq!(r.unwrap_err(), ConvertError::SchemaMismatch);
}

#[test]
fn test_banned_member_rejected() {
    let (mut ctx, _creator, _community) = base_context();
    ctx.communities[0].banned.push(10);
    let page = inbound_page("https://a.example/c/cats", true);
    let expected_domain = addr("https://a.example/post/1");
    let mut budget = Budget::new(25);

    let r = ApubPost::from_apub(&page, &mut ctx, &expected_domain, &mut budget);
    assert_eq!(r.unwrap_err(), ConvertError::NotCommunityMember);
    assert_eq!(ctx.posts.posts.len(), 0);
}

#[test]
fn test_prohibited_title_rejected() {
    let (mut ctx, _creator, _community) = base_context();
    ctx.slur_pattern = Some("badword".to_string());
    let mut page = inbound_page("https://a.example/c/cats", true);
    page.name = "A badword title".to_string();
    let expected_domain = addr("https://a.example/post/1");
    let mut budget = Budget::new(25);

    let r = ApubPost::from_apub(&page, &mut ctx, &expected_domain, &mut budget);
    assert_eq!(r.unwrap_err(), ConvertError::ProhibitedContent);
    assert_eq!(ctx.posts.posts.len(), 0);
}

#[test]
fn test_body_redaction() {
    let (mut ctx, _creator, _community) = base_context();
    ctx.slur_pattern = Some("badword".to_string());
    let mut page = inbound_page("https://a.example/c/cats", true);
    page.source = Some(Source { content: "clean badword clean".to_string() });
    let expected_domain = addr("https://a.example/post/1");
    let mut budget = Budget::new(25);

    let post = ApubPost::from_apub(&page, &mut ctx, &expected_domain, &mut budget).unwrap();
    assert_eq!(post.body.unwrap(), "clean *removed* clean");
}

#[test]
fn test_metadata_enrichment() {
    let (mut ctx, _creator, _community) = base_context();
    ctx.metadata.push(MetaEntry {
        url: "https://news.example/story".to_string(),
        meta: SiteMetadata {
            title: Some("Story".to_string()),
            description: Some("About a story".to_string()),
            html: None,
            thumbnail: Some(addr("https://news.example/thumb.png")),
        },
    });
    let mut page = inbound_page("https://a.example/c/cats", true);
    page.url = Some(addr("https://news.example/story"));
    let expected_domain = addr("https://a.example/post/1");
    let mut budget = Budget::new(25);

    let post = ApubPost::from_apub(&page, &mut ctx, &expected_domain, &mut budget).unwrap();
    assert_eq!(post.embed_title.unwrap(), "Story");
    assert_eq!(post.embed_description.unwrap(), "About a story");
    assert_eq!(post.thumbnail_url.unwrap().text, "https://news.example/thumb.png");

    // An explicit thumbnail on the page takes precedence over the fallback.
    let mut ctx2 = base_context().0;
    ctx2.metadata.push(MetaEntry {
        url: "https://news.example/story".to_string(),
        meta: SiteMetadata {
            title: None,
            description: None,
            html: None,
            thumbnail: Some(addr("https://news.example/thumb.png")),
        },
    });
    let mut page2 = inbound_page("https://a.example/c/cats", true);
    page2.url = Some(addr("https://news.example/story"));
    page2.image = Some(addr("https://a.example/own-thumb.png"));
    let mut budget2 = Budget::new(25);
    let post2 = ApubPost::from_apub(&page2, &mut ctx2, &expected_domain, &mut budget2).unwrap();
    assert_eq!(post2.thumbnail_url.unwrap().text, "https://a.example/own-thumb.png");
}

#[test]
fn test_enrichment_failure_is_not_fatal() {
    let (mut ctx, _creator, _community) = base_context();
    let mut page = inbound_page("https://a.example/c/cats", true);
    page.url = Some(addr("https://unreachable.example/x"));
    let expected_domain = addr("https://a.example/post/1");
    let mut budget = Budget::new(25);

    let post = ApubPost::from_apub(&page, &mut ctx, &expected_domain, &mut budget).unwrap();
    assert!(post.embed_title.is_none());
    assert!(post.embed_description.is_none());
    assert!(post.embed_html.is_none());
    assert!(post.thumbnail_url.is_none());
}
