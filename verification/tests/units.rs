use apub_post::address::{public_address, Address};
use apub_post::context::{Budget, Context, PostStore};
use apub_post::error::ConvertError;
use apub_post::local::{ApubPost, Community, Person};
use apub_post::sanitize::{check_slurs, markdown_to_html, remove_slurs};
use apub_post::wire::WireTime;

fn addr(s: &str) -> Address {
    Address::parse(s).unwrap()
}

fn post_with_times(published: i64, updated: Option<i64>) -> ApubPost {
    ApubPost {
        id: 1,
        name: "Post title".to_string(),
        url: None,
        body: None,
        creator_id: 10,
        community_id: 20,
        removed: false,
        locked: false,
        published,
        updated,
        deleted: false,
        nsfw: false,
        stickied: false,
        embed_title: None,
        embed_description: None,
        embed_html: None,
        thumbnail_url: None,
        ap_id: addr("https://a.example/post/1"),
        local: false,
    }
}

#[test]
fn test_public_marker_value() {
    assert_eq!(public_address(), "https://www.w3.org/ns/activitystreams#Public");
}

#[test]
fn test_parse_address() {
    let a = Address::parse("https://a.example/post/1").unwrap();
    assert_eq!(a.text, "https://a.example/post/1");
    assert_eq!(a.host, "a.example");

    // The url crate normalizes the authority to lower case.
    let b = Address::parse("HTTPS://A.Example/post/1").unwrap();
    assert_eq!(b.host, "a.example");

    assert!(Address::parse("not a url").is_none());
    // An IP host is not a registered domain name.
    assert!(Address::parse("https://127.0.0.1/x").is_none());
}

#[test]
fn test_domains_match() {
    let a = addr("https://a.example/post/1");
    let b = addr("https://a.example/u/bob");
    let c = addr("https://b.example/u/eve");
    assert!(a.domains_match(&b));
    assert!(!a.domains_match(&c));
}

#[test]
fn test_naive_local() {
    let t = WireTime { secs: 100, offset: 3600 };
    assert_eq!(t.naive_local(), 3700);
    let u = WireTime::utc(1_600_000_000);
    assert_eq!(u.naive_local(), 1_600_000_000);
    assert_eq!(u.offset, 0);
}

#[test]
fn test_markdown_rendering() {
    let html = markdown_to_html("hello *world*");
    assert_eq!(html, "<p>hello <em>world</em></p>\n");
}

#[test]
fn test_check_slurs() {
    let pattern = Some("badword".to_string());
    assert!(check_slurs(&"a clean title".to_string(), &pattern).is_ok());
    assert_eq!(
        check_slurs(&"a badword title".to_string(), &pattern).unwrap_err(),
        ConvertError::ProhibitedContent
    );
    assert!(check_slurs(&"a badword title".to_string(), &None).is_ok());
}

#[test]
fn test_remove_slurs() {
    let pattern = Some("badword".to_string());
    assert_eq!(
        remove_slurs(&"one badword two badword".to_string(), &pattern),
        "one *removed* two *removed*"
    );
    assert_eq!(remove_slurs(&"nothing here".to_string(), &pattern), "nothing here");
    assert_eq!(remove_slurs(&"badword".to_string(), &None), "badword");
}

#[test]
fn test_to_tombstone() {
    let p = post_with_times(1_600_000_000, Some(1_650_000_000));
    let t = p.to_tombstone();
    assert_eq!(t.former_kind, "Page");
    assert_eq!(t.deleted.secs, 1_650_000_000);
    assert_eq!(t.deleted.offset, 0);

    let q = post_with_times(1_600_000_000, None);
    assert_eq!(q.to_tombstone().deleted.secs, 1_600_000_000);
}

#[test]
fn test_last_refreshed_at() {
    let p = post_with_times(1_600_000_000, None);
    assert!(p.last_refreshed_at().is_none());
}

#[test]
fn test_store_read_and_delete() {
    let mut ctx = Context {
        posts: PostStore::new(),
        persons: vec![Person { id: 10, actor_id: addr("https://a.example/u/bob") }],
        communities: vec![Community {
            id: 20,
            actor_id: addr("https://a.example/c/cats"),
            banned: Vec::new(),
        }],
        remote: Vec::new(),
        metadata: Vec::new(),
        slur_pattern: None,
        now: 0,
    };
    let p = post_with_times(1_600_000_000, None);
    ctx.posts.posts.push(p.duplicate());
    ctx.posts.next_id = 2;

    let found = ApubPost::read_from_apub_id(&addr("https://a.example/post/1"), &ctx).unwrap();
    assert_eq!(found.id, 1);
    assert!(ApubPost::read_from_apub_id(&addr("https://a.example/post/2"), &ctx).is_none());

    assert!(p.duplicate().delete(&mut ctx).is_ok());
    assert!(ctx.posts.posts[0].deleted);

    let mut missing = post_with_times(0, None);
    missing.id = 99;
    assert_eq!(missing.delete(&mut ctx).unwrap_err(), ConvertError::NotFound);
}

#[test]
fn test_error_labels() {
    assert_eq!(ConvertError::NotPublic.label(), "not public");
    assert_eq!(ConvertError::FetchExhausted.label(), "fetch budget exhausted");
    assert_eq!(ConvertError::NoCommunityInAudience.label(), "no community found in audience");
}

#[test]
fn test_naive_local_negative_offset() {
    let t = WireTime { secs: 1000, offset: -600 };
    assert_eq!(t.naive_local(), 400);
}

#[test]
fn test_budget() {
    let mut b = Budget::new(2);
    assert!(b.try_fetch());
    assert!(b.try_fetch());
    assert!(!b.try_fetch());
    assert_eq!(b.used, 2);
    assert_eq!(b.limit, 2);
}

#[test]
fn test_outbound_page_shape() {
    let ctx = Context {
        posts: PostStore::new(),
        persons: vec![Person { id: 10, actor_id: addr("https://a.example/u/bob") }],
        communities: vec![Community {
            id: 20,
            actor_id: addr("https://a.example/c/cats"),
            banned: Vec::new(),
        }],
        remote: Vec::new(),
        metadata: Vec::new(),
        slur_pattern: None,
        now: 0,
    };
    let mut p = post_with_times(1_600_000_000, Some(1_650_000_000));
    p.body = Some("a *b* c".to_string());
    p.locked = true;
    p.nsfw = true;

    let page = p.to_apub(&ctx).unwrap();
    assert_eq!(page.id.text, "https://a.example/post/1");
    assert_eq!(page.attributed_to.text, "https://a.example/u/bob");
    assert_eq!(page.to.len(), 2);
    assert_eq!(page.to[0].text, "https://a.example/c/cats");
    assert_eq!(page.to[1].text, "https://www.w3.org/ns/activitystreams#Public");
    assert_eq!(page.name, "Post title");
    assert_eq!(page.content.unwrap(), "<p>a <em>b</em> c</p>\n");
    assert_eq!(page.media_type.unwrap(), "text/html");
    assert_eq!(page.source.unwrap().content, "a *b* c");
    assert_eq!(page.comments_enabled, Some(false));
    assert_eq!(page.sensitive, Some(true));
    assert_eq!(page.published.unwrap().secs, 1_600_000_000);
    assert_eq!(page.updated.unwrap().secs, 1_650_000_000);
    assert!(page.unparsed.is_empty());

    // A post whose creator is unknown cannot be sent out.
    let mut orphan = p.duplicate();
    orphan.creator_id = 99;
    assert_eq!(orphan.to_apub(&ctx).unwrap_err(), ConvertError::NotFound);
}
