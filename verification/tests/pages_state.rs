use frontend::bulk::{bulk_error_message, bulk_tag_input, bulk_tags, post_error, selected_posts};
use frontend::feed::ScrollFeed;
use frontend::model::{ApiError, MimeType, PostType};
use frontend::pages::{
    aliases, pool_title,
    comment_actions, comments_query, domain_from_host, download_label, home_search_url, preload_url, reset_credentials,
    resource_link, reverse_search_links, source_urls, split_reset_token,
};
use frontend::selection::Selection;
use frontend::tag_cache::TagCache;
use frontend::tokens::{create_token_body, expiration_label, remove_token, replace_token, toggle_token_body, UserToken};

fn strings(v: &[&str]) -> Vec<String> {
    v.iter().map(|s| s.to_string()).collect()
}

#[test]
fn domains() {
    assert_eq!(domain_from_host("https://example.com/a", Some("example.com".to_string())), "example.com");
    assert_eq!(domain_from_host("not a url", None), "not a url");
    assert_eq!(domain_from_host("file:///x", Some(String::new())), "file:///x");
}

#[test]
fn source_lines() {
    assert_eq!(source_urls("https://a.example\n https://b.example  x"), strings(&["https://a.example", "https://b.example", "x"]));
    assert_eq!(source_urls("  "), Vec::<String>::new());
}

#[test]
fn download_labels() {
    assert_eq!(download_label(Some(1536), Some(MimeType::Png), Some(800), Some(600)), "1.5K PNG (800x600)");
    assert_eq!(download_label(None, None, None, None), " unknown ");
    assert_eq!(download_label(Some(100), Some(MimeType::Mp4), Some(10), None), "100B MPEG-4 ");
}

#[test]
fn reverse_search() {
    let r = reverse_search_links(Some("https://booru.example"), "/data/posts/1_abc.jpg", "d41d8cd98f00b204e9800998ecf8427e");
    assert_eq!(
        r.iqdb,
        Some("https://iqdb.org/?url=https%3A%2F%2Fbooru.example%2Fdata%2Fposts%2F1_abc.jpg".to_string())
    );
    assert_eq!(
        r.danbooru,
        Some("https://danbooru.donmai.us/posts?tags=md5:d41d8cd98f00b204e9800998ecf8427e".to_string())
    );
    assert_eq!(
        r.google_lens,
        Some("https://lens.google.com/uploadbyurl?url=https%3A%2F%2Fbooru.example%2Fdata%2Fposts%2F1_abc.jpg".to_string())
    );
    let r = reverse_search_links(None, "/x.jpg", "");
    assert_eq!(r.iqdb, None);
    assert_eq!(r.danbooru, None);
    assert_eq!(r.google_lens, None);
}

#[test]
fn history_links() {
    assert_eq!(resource_link("Post", "12"), Some("/post/12".to_string()));
    assert_eq!(resource_link("Post", "abc"), None);
    assert_eq!(resource_link("Tag", "blue_sky"), Some("/tag/blue_sky".to_string()));
    assert_eq!(resource_link("TagCategory", "meta"), Some("/tag/meta".to_string()));
    assert_eq!(resource_link("TagImplication", "a"), Some("/tag/a".to_string()));
    assert_eq!(resource_link("TagSuggestion", "b"), Some("/tag/b".to_string()));
    assert_eq!(resource_link("Pool", "3"), Some("/pool/3".to_string()));
    assert_eq!(resource_link("PoolCategory", "x"), None);
    assert_eq!(resource_link("User", "alice"), Some("/user/alice".to_string()));
    assert_eq!(resource_link("UserToken", "alice"), Some("/user/alice".to_string()));
    assert_eq!(resource_link("Comment", "1"), None);
}

#[test]
fn search_addresses() {
    assert_eq!(home_search_url(""), "/posts");
    assert_eq!(home_search_url("cat dog"), "/posts?query=cat%20dog&limit=42");
    assert_eq!(comments_query(""), "sort:comment-date comment-count:1..");
    assert_eq!(comments_query("cat"), "cat sort:comment-date comment-count:1..");
}

#[test]
fn comment_permissions() {
    assert_eq!(comment_actions(Some("alice"), "alice", true, false, true, false), (true, true));
    assert_eq!(comment_actions(Some("bob"), "alice", true, false, true, false), (false, false));
    assert_eq!(comment_actions(None, "alice", true, true, false, true), (true, true));
    assert_eq!(comment_actions(Some("alice"), "alice", false, false, true, false), (false, true));
}

#[test]
fn reset_tokens() {
    assert_eq!(split_reset_token("alice:abc123"), Some(("alice".to_string(), "abc123".to_string())));
    assert_eq!(split_reset_token("alice:a:b"), Some(("alice".to_string(), "a:b".to_string())));
    assert_eq!(split_reset_token(":t"), Some((String::new(), "t".to_string())));
    assert_eq!(split_reset_token("alice"), None);
    assert_eq!(reset_credentials(None), Err("Missing reset token.".to_string()));
}

#[test]
fn endless_scroll_feed() {
    let mut f: ScrollFeed<u32> = ScrollFeed::new();
    assert!(!f.has_more());
    assert!(!f.at_end());
    f.page_loaded(0, vec![1, 2], 5);
    assert_eq!(f.items, vec![1, 2]);
    assert!(f.has_more());
    assert_eq!(f.begin_load(), Some(2));
    assert_eq!(f.begin_load(), None);
    f.more_loaded(2, vec![3, 4], 5);
    assert_eq!(f.items, vec![1, 2, 3, 4]);
    assert_eq!(f.loaded_up_to, 4);
    assert_eq!(f.begin_load(), Some(4));
    f.load_failed();
    assert!(!f.loading_more);
    assert_eq!(f.begin_load(), Some(4));
    f.more_loaded(4, vec![5], 5);
    assert!(!f.has_more());
    assert!(f.at_end());
    assert_eq!(f.begin_load(), None);
}

#[test]
fn bulk_selection() {
    let mut s = Selection::new();
    assert!(!s.selecting());
    s.toggle_mode();
    assert!(s.selecting());
    s.toggle(4);
    s.toggle(7);
    assert!(s.contains(4));
    assert_eq!(s.count(), 2);
    s.toggle(4);
    assert!(!s.contains(4));
    assert_eq!(s.count(), 1);
    let posts = vec![Some(1), None, Some(7), Some(9)];
    assert_eq!(selected_posts(&posts, &s), vec![2]);
    s.select_all(&posts);
    assert_eq!(s.count(), 3);
    assert_eq!(selected_posts(&posts, &s), vec![0, 2, 3]);
    s.deselect_all();
    assert_eq!(s.count(), 0);
    s.toggle(5);
    s.toggle_mode();
    assert!(!s.selecting());
    assert_eq!(s.count(), 0);
}

#[test]
fn toggle_twice_law() {
    let mut s = Selection::new();
    s.toggle(1);
    let before = s.contains(3);
    s.toggle(3);
    s.toggle(3);
    assert_eq!(s.contains(3), before);
    assert!(s.contains(1));
}

#[test]
fn bulk_tagging_and_errors() {
    assert_eq!(bulk_tags(&strings(&["cat"]), "Cat, dog , ,bird"), strings(&["cat", "dog", "bird"]));
    assert_eq!(bulk_tag_input(" a,b "), strings(&["a", "b"]));
    let e = ApiError::Server { description: "Forbidden".to_string() };
    assert_eq!(post_error(17, &e), "Post 17: Forbidden");
    assert_eq!(bulk_error_message(&Vec::new()), None);
    assert_eq!(bulk_error_message(&strings(&["a"])), Some("a".to_string()));
    assert_eq!(bulk_error_message(&strings(&["a", "b", "c"])), Some("a; b; c".to_string()));
}

#[test]
fn tag_cache_read_back() {
    let mut c: TagCache<u32> = TagCache::new();
    assert_eq!(c.get("cat"), None);
    assert_eq!(c.get(""), None);
    c.set("cat", 7);
    assert_eq!(c.get("cat"), Some(7));
    assert_eq!(c.get("dog"), None);
    c.set("", 9);
    assert_eq!(c.get(""), None);
}

fn token(value: &str, enabled: Option<bool>) -> UserToken {
    UserToken {
        token: Some(value.to_string()),
        note: None,
        enabled,
        creation_time: None,
        expiration_time: None,
        version: Some("v1".to_string()),
    }
}

#[test]
fn user_tokens() {
    let b = create_token_body("");
    assert_eq!((b.enabled, b.note, b.expiration_time), (Some(true), None, None));
    assert_eq!(create_token_body("laptop").note, Some("laptop".to_string()));
    let t = token("a", Some(true));
    let u = toggle_token_body(&t);
    assert_eq!((u.version.as_str(), u.enabled), ("v1", Some(false)));
    assert_eq!(toggle_token_body(&token("b", None)).enabled, Some(true));
    let mut t2 = token("c", None);
    t2.version = None;
    assert_eq!(toggle_token_body(&t2).version, "");
    assert_eq!(expiration_label(&t), "Never");
    let mut t3 = token("d", None);
    t3.expiration_time = Some(Some("2030-01-01".to_string()));
    assert_eq!(expiration_label(&t3), "2030-01-01");
    t3.expiration_time = Some(None);
    assert_eq!(expiration_label(&t3), "Never");

    let mut list = vec![token("a", Some(true)), token("b", Some(true)), token("a", None)];
    replace_token(&mut list, token("a", Some(false)));
    assert_eq!(list[0].enabled, Some(false));
    assert_eq!(list[2].enabled, None);
    replace_token(&mut list, token("zzz", Some(false)));
    assert_eq!(list.len(), 3);
    remove_token(&mut list, "a");
    assert_eq!(list.len(), 1);
    assert_eq!(list[0].token, Some("b".to_string()));
    remove_token(&mut list, "none");
    assert_eq!(list.len(), 1);
}

#[test]
fn neighbour_preloading() {
    let url = Some("/data/posts/2.png".to_string());
    assert_eq!(preload_url(None, url.clone()), url);
    assert_eq!(preload_url(Some(PostType::Image), url.clone()), url);
    assert_eq!(preload_url(Some(PostType::Animation), url.clone()), url);
    assert_eq!(preload_url(Some(PostType::Video), url.clone()), None);
    assert_eq!(preload_url(Some(PostType::Flash), url.clone()), None);
    assert_eq!(preload_url(Some(PostType::Image), None), None);
}

#[test]
fn names_and_titles() {
    assert_eq!(pool_title(&Some(strings(&["Trip", "trip2"])), 4), "Trip");
    assert_eq!(pool_title(&Some(Vec::new()), 4), "#4");
    assert_eq!(pool_title(&None, -2), "#-2");
    assert_eq!(aliases(&strings(&["a", "b", "c"])), strings(&["b", "c"]));
    assert_eq!(aliases(&strings(&["a"])), Vec::<String>::new());
    assert_eq!(aliases(&Vec::new()), Vec::<String>::new());
}
