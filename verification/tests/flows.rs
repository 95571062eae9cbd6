use frontend::bulk::{bulk_safety_body, bulk_tag_body, finish_bulk_run};
use frontend::model::PostSafety;
use frontend::routes::{
    created_pool_route, merged_pool_route, merged_post_route, post_key_route, renamed_tag_route, renamed_user_route,
    tag_route,
};
use frontend::selection::Selection;
use frontend::settings::{Settings, SettingsDraft, SettingsToggle};
use frontend::tag_cache::{tag_fetch_done, TagCache, TagPageUpdate};
use frontend::upload::UploadQueue;
use frontend::upload_run::all_uploaded_message;
use frontend::edits::{safety_field, PostEditState};
use frontend::pages::user_label;
use frontend::utils::{build_list_url, fetch_allowed, format_time_short, list_query_params, page_header, scroll_should_fetch};

fn strings(v: &[&str]) -> Vec<String> {
    v.iter().map(|s| s.to_string()).collect()
}

#[test]
fn time_short_law() {
    for ts in ["2024-01-15T10:30:45Z", "2024-01-15", "", "T", "aTbTc", "just-a-string"] {
        let r = format_time_short(ts);
        assert!(ts.starts_with(&r));
        assert!(!r.contains('T'));
        assert_eq!(r == ts, !ts.contains('T'));
        assert_eq!(format_time_short(&r), r);
    }
}

#[test]
fn bulk_bodies() {
    let b = bulk_tag_body("4", &strings(&["cat"]), "Cat, dog");
    assert_eq!(b.version, "4");
    assert_eq!(b.tags, Some(strings(&["cat", "dog"])));
    assert_eq!(b.safety, None);
    assert_eq!((b.source, b.description, b.relations, b.flags), (None, None, None, None));
    assert_eq!((b.content_token, b.thumbnail_token), (None, None));
    let b = bulk_safety_body("", PostSafety::Unsafe);
    assert_eq!(b.version, "");
    assert_eq!(b.safety, Some(PostSafety::Unsafe));
    assert_eq!(b.tags, None);
}

#[test]
fn bulk_run_endings() {
    let mut s = Selection::new();
    s.toggle_mode();
    s.toggle(3);
    s.toggle(5);
    let msg = finish_bulk_run(&mut s, &strings(&["Post 3: Forbidden", "Post 5: Gone"]));
    assert_eq!(msg, Some("Post 3: Forbidden; Post 5: Gone".to_string()));
    assert!(s.selecting());
    assert_eq!(s.count(), 2);
    assert_eq!(finish_bulk_run(&mut s, &Vec::new()), None);
    assert!(!s.selecting());
    assert_eq!(s.count(), 0);
}

#[test]
fn navigation_targets() {
    assert_eq!(created_pool_route(Some(7)), "/pool/7");
    assert_eq!(created_pool_route(None), "/pool/0");
    assert_eq!(merged_pool_route(None, 9), "/pool/9");
    assert_eq!(merged_pool_route(Some(2), 9), "/pool/2");
    assert_eq!(merged_post_route(Some(11), 3), "/post/11");
    assert_eq!(merged_post_route(None, 3), "/post/3");
    assert_eq!(tag_route(&Some(strings(&["blue sky", "sky"]))), "/tag/blue%20sky");
    assert_eq!(tag_route(&None), "/tag/");
    assert_eq!(renamed_tag_route("cat", &Some(strings(&["cat"]))), None);
    assert_eq!(renamed_tag_route("cat", &None), None);
    assert_eq!(renamed_tag_route("cat", &Some(strings(&["feline", "cat"]))), Some("/tag/feline/edit".to_string()));
    assert_eq!(renamed_user_route(Some("a b")), Some("/user/a%20b/edit".to_string()));
    assert_eq!(renamed_user_route(None), None);
}

#[test]
fn post_page_keys() {
    assert_eq!(post_key_route("e", 5, None, None), Some("/post/5/edit".to_string()));
    assert_eq!(post_key_route("e", 0, None, None), None);
    assert_eq!(post_key_route("a", 5, Some(4), Some(6)), Some("/post/4".to_string()));
    assert_eq!(post_key_route("ArrowLeft", 5, Some(4), Some(6)), Some("/post/4".to_string()));
    assert_eq!(post_key_route("d", 5, Some(4), Some(6)), Some("/post/6".to_string()));
    assert_eq!(post_key_route("ArrowRight", 5, Some(4), None), None);
    assert_eq!(post_key_route("x", 5, Some(4), Some(6)), None);
}

#[test]
fn settings_form() {
    let current = Settings::default();
    let mut form = SettingsDraft::new(&current);
    assert!(!form.saved);
    form.toggle(SettingsToggle::DarkTheme);
    form.toggle(SettingsToggle::TagUnderscores);
    form.posts_per_page_typed("60");
    form.posts_per_page_typed("500");
    assert_eq!(form.draft.posts_per_page, 60);
    let applied = form.apply();
    assert!(form.saved);
    assert!(applied.dark_theme && applied.tag_underscores);
    assert_eq!(applied.posts_per_page, 60);
    assert_eq!(applied.fit_mode, "fit-both");
    form.posts_per_page_typed("x");
    assert!(form.saved);
    form.toggle(SettingsToggle::DarkTheme);
    assert!(!form.saved);
    assert!(!form.draft.dark_theme);
}

#[test]
fn tag_page_fetch() {
    let mut cache: TagCache<u32> = TagCache::new();
    assert!(matches!(tag_fetch_done(&mut cache, "cat", Err::<u32, &str>("offline"), false), TagPageUpdate::Fail("offline")));
    assert_eq!(cache.get("cat"), None);
    assert!(matches!(tag_fetch_done(&mut cache, "cat", Ok::<u32, &str>(3), false), TagPageUpdate::Show(3)));
    assert_eq!(cache.get("cat"), Some(3));
    assert!(matches!(tag_fetch_done(&mut cache, "cat", Err::<u32, &str>("offline"), true), TagPageUpdate::Keep));
    assert_eq!(cache.get("cat"), Some(3));
    cache.set("dog", 4);
    assert_eq!(cache.get("cat"), None);
    assert_eq!(cache.get("dog"), Some(4));
}

#[test]
fn per_file_tags() {
    let mut q: UploadQueue<u8> = UploadQueue::new();
    q.add_file("a".to_string(), "a".to_string(), 0, None);
    q.add_file("b".to_string(), "b".to_string(), 0, None);
    q.set_file_tags("b", strings(&["sky"]));
    q.set_file_tags("zzz", strings(&["x"]));
    assert_eq!(q.file_tags(), vec![("a".to_string(), Vec::new()), ("b".to_string(), strings(&["sky"]))]);
    q.move_item("b", -1);
    assert_eq!(q.file_tags(), vec![("b".to_string(), strings(&["sky"])), ("a".to_string(), Vec::new())]);
    q.remove("b");
    assert_eq!(q.file_tags(), vec![("a".to_string(), Vec::<String>::new())]);
    q.add_file("b".to_string(), "b".to_string(), 0, None);
    assert_eq!(q.file_tags()[1].1, Vec::<String>::new());
}

#[test]
fn upload_messages() {
    assert_eq!(all_uploaded_message(3), "All 3 posts uploaded.");
}

#[test]
fn settings_form_listing_and_fit_mode() {
    let mut form = SettingsDraft::new(&Settings::default());
    form.toggle(SettingsToggle::ListPostsSafe);
    form.toggle(SettingsToggle::ListPostsUnsafe);
    form.fit_mode_chosen("fit-width");
    assert!(!form.draft.list_posts_safe);
    assert!(form.draft.list_posts_sketchy);
    assert!(form.draft.list_posts_unsafe);
    assert_eq!(form.draft.fit_mode, "fit-width");
    assert!(!form.saved);
    let applied = form.apply();
    assert_eq!(applied.fit_mode, "fit-width");
    assert!(!applied.list_posts_safe && applied.list_posts_unsafe);
    form.toggle(SettingsToggle::ListPostsSketchy);
    assert!(!form.draft.list_posts_sketchy);
}

#[test]
fn list_url_read_back_law() {
    for (offset, limit) in [(0i64, 42i64), (84, 42), (1, 1), (i64::MAX, i64::MIN)] {
        let url = build_list_url("/posts", "", offset, limit);
        let params = url.split_once('?').unwrap().1;
        let mut off = None;
        let mut lim = None;
        for pair in params.split('&') {
            let (k, v) = pair.split_once('=').unwrap();
            if k == "offset" {
                off = Some(v.to_string());
            } else if k == "limit" {
                lim = Some(v.to_string());
            }
        }
        let p = list_query_params(None, off.as_deref(), lim.as_deref(), 7);
        assert_eq!((p.offset, p.limit), (offset, limit));
    }
}

#[test]
fn small_page_decisions() {
    assert_eq!(page_header(101, 50, 50), Some("Page 2 of 3".to_string()));
    assert_eq!(page_header(0, 0, 50), None);
    assert_eq!(page_header(10, 0, 0), None);
    assert_eq!(user_label(None), "Anonymous");
    assert_eq!(user_label(Some("bob".to_string())), "bob");
    assert_eq!(safety_field(None), "safe");
    assert_eq!(safety_field(Some(PostSafety::Unsafe)), "unsafe");
    let mut st = PostEditState { version: "1".to_string(), content_token: Some("c".to_string()), thumbnail_token: Some("t".to_string()) };
    st.post_updated(Some("2".to_string()));
    assert_eq!((st.version.as_str(), &st.content_token, &st.thumbnail_token), ("2", &None, &None));
    st.post_updated(None);
    assert_eq!(st.version, "");
    assert!(fetch_allowed(false, true));
    assert!(!fetch_allowed(true, true));
    assert!(!fetch_allowed(false, false));
    assert!(scroll_should_fetch(false, true, 1000, 1500, 300));
    assert!(!scroll_should_fetch(true, true, 1000, 1500, 300));
    assert!(!scroll_should_fetch(false, true, 0, 1500, 300));
    assert!(!scroll_should_fetch(false, false, i32::MIN, i32::MAX, 0));
}
