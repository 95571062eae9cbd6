use frontend::categories::{category_color, category_create_body, category_removable, category_update_body};
use frontend::edits::{flags_of, has_flag, post_edit_body, register_body, regex_check_message, user_update_body};
use frontend::forms::{
    id_list_text, name_list_text, parse_names_field, pool_create_body, pool_create_posts, pool_edit_posts,
    pool_update_body, post_relations, tag_create_body, tag_update_body,
};
use frontend::merge::{pool_merge_request, post_merge_request, tag_merge_request, target_id, MergeRefusal};
use frontend::model::{AvatarStyle, PostSafety, UserRank};
use frontend::removal::{delete_body, deletes_own_account, tag_delete_request};

fn strings(v: &[&str]) -> Vec<String> {
    v.iter().map(|s| s.to_string()).collect()
}

#[test]
fn names_field_parsing() {
    assert_eq!(parse_names_field(" cat , kitty ,, ").unwrap(), strings(&["cat", "kitty"]));
    assert_eq!(parse_names_field("  ,  ").unwrap_err(), "At least one name is required.");
    assert_eq!(parse_names_field("").unwrap_err(), "At least one name is required.");
}

#[test]
fn post_id_fields() {
    assert_eq!(pool_create_posts("   ").unwrap(), None);
    assert_eq!(pool_create_posts("1, 2").unwrap(), Some(vec![1, 2]));
    assert_eq!(pool_create_posts("1, two").unwrap_err(), "Invalid post IDs.");
    assert_eq!(pool_edit_posts("").unwrap(), Vec::<i64>::new());
    assert_eq!(pool_edit_posts("5,6,7").unwrap(), vec![5, 6, 7]);
    assert_eq!(pool_edit_posts("5;6").unwrap_err(), "Invalid post IDs.");
    assert_eq!(post_relations(" ").unwrap(), Vec::<i64>::new());
    assert_eq!(post_relations("12, 13").unwrap(), vec![12, 13]);
    assert_eq!(post_relations("12,").unwrap_err(), "Invalid relation IDs.");
}

#[test]
fn id_list_round_trip() {
    let ids = vec![3, -1, 42];
    let text = id_list_text(&ids);
    assert_eq!(text, "3, -1, 42");
    assert_eq!(pool_edit_posts(&text).unwrap(), ids);
    assert_eq!(id_list_text(&vec![]), "");
    assert_eq!(pool_edit_posts("").unwrap(), Vec::<i64>::new());
    assert_eq!(id_list_text(&vec![i64::MIN]), "-9223372036854775808");
    assert_eq!(post_relations(&id_list_text(&vec![i64::MIN, i64::MAX])).unwrap(), vec![i64::MIN, i64::MAX]);
}

#[test]
fn name_list_round_trip() {
    let names = strings(&["blue_sky", "sky"]);
    let text = name_list_text(&names);
    assert_eq!(text, "blue_sky, sky");
    assert_eq!(parse_names_field(&text).unwrap(), names);
    assert_eq!(name_list_text(&Vec::new()), "");
}

#[test]
fn tag_bodies() {
    let b = tag_create_body("cat, kitty", "", "", Vec::new(), strings(&["pet"])).unwrap();
    assert_eq!(b.names, strings(&["cat", "kitty"]));
    assert_eq!(b.category, "default");
    assert_eq!(b.description, None);
    assert_eq!(b.implications, None);
    assert_eq!(b.suggestions, Some(strings(&["pet"])));
    let b = tag_create_body("cat", "animal", "A cat.", strings(&["mammal"]), Vec::new()).unwrap();
    assert_eq!(b.category, "animal");
    assert_eq!(b.description, Some("A cat.".to_string()));
    assert_eq!(b.implications, Some(strings(&["mammal"])));
    assert_eq!(b.suggestions, None);
    assert_eq!(tag_create_body(" , ", "x", "", Vec::new(), Vec::new()).err().unwrap(), "At least one name is required.");

    let u = tag_update_body("cat", "7", "", "", Vec::new(), Vec::new()).unwrap();
    assert_eq!(u.version, "7");
    assert_eq!(u.names, Some(strings(&["cat"])));
    assert_eq!(u.category, Some(String::new()));
    assert_eq!(u.description, Some(String::new()));
    assert_eq!(u.implications, Some(Vec::new()));
    assert_eq!(u.suggestions, Some(Vec::new()));
    assert!(tag_update_body("", "7", "", "", Vec::new(), Vec::new()).is_err());
}

#[test]
fn pool_bodies() {
    let b = pool_create_body("Trip, trip_2023", "", "", "").unwrap();
    assert_eq!(b.names, strings(&["Trip", "trip_2023"]));
    assert_eq!(b.category, "default");
    assert_eq!(b.description, None);
    assert_eq!(b.posts, None);
    let b = pool_create_body("Trip", "travel", "Summer", "4, 5").unwrap();
    assert_eq!(b.category, "travel");
    assert_eq!(b.description, Some("Summer".to_string()));
    assert_eq!(b.posts, Some(vec![4, 5]));
    assert_eq!(pool_create_body("", "", "", "x").err().unwrap(), "At least one name is required.");
    assert_eq!(pool_create_body("Trip", "", "", "x").err().unwrap(), "Invalid post IDs.");

    let u = pool_update_body("Trip", "3", "travel", "", "").unwrap();
    assert_eq!(u.version, "3");
    assert_eq!(u.names, Some(strings(&["Trip"])));
    assert_eq!(u.category, Some("travel".to_string()));
    assert_eq!(u.description, Some(String::new()));
    assert_eq!(u.posts, Some(Vec::new()));
    assert_eq!(pool_update_body("Trip", "3", "", "", "1,a").err().unwrap(), "Invalid post IDs.");
    assert_eq!(pool_update_body(" ", "3", "", "", "1,a").err().unwrap(), "At least one name is required.");
}

#[test]
fn post_flags() {
    assert_eq!(flags_of(true, true), strings(&["loop", "sound"]));
    assert_eq!(flags_of(false, true), strings(&["sound"]));
    assert_eq!(flags_of(false, false), Vec::<String>::new());
    assert!(has_flag(&strings(&["loop"]), "loop"));
    assert!(!has_flag(&strings(&["loop"]), "sound"));
}

#[test]
fn post_edit_request() {
    let b = post_edit_body(
        "sketchy",
        strings(&["cat"]),
        "https://a.example",
        "desc",
        "1, 2",
        true,
        false,
        "9",
        Some("tok".to_string()),
        None,
    )
    .unwrap();
    assert_eq!(b.version, "9");
    assert_eq!(b.safety, Some(PostSafety::Sketchy));
    assert_eq!(b.source, Some("https://a.example".to_string()));
    assert_eq!(b.description, Some("desc".to_string()));
    assert_eq!(b.relations, Some(vec![1, 2]));
    assert_eq!(b.tags, Some(strings(&["cat"])));
    assert_eq!(b.flags, Some(strings(&["loop"])));
    assert_eq!(b.content_token, Some("tok".to_string()));
    assert_eq!(b.thumbnail_token, None);
    let b = post_edit_body("weird", Vec::new(), "", "", "", false, false, "1", None, None).unwrap();
    assert_eq!(b.safety, None);
    assert_eq!(b.relations, Some(Vec::new()));
    assert_eq!(b.flags, Some(Vec::new()));
    let e = post_edit_body("safe", Vec::new(), "", "", "1,b", false, false, "1", None, None);
    assert_eq!(e.err().unwrap(), "Invalid relation IDs.");
}

#[test]
fn user_requests() {
    let b = user_update_body("alice", "4", "alice", "", "", "power", "manual", "");
    assert_eq!(b.version, "4");
    assert_eq!(b.name, None);
    assert_eq!(b.password, None);
    assert_eq!(b.email, Some(None));
    assert_eq!(b.rank, Some(UserRank::Power));
    assert_eq!(b.avatar_style, Some(AvatarStyle::Manual));
    assert_eq!(b.avatar_url, None);
    let b = user_update_body("alice", "4", "alicia", "secret", "a@b.c", "god", "", "http://x/a.png");
    assert_eq!(b.name, Some("alicia".to_string()));
    assert_eq!(b.password, Some("secret".to_string()));
    assert_eq!(b.email, Some(Some("a@b.c".to_string())));
    assert_eq!(b.rank, None);
    assert_eq!(b.avatar_style, None);
    assert_eq!(b.avatar_url, Some("http://x/a.png".to_string()));

    let r = register_body("bob", "pw", "");
    assert_eq!(r.name, "bob");
    assert_eq!(r.password, "pw");
    assert_eq!(r.email, None);
    assert_eq!(r.rank, None);
    assert_eq!(r.avatar_style, None);
    assert_eq!(register_body("bob", "pw", "b@c.d").email, Some("b@c.d".to_string()));
}

#[test]
fn regex_messages() {
    assert_eq!(regex_check_message(true, "^[a-z]+$", "Username"), None);
    assert_eq!(
        regex_check_message(false, "^[a-z]+$", "Username"),
        Some("Username doesn't satisfy regex: ^[a-z]+$".to_string())
    );
}

fn refusal(r: MergeRefusal) -> (bool, String) {
    match r {
        MergeRefusal::Invalid(m) => (false, m),
        MergeRefusal::TargetVersionPending(m) => (true, m),
    }
}

#[test]
fn tag_merges() {
    let ok = tag_merge_request("cat", "  feline ", true, "3", "8").ok().unwrap();
    assert_eq!(ok.remove, "cat");
    assert_eq!(ok.merge_to, "feline");
    assert_eq!(ok.remove_version, "3");
    assert_eq!(ok.merge_to_version, "8");
    assert_eq!(refusal(tag_merge_request("cat", "  ", true, "3", "8").err().unwrap()), (false, "Target tag is required.".to_string()));
    assert_eq!(refusal(tag_merge_request("cat", " cat", true, "3", "8").err().unwrap()), (false, "Cannot merge a tag with itself.".to_string()));
    assert_eq!(
        refusal(tag_merge_request("cat", "dog", false, "3", "8").err().unwrap()),
        (false, "Please confirm that you want to merge this tag.".to_string())
    );
    assert_eq!(
        refusal(tag_merge_request("cat", "dog", true, "3", "").err().unwrap()),
        (true, "Loading target tag version, please try again...".to_string())
    );
}

#[test]
fn pool_and_post_merges() {
    assert_eq!(target_id(" 12 "), Some(12));
    assert_eq!(target_id("x"), None);
    let ok = pool_merge_request(5, " 6", "1", "2").ok().unwrap();
    assert_eq!((ok.remove, ok.merge_to), (5, 6));
    assert_eq!((ok.remove_version.as_str(), ok.merge_to_version.as_str()), ("1", "2"));
    assert_eq!(refusal(pool_merge_request(5, "six", "1", "2").err().unwrap()), (false, "Invalid target pool ID.".to_string()));
    assert_eq!(refusal(pool_merge_request(5, "5", "1", "2").err().unwrap()), (false, "Cannot merge a pool with itself.".to_string()));
    assert_eq!(refusal(pool_merge_request(5, "6", "1", "").err().unwrap()), (true, "Loading target pool version...".to_string()));

    let ok = post_merge_request(10, "11", "a", "b", true).ok().unwrap();
    assert_eq!((ok.remove, ok.merge_to, ok.replace_content), (10, 11, true));
    assert_eq!(refusal(post_merge_request(10, "", "a", "b", false).err().unwrap()), (false, "Invalid target post ID.".to_string()));
    assert_eq!(refusal(post_merge_request(10, "10", "a", "b", false).err().unwrap()), (false, "Cannot merge a post with itself.".to_string()));
    assert_eq!(refusal(post_merge_request(10, "11", "a", "", false).err().unwrap()), (true, "Loading target post version...".to_string()));
}

#[test]
fn pool_category_requests() {
    assert_eq!(category_color(&None), "#aaaaaa");
    assert_eq!(category_color(&Some("#123456".to_string())), "#123456");
    assert!(category_create_body("  ", "#000000").is_none());
    let b = category_create_body(" comics ", "#ff0000").unwrap();
    assert_eq!((b.name.as_str(), b.color.as_str()), (" comics ", "#ff0000"));
    let u = category_update_body("5", "#00ff00");
    assert_eq!((u.version.as_str(), u.name, u.color), ("5", None, Some("#00ff00".to_string())));
    assert!(category_removable(None));
    assert!(category_removable(Some(false)));
    assert!(!category_removable(Some(true)));
}

#[test]
fn deletion_requests() {
    assert_eq!(delete_body("12").version, "12");
    assert_eq!(tag_delete_request(true, "3").ok().unwrap().version, "3");
    assert_eq!(tag_delete_request(false, "3").err().unwrap(), "Please confirm that you want to delete this tag.");
    assert!(deletes_own_account(Some("alice"), "alice"));
    assert!(!deletes_own_account(Some("alice"), "bob"));
    assert!(!deletes_own_account(None, "alice"));
}
