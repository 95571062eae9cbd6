use frontend::model::{ApiError, PostSafety};
use frontend::upload::{url_name, UploadQueue, UploadStatus};
use frontend::upload_run::{SearchSummary, UploadAction, UploadOptions, UploadOutcome, UploadRun, UploadStage};

fn keys(q: &UploadQueue<u8>) -> Vec<String> {
    q.items().iter().map(|u| u.key.clone()).collect()
}

fn options() -> UploadOptions {
    UploadOptions {
        skip_duplicate: false,
        force_upload_similar: false,
        pause_on_error: false,
        single_safety: PostSafety::Safe,
        single_anonymous: false,
        relate_all: false,
        shared_tags: Vec::new(),
        file_tags: Vec::new(),
    }
}

#[test]
fn url_names() {
    assert_eq!(url_name("https://example.com/img/cat.png"), "cat.png");
    assert_eq!(url_name("https://example.com/"), "");
    assert_eq!(url_name("no-slash"), "no-slash");
}

#[test]
fn queue_add_and_remove() {
    let mut q: UploadQueue<u8> = UploadQueue::new();
    assert!(q.add_file("a.png_10".to_string(), "a.png".to_string(), 1, Some("blob:1".to_string())));
    assert!(!q.add_file("a.png_10".to_string(), "a.png".to_string(), 2, None));
    assert!(q.add_url("https://x.example/b.jpg".to_string()));
    assert!(!q.add_url("https://x.example/b.jpg".to_string()));
    assert_eq!(keys(&q), vec!["a.png_10", "https://x.example/b.jpg"]);
    assert!(q.is_bulk());
    let u = &q.items()[1];
    assert_eq!(u.name, "b.jpg");
    assert_eq!(u.url, Some("https://x.example/b.jpg".to_string()));
    assert_eq!(u.file, None);
    assert_eq!(u.safety, PostSafety::Safe);
    assert!(!u.anonymous);
    assert!(matches!(u.status, UploadStatus::Pending));
    assert_eq!(q.remove("a.png_10"), Some("blob:1".to_string()));
    assert_eq!(q.remove("missing"), None);
    assert_eq!(keys(&q), vec!["https://x.example/b.jpg"]);
    assert!(!q.is_bulk());
}

#[test]
fn remove_undoes_add_law() {
    let mut q: UploadQueue<u8> = UploadQueue::new();
    q.add_file("x".to_string(), "x".to_string(), 0, None);
    let before = keys(&q);
    q.add_file("y".to_string(), "y".to_string(), 0, None);
    q.remove("y");
    assert_eq!(keys(&q), before);
}

#[test]
fn queue_moves() {
    let mut q: UploadQueue<u8> = UploadQueue::new();
    for k in ["a", "b", "c"] {
        q.add_file(k.to_string(), k.to_string(), 0, None);
    }
    q.move_item("a", 1);
    assert_eq!(keys(&q), vec!["b", "a", "c"]);
    q.move_item("a", -1);
    assert_eq!(keys(&q), vec!["a", "b", "c"]);
    q.move_item("a", -1);
    assert_eq!(keys(&q), vec!["a", "b", "c"]);
    q.move_item("c", 1);
    assert_eq!(keys(&q), vec!["a", "b", "c"]);
    q.move_item("c", -2);
    assert_eq!(keys(&q), vec!["c", "b", "a"]);
    q.move_item("zzz", 1);
    assert_eq!(keys(&q), vec!["c", "b", "a"]);
}

#[test]
fn queue_settings_and_status() {
    let mut q: UploadQueue<u8> = UploadQueue::new();
    q.add_file("a".to_string(), "a".to_string(), 0, None);
    q.add_file("b".to_string(), "b".to_string(), 0, None);
    q.set_safety("b", PostSafety::Unsafe);
    q.set_anonymous("a", true);
    assert_eq!(q.items()[0].safety, PostSafety::Safe);
    assert_eq!(q.items()[1].safety, PostSafety::Unsafe);
    assert!(q.items()[0].anonymous);
    assert!(!q.items()[1].anonymous);
    q.set_status(0, UploadStatus::Done);
    q.set_status(9, UploadStatus::Done);
    assert!(matches!(q.items()[0].status, UploadStatus::Done));
    assert_eq!(q.pending_indices(), vec![1]);
}

#[test]
fn run_without_pending_items() {
    let q: UploadQueue<u8> = UploadQueue::new();
    assert_eq!(UploadRun::start(&q, options()).err().unwrap(), "No files to upload.");
}

#[test]
fn run_single_file_with_search() {
    let mut q: UploadQueue<u8> = UploadQueue::new();
    q.add_file("cat.png_5".to_string(), "cat.png".to_string(), 9, None);
    let mut opts = options();
    opts.shared_tags = vec!["cat".to_string()];
    opts.file_tags = vec![("cat.png_5".to_string(), vec!["Cat".to_string(), "cute".to_string()])];
    opts.single_safety = PostSafety::Sketchy;
    let mut run = UploadRun::start(&q, opts).ok().unwrap();
    assert_eq!(run.next_index(), Some(0));
    match run.begin_next(&mut q) {
        UploadAction::UploadFile { index } => assert_eq!(index, 0),
        _ => panic!("expected an upload"),
    }
    assert!(matches!(q.items()[0].status, UploadStatus::Uploading));
    match run.after_upload(&mut q, Ok("tok1".to_string())) {
        UploadAction::ReverseSearch { index, content_token, content_url } => {
            assert_eq!(index, 0);
            assert_eq!(content_token, Some("tok1".to_string()));
            assert_eq!(content_url, None);
        },
        _ => panic!("expected a search"),
    }
    let found = SearchSummary { exact_match: false, similar_found: false };
    match run.after_search(&mut q, Some(found)) {
        UploadAction::CreatePost { index, body } => {
            assert_eq!(index, 0);
            assert_eq!(body.safety, PostSafety::Sketchy);
            assert_eq!(body.content_token, Some("tok1".to_string()));
            assert_eq!(body.content_url, None);
            assert_eq!(body.relations, None);
            assert_eq!(body.anonymous, None);
            assert_eq!(body.tags, Some(vec!["cat".to_string(), "cute".to_string()]));
        },
        _ => panic!("expected a post creation"),
    }
    assert!(matches!(run.after_create(&mut q, Ok(Some(55))), UploadAction::Continue));
    assert!(matches!(q.items()[0].status, UploadStatus::Done));
    assert_eq!(run.next_index(), None);
    match run.begin_next(&mut q) {
        UploadAction::Finish { outcome } => assert_eq!(outcome, UploadOutcome::OpenPost(55)),
        _ => panic!("expected the end"),
    }
    assert_eq!(run.stage, UploadStage::Over);
}

#[test]
fn run_of_urls_relating_posts() {
    let mut q: UploadQueue<u8> = UploadQueue::new();
    q.add_url("https://x.example/1.jpg".to_string());
    q.add_url("https://x.example/2.jpg".to_string());
    q.set_anonymous("https://x.example/2.jpg", true);
    let mut opts = options();
    opts.force_upload_similar = true;
    opts.relate_all = true;
    let mut run = UploadRun::start(&q, opts).ok().unwrap();
    match run.begin_next(&mut q) {
        UploadAction::CreatePost { index, body } => {
            assert_eq!(index, 0);
            assert_eq!(body.content_url, Some("https://x.example/1.jpg".to_string()));
            assert_eq!(body.content_token, None);
            assert_eq!(body.relations, None);
            assert_eq!(body.tags, None);
        },
        _ => panic!("expected a post creation"),
    }
    assert!(matches!(run.after_create(&mut q, Ok(Some(1))), UploadAction::Continue));
    match run.begin_next(&mut q) {
        UploadAction::CreatePost { index, body } => {
            assert_eq!(index, 1);
            assert_eq!(body.relations, Some(vec![1]));
            assert_eq!(body.anonymous, Some(true));
        },
        _ => panic!("expected a post creation"),
    }
    assert!(matches!(run.after_create(&mut q, Ok(Some(2))), UploadAction::Continue));
    match run.begin_next(&mut q) {
        UploadAction::Finish { outcome } => assert_eq!(outcome, UploadOutcome::AllUploaded(2)),
        _ => panic!("expected the end"),
    }
}

#[test]
fn run_errors_and_skips() {
    let mut q: UploadQueue<u8> = UploadQueue::new();
    q.add_file("a".to_string(), "a.png".to_string(), 0, None);
    q.add_file("b".to_string(), "b.png".to_string(), 0, None);
    q.add_file("c".to_string(), "c.png".to_string(), 0, None);
    let mut opts = options();
    opts.skip_duplicate = true;
    let mut run = UploadRun::start(&q, opts).ok().unwrap();
    run.begin_next(&mut q);
    assert!(matches!(run.after_upload(&mut q, Err("timeout".to_string())), UploadAction::Continue));
    match &q.items()[0].status {
        UploadStatus::Error(m) => assert_eq!(m, "a.png: Upload failed \u{2014} timeout"),
        _ => panic!("expected an error"),
    }
    run.begin_next(&mut q);
    run.after_upload(&mut q, Ok("t".to_string()));
    let exact = SearchSummary { exact_match: true, similar_found: true };
    assert!(matches!(run.after_search(&mut q, Some(exact)), UploadAction::Continue));
    assert!(matches!(q.items()[1].status, UploadStatus::Skipped));
    run.begin_next(&mut q);
    run.after_upload(&mut q, Ok("t".to_string()));
    assert!(matches!(run.after_search(&mut q, None), UploadAction::CreatePost { .. }));
    let e = ApiError::Server { description: "Bad request".to_string() };
    assert!(matches!(run.after_create(&mut q, Err(e)), UploadAction::Continue));
    match &q.items()[2].status {
        UploadStatus::Error(m) => assert_eq!(m, "c.png: Bad request"),
        _ => panic!("expected an error"),
    }
    match run.begin_next(&mut q) {
        UploadAction::Finish { outcome } => assert_eq!(outcome, UploadOutcome::Quiet),
        _ => panic!("expected the end"),
    }
}

#[test]
fn run_pauses_on_similar() {
    let mut q: UploadQueue<u8> = UploadQueue::new();
    q.add_file("a".to_string(), "a.png".to_string(), 0, None);
    q.add_file("b".to_string(), "b.png".to_string(), 0, None);
    let mut opts = options();
    opts.pause_on_error = true;
    let mut run = UploadRun::start(&q, opts).ok().unwrap();
    run.begin_next(&mut q);
    run.after_upload(&mut q, Ok("t".to_string()));
    let similar = SearchSummary { exact_match: false, similar_found: true };
    match run.after_search(&mut q, Some(similar)) {
        UploadAction::Stop { error } => {
            assert_eq!(error, "a.png: Similar posts found. Check 'Force upload similar' to override.")
        },
        _ => panic!("expected a stop"),
    }
    assert_eq!(run.stage, UploadStage::Over);
    assert!(matches!(q.items()[1].status, UploadStatus::Pending));
}
