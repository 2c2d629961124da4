use mdserve::digest::{digest, location_id, to_hex};
use mdserve::listing::{list_articles, LISTING_COUNT, LISTING_START};
use mdserve::tree::{collect_files, find_id, resolve, WalkItem};

const EMPTY_SHA256: &str = "e3b0c44298fc1c149afbf4c8996fb92427ae41e4649b934ca495991b7852b855";
const ABC_SHA256: &str = "ba7816bf8f01cfea414140de5dae2223b00361a396177a9cb410ff61f20015ad";

fn entry(path: &str, is_file: bool) -> WalkItem {
    WalkItem::Entry { path: path.to_string(), is_file }
}

#[test]
fn digest_of_known_inputs() {
    assert_eq!(digest(b""), EMPTY_SHA256);
    assert_eq!(digest(b"abc"), ABC_SHA256);
}

#[test]
fn digest_is_deterministic_and_fixed_length() {
    let a = digest(b"/srv/blog/post.md");
    let b = digest(b"/srv/blog/post.md");
    assert_eq!(a, b);
    assert_eq!(a.len(), 64);
    assert_eq!(digest(&[7u8; 1000]).len(), 64);
    assert_ne!(a, digest(b"/srv/blog/other.md"));
}

#[test]
fn hex_text_of_bytes() {
    assert_eq!(to_hex(&[0x00, 0x0f, 0xa5, 0xff]), "000fa5ff");
    assert_eq!(to_hex(&[]), "");
}

#[test]
fn location_id_digests_the_location_bytes() {
    assert_eq!(location_id("abc"), ABC_SHA256);
    assert_eq!(location_id("/srv/blog/post.md"), digest("/srv/blog/post.md".as_bytes()));
}

#[test]
fn collect_files_keeps_regular_files_in_order() {
    let entries = vec![
        entry("/r", false),
        entry("/r/a.md", true),
        WalkItem::Failed,
        entry("/r/sub", false),
        entry("/r/sub/b.md", true),
    ];
    assert_eq!(collect_files(&entries), vec!["/r/a.md".to_string(), "/r/sub/b.md".to_string()]);
    assert!(collect_files(&vec![]).is_empty());
    assert!(collect_files(&vec![WalkItem::Failed, entry("/r", false)]).is_empty());
}

#[test]
fn find_id_gives_the_first_match() {
    let ids = vec!["aa".to_string(), "bb".to_string(), "bb".to_string()];
    assert_eq!(find_id(&ids, "bb"), Some(1));
    assert_eq!(find_id(&ids, "aa"), Some(0));
    assert_eq!(find_id(&ids, "cc"), None);
    assert_eq!(find_id(&vec![], "aa"), None);
}

#[test]
fn resolve_round_trip() {
    let locs = vec!["/r/a.md".to_string(), "/r/b.md".to_string(), "/r/c/d.md".to_string()];
    for l in &locs {
        assert_eq!(resolve(&locs, &location_id(l)), Some(l.clone()));
    }
}

#[test]
fn resolve_miss() {
    let locs = vec!["/r/a.md".to_string()];
    assert_eq!(resolve(&locs, "0000"), None);
    assert_eq!(resolve(&locs, "/r/a.md"), None);
    assert_eq!(resolve(&vec![], &location_id("/r/a.md")), None);
}

#[test]
fn listing_has_one_summary_per_document() {
    let locs = vec!["/r/a.md".to_string(), "/r/b.md".to_string()];
    let m = list_articles(&locs);
    assert_eq!(m.count, LISTING_COUNT);
    assert_eq!(m.start, LISTING_START);
    assert_eq!(m.count, 100);
    assert_eq!(m.start, 30);
    assert_eq!(m.articles.len(), 2);
    for (a, l) in m.articles.iter().zip(locs.iter()) {
        assert_eq!(a.hash, digest(l.as_bytes()));
        assert_eq!(a.author, "xml");
        assert!(a.content.is_none());
    }
    assert!(list_articles(&vec![]).articles.is_empty());
}

#[test]
fn scenario_list_then_resolve_then_render() {
    let root = "/srv/blog";
    let entries = vec![entry(root, false), entry("/srv/blog/post.md", true)];
    let locs = collect_files(&entries);
    let m = list_articles(&locs);
    assert_eq!(m.articles.len(), 1);
    assert_eq!(m.articles[0].hash, digest(b"/srv/blog/post.md"));
    let found = resolve(&locs, &m.articles[0].hash);
    assert_eq!(found, Some("/srv/blog/post.md".to_string()));
    let html = mdserve::render::render_article_html("# Hi");
    assert!(html.contains("<h1 class=\"title is-1\">Hi</h1>"));
}

#[test]
fn scenario_unknown_identifier_is_not_found() {
    let locs = vec!["/srv/blog/post.md".to_string()];
    assert_eq!(resolve(&locs, &digest(b"/srv/blog/missing.md")), None);
}
