use blog_feed::config::Config;
use blog_feed::feed::{
    build_feed, render, sort_newest_first, FeedError, MAX_FEED_TIMESTAMP, MIN_FEED_TIMESTAMP,
};
use blog_feed::post::Post;

fn post(title: &str, body: &str, timestamp: i64) -> Post {
    Post {
        id: None,
        title: title.to_string(),
        content: body.to_string(),
        author: 1,
        timestamp,
    }
}

fn blog() -> Config {
    Config::new(
        "http://example.com/rss".to_string(),
        "http://example.com".to_string(),
        "Blog".to_string(),
        "d".to_string(),
    )
}

fn titles(doc: &str) -> Vec<String> {
    let mut out = Vec::new();
    for chunk in doc.split("<item>").skip(1) {
        let start = chunk.find("<title>").unwrap() + "<title>".len();
        let end = chunk.find("</title>").unwrap();
        out.push(chunk[start..end].to_string());
    }
    out
}

#[test]
fn end_to_end_two_records() {
    let posts = vec![post("A", "x", 100), post("B", "y", 200)];
    let doc = render(posts, &blog(), 1_700_000_000).unwrap();
    assert_eq!(titles(&doc), vec!["B".to_string(), "A".to_string()]);
    let channel_head = doc.split("<item>").next().unwrap();
    assert!(channel_head.contains("<pubDate>Thu, 01 Jan 1970 00:03:20 +0000</pubDate>"));
    assert!(channel_head.contains("<title>Blog</title>"));
    assert!(channel_head.contains("<link>http://example.com</link>"));
    assert!(channel_head.contains("<description>d</description>"));
}

#[test]
fn end_to_end_model() {
    let sorted = sort_newest_first(vec![post("A", "x", 100), post("B", "y", 200)]);
    let feed = build_feed(&sorted, &blog(), 1_700_000_000).unwrap();
    let names: Vec<&str> = feed.items.iter().map(|i| i.title.as_str()).collect();
    assert_eq!(names, vec!["B", "A"]);
    assert_eq!(feed.items[0].content, "y");
    assert_eq!(feed.pub_date, "Thu, 01 Jan 1970 00:03:20 +0000");
    assert_eq!(feed.items[1].pub_date, "Thu, 01 Jan 1970 00:01:40 +0000");
    assert_eq!(feed.last_build_date, "Tue, 14 Nov 2023 22:13:20 +0000");
}

#[test]
fn sort_is_descending_and_stable_on_ties() {
    let sorted = sort_newest_first(vec![
        post("a", "", 5),
        post("b", "", 9),
        post("c", "", -3),
        post("d", "", 9),
        post("e", "", 5),
    ]);
    let names: Vec<&str> = sorted.iter().map(|p| p.title.as_str()).collect();
    assert_eq!(names, vec!["b", "d", "a", "e", "c"]);
}

#[test]
fn sort_of_nothing_is_empty() {
    assert!(sort_newest_first(Vec::new()).is_empty());
}

#[test]
fn distinct_timestamps_give_strict_order() {
    let sorted = sort_newest_first(vec![post("x", "", 3), post("y", "", 30), post("z", "", 12)]);
    for w in sorted.windows(2) {
        assert!(w[0].timestamp > w[1].timestamp);
    }
    let feed = build_feed(&sorted, &blog(), 0).unwrap();
    assert_eq!(feed.pub_date, "Thu, 01 Jan 1970 00:00:30 +0000");
}

#[test]
fn empty_store_feed() {
    let feed = build_feed(&Vec::new(), &blog(), 86_400).unwrap();
    assert!(feed.items.is_empty());
    assert_eq!(feed.pub_date, feed.last_build_date);
    assert_eq!(feed.last_build_date, "Fri, 02 Jan 1970 00:00:00 +0000");
    let doc = render(Vec::new(), &blog(), 86_400).unwrap();
    assert!(doc.contains("<rss"));
    assert!(doc.contains("</rss>"));
    assert!(!doc.contains("<item>"));
    assert!(doc.contains("<pubDate>Fri, 02 Jan 1970 00:00:00 +0000</pubDate>"));
    assert!(doc.contains("<lastBuildDate>Fri, 02 Jan 1970 00:00:00 +0000</lastBuildDate>"));
}

#[test]
fn negative_timestamp_is_before_1970() {
    let feed = build_feed(&vec![post("old", "", -86_400)], &blog(), 0).unwrap();
    assert_eq!(feed.pub_date, "Wed, 31 Dec 1969 00:00:00 +0000");
}

#[test]
fn bounds_of_the_date_format() {
    assert!(build_feed(&vec![post("p", "", MIN_FEED_TIMESTAMP)], &blog(), 0).is_ok());
    assert!(build_feed(&vec![post("p", "", MAX_FEED_TIMESTAMP)], &blog(), 0).is_ok());
    let first = build_feed(&vec![post("p", "", MIN_FEED_TIMESTAMP)], &blog(), 0).unwrap();
    assert_eq!(first.pub_date, "Mon, 01 Jan 1900 00:00:00 +0000");
    let last = build_feed(&vec![post("p", "", MAX_FEED_TIMESTAMP)], &blog(), 0).unwrap();
    assert_eq!(last.pub_date, "Fri, 31 Dec 9999 23:59:59 +0000");
}

#[test]
fn record_out_of_range_is_a_render_error() {
    let too_old = vec![post("ok", "", 0), post("p", "", MIN_FEED_TIMESTAMP - 1)];
    assert_eq!(render(too_old, &blog(), 0), Err(FeedError::Render));
    let too_new = vec![post("p", "", MAX_FEED_TIMESTAMP + 1)];
    assert!(matches!(build_feed(&too_new, &blog(), 0), Err(FeedError::Render)));
    let extreme = vec![post("p", "", i64::MIN)];
    assert_eq!(render(extreme, &blog(), 0), Err(FeedError::Render));
}

#[test]
fn build_time_out_of_range_is_a_render_error() {
    assert_eq!(render(Vec::new(), &blog(), i64::MAX), Err(FeedError::Render));
    assert!(matches!(build_feed(&Vec::new(), &blog(), MIN_FEED_TIMESTAMP - 1), Err(FeedError::Render)));
}
