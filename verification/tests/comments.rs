use acc_linker_bot::comment::UserComment;
use acc_linker_bot::lor_ru::{
    comment_date, comment_of, comments_of, search_url, Anchor, Article, LorComment, TimeTag,
};
use acc_linker_bot::timestamp::Timestamp;
use acc_linker_bot::update::{MarkdownType, UpdateDesc};

fn user_comment() -> UserComment {
    UserComment::new(
        "alice".to_string(),
        "A post".to_string(),
        Timestamp::from_secs(1493631296),
        "Some words".to_string(),
    )
    .unwrap()
}

fn article(stated: Option<&str>) -> Article {
    Article {
        post: Some(Anchor {
            href: Some("forum/talks/1/".to_string()),
            text: "A post".to_string(),
        }),
        author: Some(Anchor {
            href: Some("people/alice/profile".to_string()),
            text: "alice".to_string(),
        }),
        time: Some(TimeTag { datetime: stated.map(|s| s.to_string()) }),
        text: Some("Some words".to_string()),
    }
}

#[test]
fn a_comment_reads_as_date_post_author_and_text() {
    let comment = user_comment();
    let expected = "2017-05-01 09:34:56: A post added comment to post alice:\n\t'Some words'";
    assert_eq!(comment.as_string(), expected);
    assert_eq!(comment.as_markdown(MarkdownType::Matrix), expected);
    assert_eq!(comment.as_markdown(MarkdownType::Telegram), expected);
    assert_eq!(comment.as_html(), expected);
    assert_eq!(comment.timestamp(), Timestamp::from_secs(1493631296));
    assert_eq!(comment.user_name(), "alice");
    assert_eq!(comment.post_title(), "A post");
    assert_eq!(comment.date_text(), "2017-05-01 09:34:56");
    assert_eq!(comment.comment_text(), "Some words");
}

#[test]
fn a_date_shows_the_fraction_of_its_second() {
    let comment = UserComment::new(
        "alice".to_string(),
        "A post".to_string(),
        Timestamp::new(1493631296, 500_000_000),
        "x".to_string(),
    )
    .unwrap();
    assert_eq!(comment.date_text(), "2017-05-01 09:34:56.500");
    let before = UserComment::new(
        "alice".to_string(),
        "A post".to_string(),
        Timestamp::from_secs(-1),
        "x".to_string(),
    )
    .unwrap();
    assert_eq!(before.date_text(), "1969-12-31 23:59:59");
}

#[test]
fn a_time_outside_the_calendar_gives_no_comment() {
    let far = UserComment::new(
        "alice".to_string(),
        "A post".to_string(),
        Timestamp::from_secs(i64::MAX),
        "x".to_string(),
    );
    assert!(far.is_none());
    let odd = UserComment::new(
        "alice".to_string(),
        "A post".to_string(),
        Timestamp::new(0, 2_000_000_000),
        "x".to_string(),
    );
    assert!(odd.is_none());
}

#[test]
fn a_forum_comment_links_author_and_post() {
    let comment = LorComment::new(
        user_comment(),
        "https://www.linux.org.ru/forum/talks/1/".to_string(),
        "https://www.linux.org.ru/people/alice/profile".to_string(),
    );
    assert_eq!(
        comment.as_string(),
        "2017-05-01 09:34:56: A post added comment to post alice:\n\t'Some words'"
    );
    let markdown = "2017-05-01 09:34:56: [alice](https://www.linux.org.ru/people/alice/profile) added comment to post [A post](https://www.linux.org.ru/forum/talks/1/):\n\tSome words";
    assert_eq!(comment.as_markdown(MarkdownType::Matrix), markdown);
    assert_eq!(comment.as_markdown(MarkdownType::GitHub), markdown);
    assert_eq!(comment.as_markdown(MarkdownType::Telegram), comment.as_string());
    assert_eq!(
        comment.as_html(),
        "2017-05-01 09:34:56: <a href='https://www.linux.org.ru/people/alice/profile'>alice</a> added comment to post <a href='https://www.linux.org.ru/forum/talks/1/'>A post</a>:<br/>Some words"
    );
    assert_eq!(comment.timestamp(), Timestamp::from_secs(1493631296));
}

#[test]
fn the_search_address_names_the_user() {
    assert_eq!(
        search_url("alice"),
        "https://www.linux.org.ru/search.jsp?range=COMMENTS&sort=DATE&user=alice"
    );
}

#[test]
fn a_stated_date_is_read_with_its_offset() {
    let now = Timestamp::from_secs(5);
    let stated = TimeTag { datetime: Some("2017-05-01T12:34:56+03:00".to_string()) };
    assert_eq!(comment_date(&stated, now), Timestamp::from_secs(1493631296));
    let fine = TimeTag { datetime: Some("2017-05-01T09:34:56.250Z".to_string()) };
    assert_eq!(comment_date(&fine, now), Timestamp::new(1493631296, 250_000_000));
}

#[test]
fn a_date_that_is_missing_or_unreadable_becomes_now() {
    let now = Timestamp::from_secs(1500000000);
    assert_eq!(comment_date(&TimeTag { datetime: None }, now), now);
    assert_eq!(comment_date(&TimeTag { datetime: Some("yesterday".to_string()) }, now), now);
    assert_eq!(comment_date(&TimeTag { datetime: Some("".to_string()) }, now), now);
    assert_eq!(
        comment_date(&TimeTag { datetime: Some("2017-05-01 12:34:56".to_string()) }, now),
        now
    );
}

#[test]
fn an_entry_gives_a_comment_with_full_addresses() {
    let now = Timestamp::from_secs(5);
    let comment = comment_of(article(Some("2017-05-01T12:34:56+03:00")), now).unwrap();
    assert_eq!(comment.timestamp(), Timestamp::from_secs(1493631296));
    assert_eq!(
        comment.as_html(),
        "2017-05-01 09:34:56: <a href='https://www.linux.org.ru/people/alice/profile'>alice</a> added comment to post <a href='https://www.linux.org.ru/forum/talks/1/'>A post</a>:<br/>Some words"
    );
}

#[test]
fn a_link_that_leads_nowhere_points_at_the_forum() {
    let mut entry = article(None);
    entry.post = Some(Anchor { href: None, text: "A post".to_string() });
    let comment = comment_of(entry, Timestamp::from_secs(100)).unwrap();
    assert_eq!(comment.timestamp(), Timestamp::from_secs(100));
    assert_eq!(
        comment.as_markdown(MarkdownType::Matrix),
        "1970-01-01 00:01:40: [alice](https://www.linux.org.ru/people/alice/profile) added comment to post [A post](https://www.linux.org.ru/):\n\tSome words"
    );
}

#[test]
fn an_entry_that_misses_a_part_gives_no_comment() {
    let now = Timestamp::from_secs(5);
    let mut entry = article(None);
    entry.post = None;
    assert!(comment_of(entry, now).is_none());
    let mut entry = article(None);
    entry.author = None;
    assert!(comment_of(entry, now).is_none());
    let mut entry = article(None);
    entry.time = None;
    assert!(comment_of(entry, now).is_none());
    let mut entry = article(None);
    entry.text = None;
    assert!(comment_of(entry, now).is_none());
    assert!(comment_of(article(None), Timestamp::from_secs(i64::MIN)).is_none());
}

#[test]
fn the_comments_of_a_page_keep_their_order() {
    let now = Timestamp::from_secs(5);
    let mut broken = article(None);
    broken.text = None;
    let entries = vec![
        article(Some("2017-05-01T12:34:56+03:00")),
        broken,
        article(None),
        article(Some("2017-05-02T12:34:56+03:00")),
    ];
    let comments = comments_of(entries, now);
    let times: Vec<i64> = comments.iter().map(|c| c.timestamp().secs).collect();
    assert_eq!(times, vec![1493631296, 5, 1493717696]);
    assert!(comments_of(Vec::new(), now).is_empty());
}
