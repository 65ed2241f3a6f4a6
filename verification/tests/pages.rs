use acc_linker_bot::error::CoreError;
use acc_linker_bot::lor_ru::{
    get_user_posts, Anchor, Article, TimeTag, AUTHOR_MARK, AUTHOR_MARK_VALUE, BODY_CLASS,
    BODY_TAG, ENTRY_CLASS, ENTRY_TAG, LINK_TAG, LINK_TARGET, PARAGRAPH_TAG, POST_HEADING_TAG,
    TIME_STATED, TIME_TAG,
};
use acc_linker_bot::timestamp::Timestamp;
use acc_linker_bot::update::UpdateDesc;
use select::document::Document;
use select::node::Node;
use select::predicate::{Attr, Class, Name, Predicate};

fn anchor(node: Node) -> Anchor {
    Anchor { href: node.attr(LINK_TARGET).map(str::to_owned), text: node.text() }
}

fn read_articles(page: &str) -> Vec<Article> {
    Document::from(page)
        .find(Name(ENTRY_TAG).and(Class(ENTRY_CLASS)))
        .map(|node| Article {
            post: node.find(Name(POST_HEADING_TAG).descendant(Name(LINK_TAG))).next().map(anchor),
            author: node
                .find(Name(LINK_TAG).and(Attr(AUTHOR_MARK, AUTHOR_MARK_VALUE)))
                .next()
                .map(anchor),
            time: node
                .find(Name(TIME_TAG))
                .next()
                .map(|time| TimeTag { datetime: time.attr(TIME_STATED).map(str::to_owned) }),
            text: node
                .find(Name(BODY_TAG).and(Class(BODY_CLASS)).descendant(Name(PARAGRAPH_TAG)))
                .next()
                .map(|text| text.text()),
        })
        .collect()
}

const PAGE: &str = r#"<!DOCTYPE html>
<html>
<head><title>Search</title></head>
<body>
<a href="elsewhere">not in an entry</a>
<article class="msg" id="comment-1">
  <h2><a href="forum/talks/1/?cid=2">Re: A post</a> <a href="second">second link</a></h2>
  <div class="sign">
    <a href="people/bob/profile">bob, not marked</a>
    <a itemprop="creator" href="people/alice/profile">alice</a>
    <time datetime="2017-05-01T12:34:56+03:00">01.05.17 12:34</time>
    <time datetime="2018-01-01T00:00:00Z">later</time>
  </div>
  <div class="other"><p>not the body</p></div>
  <div class="msg_body"><p>Some <b>bold</b> words</p><p>second paragraph</p></div>
</article>
<article class="news">
  <h2><a href="x">no entry</a></h2>
  <a itemprop="creator" href="y">nobody</a>
  <time datetime="2017-05-01T12:34:56+03:00">t</time>
  <div class="msg_body"><p>text</p></div>
</article>
<article class="big msg">
  <h2><a>Untitled</a></h2>
  <a itemprop="creator">carol</a>
  <time>some day</time>
  <div class="msg_body wide"><p>No addresses</p></div>
</article>
<article class="msg">
  <h2><a href="forum/talks/2/">Without a time</a></h2>
  <a itemprop="creator" href="people/dave/profile">dave</a>
  <div class="msg_body"><p>dropped</p></div>
</article>
<article class="msg">
  <h2>Heading without a link</h2>
  <a itemprop="creator" href="people/erin/profile">erin</a>
  <time datetime="2017-05-01T12:34:56+03:00">t</time>
  <div class="msg_body"><p>dropped too</p></div>
</article>
</body>
</html>"#;

#[test]
fn a_page_shows_the_parts_of_each_entry() {
    let articles = read_articles(PAGE);
    assert_eq!(articles.len(), 4);

    let first = &articles[0];
    let post = first.post.as_ref().unwrap();
    assert_eq!(post.href.as_deref(), Some("forum/talks/1/?cid=2"));
    assert_eq!(post.text, "Re: A post");
    let author = first.author.as_ref().unwrap();
    assert_eq!(author.href.as_deref(), Some("people/alice/profile"));
    assert_eq!(author.text, "alice");
    assert_eq!(
        first.time.as_ref().unwrap().datetime.as_deref(),
        Some("2017-05-01T12:34:56+03:00")
    );
    assert_eq!(first.text.as_deref(), Some("Some bold words"));

    let second = &articles[1];
    assert_eq!(second.post.as_ref().unwrap().href, None);
    assert_eq!(second.post.as_ref().unwrap().text, "Untitled");
    assert_eq!(second.author.as_ref().unwrap().href, None);
    assert_eq!(second.author.as_ref().unwrap().text, "carol");
    assert_eq!(second.time.as_ref().unwrap().datetime, None);
    assert_eq!(second.text.as_deref(), Some("No addresses"));

    let third = &articles[2];
    assert!(third.post.is_some());
    assert!(third.author.is_some());
    assert!(third.time.is_none());
    assert_eq!(third.text.as_deref(), Some("dropped"));

    let fourth = &articles[3];
    assert!(fourth.post.is_none());
    assert_eq!(fourth.author.as_ref().unwrap().text, "erin");
    assert!(fourth.time.is_some());
}

#[test]
fn a_page_without_entries_shows_nothing() {
    assert!(read_articles("").is_empty());
    assert!(read_articles("<html><body><p>Nothing found</p></body></html>").is_empty());
    assert!(read_articles("no markup at all").is_empty());
    assert!(read_articles("<article><h2><a href='x'>no class</a></h2></article>").is_empty());
}

#[test]
fn the_comments_of_a_user_are_those_the_page_shows() {
    let now = Timestamp::from_secs(1500000000);
    let comments = get_user_posts(Ok(read_articles(PAGE)), now).unwrap();
    assert_eq!(comments.len(), 2);
    assert_eq!(comments[0].timestamp(), Timestamp::from_secs(1493631296));
    assert_eq!(
        comments[0].as_html(),
        "2017-05-01 09:34:56: <a href='https://www.linux.org.ru/people/alice/profile'>alice</a> added comment to post <a href='https://www.linux.org.ru/forum/talks/1/?cid=2'>Re: A post</a>:<br/>Some bold words"
    );
    assert_eq!(
        comments[0].as_string(),
        "2017-05-01 09:34:56: Re: A post added comment to post alice:\n\t'Some bold words'"
    );
    assert_eq!(comments[1].timestamp(), now);
    assert_eq!(
        comments[1].as_html(),
        "2017-07-14 02:40:00: <a href='https://www.linux.org.ru/'>carol</a> added comment to post <a href='https://www.linux.org.ru/'>Untitled</a>:<br/>No addresses"
    );
}

#[test]
fn a_failed_fetch_gives_its_failure() {
    let failed = get_user_posts(
        Err(CoreError::HttpError("connection reset".to_string())),
        Timestamp::from_secs(5),
    );
    match failed {
        Err(CoreError::HttpError(message)) => assert_eq!(message, "connection reset"),
        other => panic!("unexpected result {:?}", other),
    }
    let unread = get_user_posts(
        Err(CoreError::ConvertError("stream did not contain valid UTF-8".to_string())),
        Timestamp::from_secs(5),
    );
    match unread {
        Err(CoreError::ConvertError(message)) => {
            assert_eq!(message, "stream did not contain valid UTF-8")
        }
        other => panic!("unexpected result {:?}", other),
    }
}

#[test]
fn an_empty_page_gives_no_comments() {
    assert!(get_user_posts(Ok(read_articles("")), Timestamp::from_secs(5)).unwrap().is_empty());
}

#[test]
fn every_complete_entry_shows_its_comment() {
    let entry = |stated: Option<&str>| Article {
        post: Some(Anchor { href: None, text: "A post".to_string() }),
        author: Some(Anchor { href: None, text: "alice".to_string() }),
        time: Some(TimeTag { datetime: stated.map(|s| s.to_string()) }),
        text: Some("words".to_string()),
    };
    let entries = vec![
        entry(Some("2017-05-01T12:34:56+03:00")),
        entry(Some("9999-12-31T23:59:59Z")),
        entry(Some("0000-01-01T00:00:00Z")),
        entry(Some("2016-12-31T23:59:60Z")),
        entry(Some("not a date")),
        entry(None),
    ];
    let now = Timestamp::from_secs(77);
    let comments = get_user_posts(Ok(entries), now).unwrap();
    assert_eq!(comments.len(), 6);
    assert_eq!(comments[3].timestamp(), Timestamp::new(1483228799, 1_000_000_000));
    assert_eq!(comments[4].timestamp(), now);
    assert_eq!(comments[5].timestamp(), now);

    let beyond = Timestamp::from_secs(i64::MAX);
    let stated_only = get_user_posts(
        Ok(vec![entry(Some("2017-05-01T12:34:56+03:00")), entry(None)]),
        beyond,
    )
    .unwrap();
    assert_eq!(stated_only.len(), 1);
    assert_eq!(stated_only[0].timestamp(), Timestamp::from_secs(1493631296));
}
