//! Comments at linux.org.ru: where a user's comments are searched, what a
//! search page's entries hold, and how a comment is shown.

use vstd::prelude::*;
use crate::calendar::{read, read_timestamp, written};
use crate::comment::{plain_text, UserComment, UserCommentView};
use crate::error::CoreError;
use crate::timestamp::Timestamp;
use crate::update::{MarkdownType, UpdateDesc};

verus! {

/// The address of the forum.
pub const LOR_URL: &'static str = "https://www.linux.org.ru/";

/// The element that holds one comment on the search page, and its class.
pub const ENTRY_TAG: &'static str = "article";

pub const ENTRY_CLASS: &'static str = "msg";

/// The link to the post stands in a heading of this kind.
pub const POST_HEADING_TAG: &'static str = "h2";

/// The element that links.
pub const LINK_TAG: &'static str = "a";

/// The attribute that says where a link leads.
pub const LINK_TARGET: &'static str = "href";

/// The attribute, and its value, that mark the link to the author.
pub const AUTHOR_MARK: &'static str = "itemprop";

pub const AUTHOR_MARK_VALUE: &'static str = "creator";

/// The element that holds the time of the comment, and the attribute that
/// states it.
pub const TIME_TAG: &'static str = "time";

pub const TIME_STATED: &'static str = "datetime";

/// The element that holds the comment's text, its class, and the element
/// of a paragraph in it.
pub const BODY_TAG: &'static str = "div";

pub const BODY_CLASS: &'static str = "msg_body";

pub const PARAGRAPH_TAG: &'static str = "p";

/// What a forum comment holds.
pub ghost struct LorCommentView {
    pub common: UserCommentView,
    pub post_link: Seq<char>,
    pub author_link: Seq<char>,
}

/// A comment at the forum, with the addresses of its post and its author.
#[derive(Debug)]
pub struct LorComment {
    common: UserComment,
    post_link: String,
    author_link: String,
}

/// A link on a page: where it leads, if it says so, and the words on it.
#[derive(Debug)]
pub struct Anchor {
    pub href: Option<String>,
    pub text: String,
}

/// The time mark of an entry: the date that it states, if it states one.
#[derive(Debug)]
pub struct TimeTag {
    pub datetime: Option<String>,
}

/// What the search page shows of one comment; each part may be missing.
#[derive(Debug)]
pub struct Article {
    /// The link to the post.
    pub post: Option<Anchor>,
    /// The link to the author.
    pub author: Option<Anchor>,
    /// When the comment was written.
    pub time: Option<TimeTag>,
    /// The first paragraph of the comment.
    pub text: Option<String>,
}

/// The text of a string that may be missing.
pub open spec fn text_if_any(s: Option<String>) -> Option<Seq<char>> {
    match s {
        Some(s) => Some(s@),
        None => None,
    }
}

/// What a link on a page holds.
pub ghost struct AnchorView {
    pub href: Option<Seq<char>>,
    pub text: Seq<char>,
}

/// What a time mark holds.
pub ghost struct TimeTagView {
    pub datetime: Option<Seq<char>>,
}

/// What the search page shows of one comment.
pub ghost struct ArticleView {
    pub post: Option<AnchorView>,
    pub author: Option<AnchorView>,
    pub time: Option<TimeTagView>,
    pub text: Option<Seq<char>>,
}

impl View for Anchor {
    type V = AnchorView;

    open spec fn view(&self) -> AnchorView {
        AnchorView { href: text_if_any(self.href), text: self.text@ }
    }
}

impl View for TimeTag {
    type V = TimeTagView;

    open spec fn view(&self) -> TimeTagView {
        TimeTagView { datetime: text_if_any(self.datetime) }
    }
}

impl View for Article {
    type V = ArticleView;

    open spec fn view(&self) -> ArticleView {
        ArticleView {
            post: match self.post {
                Some(post) => Some(post@),
                None => None,
            },
            author: match self.author {
                Some(author) => Some(author@),
                None => None,
            },
            time: match self.time {
                Some(time) => Some(time@),
                None => None,
            },
            text: text_if_any(self.text),
        }
    }
}

/// What a list of entries holds.
pub open spec fn article_views(articles: Seq<Article>) -> Seq<ArticleView> {
    articles.map_values(|a: Article| a@)
}

/// The address of the page that lists a user's comments, newest first.
pub open spec fn search_address(user_name: Seq<char>) -> Seq<char> {
    LOR_URL@ + "search.jsp?range=COMMENTS&sort=DATE&user="@ + user_name
}

/// Where a link leads; nowhere where it does not say.
pub open spec fn target_of(anchor: AnchorView) -> Seq<char> {
    match anchor.href {
        Some(href) => href,
        None => Seq::empty(),
    }
}

/// Whether a time mark states a date after RFC 3339.
pub open spec fn states_date(time: TimeTagView) -> bool {
    time.datetime matches Some(stated) && read(stated) is Some
}

/// When a comment was written: the date that its time mark states where
/// that is a date after RFC 3339, else `now`.
pub open spec fn date_of(time: TimeTagView, now: Timestamp) -> Timestamp {
    match time.datetime {
        Some(stated) => match read(stated) {
            Some(t) => t,
            None => now,
        },
        None => now,
    }
}

/// The comment that an entry shows, if it misses no part and the calendar
/// holds its date.
pub open spec fn comment_in(article: ArticleView, now: Timestamp) -> Option<LorCommentView> {
    if article.post is Some && article.author is Some && article.time is Some
        && article.text is Some && written(date_of(article.time->0, now)) is Some {
        Some(
            LorCommentView {
                common: UserCommentView {
                    user_name: article.author->0.text,
                    post_title: article.post->0.text,
                    comment_date: date_of(article.time->0, now),
                    date_text: written(date_of(article.time->0, now))->0,
                    comment_text: article.text->0,
                },
                post_link: LOR_URL@ + target_of(article.post->0),
                author_link: LOR_URL@ + target_of(article.author->0),
            },
        )
    } else {
        None
    }
}

/// The comments that a page's entries show, in their order.
pub open spec fn comments_in(articles: Seq<ArticleView>, now: Timestamp) -> Seq<LorCommentView>
    decreases articles.len(),
{
    if articles.len() == 0 {
        Seq::empty()
    } else {
        let before = comments_in(articles.drop_last(), now);
        match comment_in(articles.last(), now) {
            Some(c) => before.push(c),
            None => before,
        }
    }
}

/// Whether an entry misses no part.
pub open spec fn misses_nothing(article: ArticleView) -> bool {
    article.post is Some && article.author is Some && article.time is Some && article.text is Some
}

/// Whether an entry is sure to show a comment: it misses no part, and it
/// states its date or the calendar holds `now`.
pub open spec fn shows_comment(article: ArticleView, now: Timestamp) -> bool {
    misses_nothing(article) && (states_date(article.time->0) || written(now) is Some)
}

/// What the reading of the search page gives: the comments that its entries
/// show, or the failure of the reading.
pub open spec fn posts_in(fetched: Result<Vec<Article>, CoreError>, now: Timestamp) -> Result<
    Seq<LorCommentView>,
    CoreError,
> {
    match fetched {
        Ok(articles) => Ok(comments_in(article_views(articles@), now)),
        Err(error) => Err(error),
    }
}

/// What a list of comments holds.
pub open spec fn views(comments: Seq<LorComment>) -> Seq<LorCommentView> {
    comments.map_values(|c: LorComment| c@)
}

/// The comment with the author and the post as markdown links.
pub open spec fn markdown_text(c: LorCommentView) -> Seq<char> {
    c.common.date_text + ": ["@ + c.common.user_name + "]("@ + c.author_link
        + ") added comment to post ["@ + c.common.post_title + "]("@ + c.post_link + "):\n\t"@
        + c.common.comment_text
}

/// The comment with the author and the post as HTML links.
pub open spec fn html_text(c: LorCommentView) -> Seq<char> {
    c.common.date_text + ": <a href='"@ + c.author_link + "'>"@ + c.common.user_name
        + "</a> added comment to post <a href='"@ + c.post_link + "'>"@ + c.common.post_title
        + "</a>:<br/>"@ + c.common.comment_text
}

impl View for LorComment {
    type V = LorCommentView;

    closed spec fn view(&self) -> LorCommentView {
        LorCommentView {
            common: self.common@,
            post_link: self.post_link@,
            author_link: self.author_link@,
        }
    }
}

impl LorComment {
    /// A forum comment with the given addresses of its post and its author.
    pub fn new(common: UserComment, post_link: String, author_link: String) -> (comment: LorComment)
        ensures
            comment@ == (LorCommentView {
                common: common@,
                post_link: post_link@,
                author_link: author_link@,
            }),
    {
        LorComment { common, post_link, author_link }
    }
}

impl UpdateDesc for LorComment {
    open spec fn text(&self) -> Seq<char> {
        plain_text(self@.common)
    }

    open spec fn markdown(&self, md_type: MarkdownType) -> Seq<char> {
        match md_type {
            MarkdownType::Matrix | MarkdownType::GitHub => markdown_text(self@),
            MarkdownType::Telegram => plain_text(self@.common),
        }
    }

    open spec fn html(&self) -> Seq<char> {
        html_text(self@)
    }

    open spec fn when(&self) -> Timestamp {
        self@.common.comment_date
    }

    fn as_string(&self) -> (text: String) {
        self.common.as_string()
    }

    fn as_markdown(&self, md_type: MarkdownType) -> (text: String) {
        match md_type {
            MarkdownType::Matrix | MarkdownType::GitHub => {
                let mut text = self.common.date_text().clone();
                text.append(": [");
                text.append(self.common.user_name().as_str());
                text.append("](");
                text.append(self.author_link.as_str());
                text.append(") added comment to post [");
                text.append(self.common.post_title().as_str());
                text.append("](");
                text.append(self.post_link.as_str());
                text.append("):\n\t");
                text.append(self.common.comment_text().as_str());
                text
            },
            MarkdownType::Telegram => self.as_string(),
        }
    }

    fn as_html(&self) -> (text: String) {
        let mut text = self.common.date_text().clone();
        text.append(": <a href='");
        text.append(self.author_link.as_str());
        text.append("'>");
        text.append(self.common.user_name().as_str());
        text.append("</a> added comment to post <a href='");
        text.append(self.post_link.as_str());
        text.append("'>");
        text.append(self.common.post_title().as_str());
        text.append("</a>:<br/>");
        text.append(self.common.comment_text().as_str());
        text
    }

    fn timestamp(&self) -> (t: Timestamp) {
        self.common.timestamp()
    }
}

/// The address of the page that lists a user's comments, newest first.
pub fn search_url(user_name: &str) -> (url: String)
    ensures
        url@ == search_address(user_name@),
{
    let mut url = LOR_URL.to_owned();
    url.append("search.jsp?range=COMMENTS&sort=DATE&user=");
    url.append(user_name);
    url
}

/// The address that a link on the forum leads to.
fn forum_address(anchor: &Anchor) -> (url: String)
    ensures
        url@ == LOR_URL@ + target_of(anchor@),
{
    let mut url = LOR_URL.to_owned();
    match &anchor.href {
        Some(href) => {
            url.append(href.as_str());
        },
        None => {
            assert(url@ + Seq::<char>::empty() =~= url@);
        },
    }
    url
}

/// When a comment was written: the date that its time mark states where
/// that is a date after RFC 3339, else `now`.
pub fn comment_date(time: &TimeTag, now: Timestamp) -> (date: Timestamp)
    ensures
        date == date_of(time@, now),
        states_date(time@) ==> written(date) is Some,
{
    match &time.datetime {
        Some(stated) => match read_timestamp(stated.as_str()) {
            Some(t) => t,
            None => now,
        },
        None => now,
    }
}

/// The comment that an entry of the search page shows. An entry that misses
/// the link to its post, the link to its author, its time mark or its text
/// shows none. One that misses no part and states its date always shows
/// one; one that states no date shows one where the calendar holds `now`.
pub fn comment_of(article: Article, now: Timestamp) -> (comment: Option<LorComment>)
    ensures
        match comment {
            Some(c) => comment_in(article@, now) == Some(c@),
            None => comment_in(article@, now) is None,
        },
        shows_comment(article@, now) ==> comment is Some,
{
    let Article { post, author, time, text } = article;
    let post = match post {
        Some(post) => post,
        None => {
            return None;
        },
    };
    let author = match author {
        Some(author) => author,
        None => {
            return None;
        },
    };
    let time = match time {
        Some(time) => time,
        None => {
            return None;
        },
    };
    let text = match text {
        Some(text) => text,
        None => {
            return None;
        },
    };
    let date = comment_date(&time, now);
    let post_link = forum_address(&post);
    let author_link = forum_address(&author);
    match UserComment::new(author.text, post.text, date, text) {
        Some(common) => Some(LorComment::new(common, post_link, author_link)),
        None => None,
    }
}

/// The comments that the entries of a search page show, in their order.
/// `now` stands in for a date that an entry does not state. Every entry that
/// misses no part shows its comment, where it states its date or the
/// calendar holds `now`.
pub fn comments_of(articles: Vec<Article>, now: Timestamp) -> (comments: Vec<LorComment>)
    ensures
        views(comments@) == comments_in(article_views(articles@), now),
        forall|i: int|
            0 <= i < articles@.len() && shows_comment(#[trigger] articles@[i]@, now)
                ==> comment_in(articles@[i]@, now) is Some,
{
    let ghost all = article_views(articles@);
    let ghost given = articles@;
    let mut comments: Vec<LorComment> = Vec::new();
    assert(all.take(0) =~= Seq::<ArticleView>::empty());
    assert(views(comments@) =~= Seq::<LorCommentView>::empty());
    for article in it: articles
        invariant
            it.seq() == given,
            all == article_views(given),
            views(comments@) == comments_in(all.take(it.index()), now),
            forall|i: int|
                0 <= i < it.index() && shows_comment(#[trigger] given[i]@, now) ==> comment_in(
                    given[i]@,
                    now,
                ) is Some,
    {
        proof {
            let n = it.index();
            assert(all.take(n + 1).drop_last() =~= all.take(n));
            assert(all.take(n + 1).last() == article@);
        }
        let ghost before = views(comments@);
        match comment_of(article, now) {
            Some(comment) => {
                comments.push(comment);
                assert(views(comments@) =~= before.push(comment@));
            },
            None => {},
        }
    }
    assert(all.take(all.len() as int) =~= all);
    comments
}

/// The comments of a user, from what the reading of the search page gave:
/// the comments that its entries show, in their order, or the failure of
/// the reading. `now` stands in for a date that an entry does not state.
/// Every entry that misses no part shows its comment, where it states its
/// date or the calendar holds `now`.
pub fn get_user_posts(fetched: Result<Vec<Article>, CoreError>, now: Timestamp) -> (posts: Result<
    Vec<LorComment>,
    CoreError,
>)
    ensures
        match posts {
            Ok(comments) => posts_in(fetched, now) == Ok::<Seq<LorCommentView>, CoreError>(
                views(comments@),
            ),
            Err(error) => posts_in(fetched, now) == Err::<Seq<LorCommentView>, CoreError>(error),
        },
        fetched matches Ok(articles) ==> forall|i: int|
            0 <= i < articles@.len() && shows_comment(#[trigger] articles@[i]@, now)
                ==> comment_in(articles@[i]@, now) is Some,
{
    match fetched {
        Ok(articles) => Ok(comments_of(articles, now)),
        Err(error) => Err(error),
    }
}

} // verus!
