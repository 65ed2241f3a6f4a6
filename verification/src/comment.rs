//! A user's comment under a post: the plainest content a source can report.

use vstd::prelude::*;
use crate::calendar::{write_timestamp, written};
use crate::timestamp::Timestamp;
use crate::update::{MarkdownType, UpdateDesc};

verus! {

/// What a comment holds.
pub ghost struct UserCommentView {
    pub user_name: Seq<char>,
    pub post_title: Seq<char>,
    pub comment_date: Timestamp,
    /// The date as the calendar writes it.
    pub date_text: Seq<char>,
    pub comment_text: Seq<char>,
}

/// A comment that a user left under a post.
#[derive(Debug)]
pub struct UserComment {
    user_name: String,
    post_title: String,
    comment_date: Timestamp,
    date_text: String,
    comment_text: String,
}

/// The line that announces a comment, and the comment in quotes under it.
pub open spec fn plain_text(c: UserCommentView) -> Seq<char> {
    c.date_text + ": "@ + c.post_title + " added comment to post "@ + c.user_name + ":\n\t'"@
        + c.comment_text + "'"@
}

impl View for UserComment {
    type V = UserCommentView;

    closed spec fn view(&self) -> UserCommentView {
        UserCommentView {
            user_name: self.user_name@,
            post_title: self.post_title@,
            comment_date: self.comment_date,
            date_text: self.date_text@,
            comment_text: self.comment_text@,
        }
    }
}

impl UserComment {
    /// The date text is what the calendar writes for the date.
    #[verifier::type_invariant]
    spec fn date_is_written(self) -> bool {
        written(self.comment_date) == Some(self.date_text@)
    }

    /// A comment of the given author, post, time and text; nothing where
    /// the calendar does not hold the time.
    pub fn new(
        user_name: String,
        post_title: String,
        comment_date: Timestamp,
        comment_text: String,
    ) -> (comment: Option<UserComment>)
        ensures
            match comment {
                Some(c) => written(comment_date) == Some(c@.date_text) && c@ == (UserCommentView {
                    user_name: user_name@,
                    post_title: post_title@,
                    comment_date,
                    date_text: c@.date_text,
                    comment_text: comment_text@,
                }),
                None => written(comment_date) is None,
            },
    {
        match write_timestamp(comment_date) {
            Some(date_text) => Some(
                UserComment { user_name, post_title, comment_date, date_text, comment_text },
            ),
            None => None,
        }
    }

    /// The author's name.
    pub fn user_name(&self) -> (name: &String)
        ensures
            name@ == self@.user_name,
    {
        &self.user_name
    }

    /// The title of the post.
    pub fn post_title(&self) -> (title: &String)
        ensures
            title@ == self@.post_title,
    {
        &self.post_title
    }

    /// The date as the calendar writes it.
    pub fn date_text(&self) -> (date: &String)
        ensures
            date@ == self@.date_text,
            written(self@.comment_date) == Some(date@),
    {
        proof {
            use_type_invariant(self);
        }
        &self.date_text
    }

    /// The text of the comment.
    pub fn comment_text(&self) -> (text: &String)
        ensures
            text@ == self@.comment_text,
    {
        &self.comment_text
    }
}

impl UpdateDesc for UserComment {
    open spec fn text(&self) -> Seq<char> {
        plain_text(self@)
    }

    open spec fn markdown(&self, md_type: MarkdownType) -> Seq<char> {
        plain_text(self@)
    }

    open spec fn html(&self) -> Seq<char> {
        plain_text(self@)
    }

    open spec fn when(&self) -> Timestamp {
        self@.comment_date
    }

    fn as_string(&self) -> (text: String) {
        let mut text = self.date_text.clone();
        text.append(": ");
        text.append(self.post_title.as_str());
        text.append(" added comment to post ");
        text.append(self.user_name.as_str());
        text.append(":\n\t'");
        text.append(self.comment_text.as_str());
        text.append("'");
        text
    }

    fn as_markdown(&self, md_type: MarkdownType) -> (text: String) {
        self.as_string()
    }

    fn as_html(&self) -> (text: String) {
        self.as_string()
    }

    fn timestamp(&self) -> (t: Timestamp) {
        self.comment_date
    }
}

} // verus!
