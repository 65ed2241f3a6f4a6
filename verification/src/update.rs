//! Content that a source reports, and how it is shown.

use vstd::prelude::*;
use crate::text::occurs_in;
use crate::timestamp::Timestamp;

verus! {

/// The markup dialects of the chat platforms.
#[derive(Debug, Clone, Copy, PartialEq, Eq, Structural)]
pub enum MarkdownType {
    GitHub,
    Matrix,
    Telegram,
}

/// One piece of content from a source: when it appeared, and how it reads
/// as plain text, as markdown and as HTML.
pub trait UpdateDesc {
    /// The plain text.
    spec fn text(&self) -> Seq<char>;

    /// The text in the given markdown dialect.
    spec fn markdown(&self, md_type: MarkdownType) -> Seq<char>;

    /// The text as HTML.
    spec fn html(&self) -> Seq<char>;

    /// When the content appeared.
    spec fn when(&self) -> Timestamp;

    fn as_string(&self) -> (text: String)
        ensures
            text@ == self.text(),
    ;

    fn as_markdown(&self, md_type: MarkdownType) -> (text: String)
        ensures
            text@ == self.markdown(md_type),
    ;

    fn as_html(&self) -> (text: String)
        ensures
            text@ == self.html(),
    ;

    fn timestamp(&self) -> (t: Timestamp)
        ensures
            t == self.when(),
    ;
}

/// The time of the newest of `items`; the start of 1970 where there is none.
pub open spec fn latest<U: UpdateDesc>(items: Seq<U>) -> Timestamp
    decreases items.len(),
{
    if items.len() == 0 {
        Timestamp::spec_epoch()
    } else if items.len() == 1 {
        items[0].when()
    } else {
        let before = latest(items.drop_last());
        if before.before(items.last().when()) {
            items.last().when()
        } else {
            before
        }
    }
}

/// Whether the text of at least one of `items` holds `phrase`.
pub open spec fn mentions<U: UpdateDesc>(items: Seq<U>, phrase: Seq<char>) -> bool {
    exists|i: int| 0 <= i < items.len() && occurs_in(phrase, #[trigger] items[i].text())
}

/// Those of `items` that appeared strictly after `mark`, in their order.
pub open spec fn newer_than<U: UpdateDesc>(items: Seq<U>, mark: Timestamp) -> Seq<U> {
    items.filter(|u: U| u.when().after(mark))
}

/// Nothing is newer than a mark where there is nothing.
pub proof fn lemma_newer_than_empty<U: UpdateDesc>(mark: Timestamp)
    ensures
        newer_than(Seq::<U>::empty(), mark) == Seq::<U>::empty(),
{
    reveal(Seq::filter);
}

/// One more item at the end is kept if and only if it appeared after the mark.
pub proof fn lemma_newer_than_push<U: UpdateDesc>(items: Seq<U>, item: U, mark: Timestamp)
    ensures
        newer_than(items.push(item), mark) == if item.when().after(mark) {
            newer_than(items, mark).push(item)
        } else {
            newer_than(items, mark)
        },
{
    items.lemma_filter_push(item, |u: U| u.when().after(mark));
}

/// `latest` is the time of one of the items, and none is newer.
pub proof fn lemma_latest_is_newest<U: UpdateDesc>(items: Seq<U>)
    requires
        items.len() > 0,
    ensures
        exists|i: int| 0 <= i < items.len() && #[trigger] items[i].when() == latest(items),
        forall|i: int| 0 <= i < items.len() ==> (#[trigger] items[i].when()).at_or_before(latest(items)),
    decreases items.len(),
{
    if items.len() == 1 {
        assert(items[0].when() == latest(items));
    } else {
        let front = items.drop_last();
        lemma_latest_is_newest(front);
        let w = choose|i: int| 0 <= i < front.len() && #[trigger] front[i].when() == latest(front);
        assert(front[w] == items[w]);
        if latest(front).before(items.last().when()) {
            assert(items[items.len() - 1].when() == latest(items));
        } else {
            assert(items[w].when() == latest(items));
        }
        assert forall|i: int| 0 <= i < items.len() implies (#[trigger] items[i].when()).at_or_before(
            latest(items),
        ) by {
            if i < front.len() {
                assert(front[i] == items[i]);
            }
        }
    }
}

} // verus!
