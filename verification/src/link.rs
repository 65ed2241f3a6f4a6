//! A link between a chat identity and an identity at a content source, and
//! what one poll of the source does to it.

use vstd::prelude::*;
use crate::adapter::{adapter_named, Adapter};
use crate::error::CoreError;
use crate::text::{contains_phrase, occurs_in};
use crate::timestamp::Timestamp;
use crate::update::{
    latest, lemma_latest_is_newest, lemma_newer_than_empty, lemma_newer_than_push, mentions,
    newer_than, UpdateDesc,
};

verus! {

/// The phrase a user posts at the source to prove that the linked identity
/// is theirs.
pub const CHALLENGE: &'static str = "I love lor-bot!";

/// What makes two links the same link.
pub ghost struct LinkIdentity {
    pub upstream_type: Seq<char>,
    pub chat_id: Seq<char>,
    pub user_id: Seq<char>,
    pub adapter: Adapter,
    pub linked_user_id: Seq<char>,
}

/// What a link holds.
pub ghost struct LinkView {
    pub id: int,
    pub identity: LinkIdentity,
    pub last_update: Timestamp,
    pub verified: bool,
}

/// A link from a user in a chat to a user at a content source.
#[derive(Debug)]
pub struct UserInfo {
    /// The number of the stored row; zero while the link is not stored.
    pub id: i32,
    /// The chat platform.
    pub upstream_type: String,
    /// The chat that updates are posted to.
    pub chat_id: String,
    /// The user on the chat platform.
    pub user_id: String,
    /// The content source.
    pub adapter: Adapter,
    /// The user at the content source.
    pub linked_user_id: String,
    /// The time of the newest content seen so far; the start of 1970 for a
    /// link that was never polled.
    pub last_update: Timestamp,
    /// Whether the user has proved that the linked identity is theirs.
    pub verified: bool,
}

impl View for UserInfo {
    type V = LinkView;

    open spec fn view(&self) -> LinkView {
        LinkView {
            id: self.id as int,
            identity: self.identity(),
            last_update: self.last_update,
            verified: self.verified,
        }
    }
}

impl UserInfo {
    /// The five parts by which a link is told from another.
    pub open spec fn identity(self) -> LinkIdentity {
        LinkIdentity {
            upstream_type: self.upstream_type@,
            chat_id: self.chat_id@,
            user_id: self.user_id@,
            adapter: self.adapter,
            linked_user_id: self.linked_user_id@,
        }
    }

    /// Whether two values stand for the same link: `id`, `last_update` and
    /// `verified` do not count.
    pub open spec fn same_link(self, other: UserInfo) -> bool {
        self.identity() == other.identity()
    }

    /// The row that is stored for the link.
    pub open spec fn row(self) -> NewUserInfo {
        NewUserInfo {
            upstream_type: self.upstream_type,
            chat_id: self.chat_id,
            user_id: self.user_id,
            adapter: self.adapter,
            linked_user_id: self.linked_user_id,
            last_update: self.last_update,
        }
    }

    /// Whether the link is verified while no stored row has its number yet.
    pub open spec fn unstored(self) -> bool {
        self.verified && self.id == 0
    }

    /// The link after a poll that fetched `items`: the mark is the later of
    /// the old mark and the newest fetched time.
    pub open spec fn after_poll<U: UpdateDesc>(self, items: Seq<U>) -> UserInfo {
        if items.len() == 0 {
            self
        } else {
            UserInfo {
                verified: self.verified || mentions(items, CHALLENGE@),
                last_update: if latest(items).before(self.last_update) {
                    self.last_update
                } else {
                    latest(items)
                },
                ..self
            }
        }
    }

    /// What a poll that fetched `items` reports as new.
    pub open spec fn new_updates<U: UpdateDesc>(self, items: Seq<U>) -> Seq<U> {
        if items.len() == 0 || latest(items) == self.last_update || self.last_update
            == Timestamp::spec_epoch() {
            Seq::empty()
        } else {
            newer_than(items, self.last_update)
        }
    }
}

/// The mark never moves back, whatever a poll fetches; a poll whose newest
/// content is as old as the mark reports nothing new; and after a poll
/// nothing that was fetched is newer than the mark.
pub proof fn lemma_mark_never_falls<U: UpdateDesc>(link: UserInfo, items: Seq<U>)
    ensures
        link.last_update.at_or_before(link.after_poll(items).last_update),
        items.len() > 0 && latest(items) == link.last_update ==> link.new_updates(items)
            == Seq::<U>::empty(),
        forall|i: int|
            0 <= i < items.len() ==> (#[trigger] items[i].when()).at_or_before(
                link.after_poll(items).last_update,
            ),
{
    if items.len() > 0 {
        lemma_latest_is_newest(items);
    }
}

/// A verified link stays verified, whatever a poll fetches.
pub proof fn lemma_verified_stays<U: UpdateDesc>(link: UserInfo, items: Seq<U>)
    requires
        link.verified,
    ensures
        link.after_poll(items).verified,
{
}

/// A poll changes nothing of what makes a link the link it is, nor its
/// number.
pub proof fn lemma_poll_keeps_identity<U: UpdateDesc>(link: UserInfo, items: Seq<U>)
    ensures
        link.after_poll(items).same_link(link),
        link.after_poll(items).id == link.id,
{
}

/// Everything that a poll reports as new was fetched and appeared strictly
/// after the mark; and once the link has been polled before, everything
/// fetched that appeared strictly after the mark is reported.
pub proof fn lemma_new_updates_are_newer<U: UpdateDesc>(link: UserInfo, items: Seq<U>, item: U)
    ensures
        link.new_updates(items).contains(item) ==> items.contains(item) && item.when().after(
            link.last_update,
        ),
        link.last_update != Timestamp::spec_epoch() && items.contains(item) && item.when().after(
            link.last_update,
        ) ==> link.new_updates(items).contains(item),
{
    let newer = |u: U| u.when().after(link.last_update);
    if link.new_updates(items).contains(item) {
        let kept = items.filter(newer);
        let k = choose|k: int| 0 <= k < kept.len() && kept[k] == item;
        items.lemma_filter_pred(newer, k);
        items.lemma_filter_contains_rev(newer, item);
    }
    if link.last_update != Timestamp::spec_epoch() && items.contains(item) && item.when().after(
        link.last_update,
    ) {
        let i = choose|i: int| 0 <= i < items.len() && items[i] == item;
        items.lemma_filter_contains(newer, i);
        lemma_latest_is_newest(items);
    }
}

impl Clone for UserInfo {
    fn clone(&self) -> (copy: Self)
        ensures
            copy == *self,
    {
        UserInfo {
            id: self.id,
            upstream_type: self.upstream_type.clone(),
            chat_id: self.chat_id.clone(),
            user_id: self.user_id.clone(),
            adapter: self.adapter,
            linked_user_id: self.linked_user_id.clone(),
            last_update: self.last_update,
            verified: self.verified,
        }
    }
}

impl PartialEq for UserInfo {
    /// Two values are equal when they stand for the same link.
    fn eq(&self, rhs: &UserInfo) -> (same: bool) {
        self.chat_id == rhs.chat_id && self.user_id == rhs.user_id && self.linked_user_id
            == rhs.linked_user_id && self.upstream_type == rhs.upstream_type && self.adapter
            == rhs.adapter
    }
}

impl Eq for UserInfo {

}

impl vstd::std_specs::cmp::PartialEqSpecImpl for UserInfo {
    open spec fn obeys_eq_spec() -> bool {
        true
    }

    open spec fn eq_spec(&self, rhs: &UserInfo) -> bool {
        self.same_link(*rhs)
    }
}

/// The row that is stored for a verified link; the store assigns its number.
#[derive(Debug)]
pub struct NewUserInfo {
    pub upstream_type: String,
    pub chat_id: String,
    pub user_id: String,
    pub adapter: Adapter,
    pub linked_user_id: String,
    pub last_update: Timestamp,
}

/// The time of the newest of `items`.
fn newest<U: UpdateDesc>(items: &Vec<U>) -> (t: Timestamp)
    requires
        items.len() > 0,
    ensures
        t == latest(items@),
{
    let mut t = items[0].timestamp();
    assert(items@.take(1).len() == 1 && items@.take(1)[0] == items@[0]);
    let mut i: usize = 1;
    while i < items.len()
        invariant
            1 <= i <= items.len(),
            t == latest(items@.take(i as int)),
        decreases items.len() - i,
    {
        let w = items[i].timestamp();
        assert(items@.take(i + 1).drop_last() =~= items@.take(i as int));
        assert(items@.take(i + 1).last() == items@[i as int]);
        if t.is_before(&w) {
            t = w;
        }
        i += 1;
    }
    assert(items@.take(items.len() as int) =~= items@);
    t
}

/// Whether the text of one of `items` holds `phrase`.
fn any_mentions<U: UpdateDesc>(items: &Vec<U>, phrase: &str) -> (found: bool)
    ensures
        found == mentions(items@, phrase@),
{
    let mut i: usize = 0;
    while i < items.len()
        invariant
            i <= items.len(),
            forall|k: int| 0 <= k < i ==> !occurs_in(phrase@, #[trigger] items@[k].text()),
        decreases items.len() - i,
    {
        let body = items[i].as_string();
        if contains_phrase(body.as_str(), phrase) {
            return true;
        }
        i += 1;
    }
    false
}

/// Those of `items` that appeared strictly after `mark`, in their order.
fn keep_newer<U: UpdateDesc>(items: Vec<U>, mark: Timestamp) -> (kept: Vec<U>)
    ensures
        kept@ == newer_than(items@, mark),
{
    let ghost all = items@;
    let mut kept: Vec<U> = Vec::new();
    proof {
        lemma_newer_than_empty::<U>(mark);
        assert(all.take(0) =~= Seq::<U>::empty());
    }
    for u in it: items
        invariant
            it.seq() == all,
            kept@ == newer_than(all.take(it.index()), mark),
    {
        proof {
            let n = it.index();
            assert(all.take(n + 1) =~= all.take(n).push(u));
            lemma_newer_than_push(all.take(n), u, mark);
        }
        let w = u.timestamp();
        if w.is_after(&mark) {
            kept.push(u);
        }
    }
    assert(all.take(all.len() as int) =~= all);
    kept
}

impl UserInfo {
    /// A link as a command creates it: not stored, never polled, unverified.
    pub fn new(
        upstream_type: String,
        chat_id: String,
        user_id: String,
        adapter: Adapter,
        linked_user_id: String,
    ) -> (link: UserInfo)
        ensures
            link == (UserInfo {
                id: 0,
                upstream_type,
                chat_id,
                user_id,
                adapter,
                linked_user_id,
                last_update: Timestamp::spec_epoch(),
                verified: false,
            }),
    {
        UserInfo {
            id: 0,
            upstream_type,
            chat_id,
            user_id,
            adapter,
            linked_user_id,
            last_update: Timestamp::epoch(),
            verified: false,
        }
    }

    /// The link that a stored row holds: every stored link is verified. A
    /// row whose source no adapter is named after is an error.
    pub fn from_stored(
        id: i32,
        upstream_type: String,
        chat_id: String,
        user_id: String,
        adapter: &str,
        linked_user_id: String,
        last_update: Timestamp,
    ) -> (loaded: Result<UserInfo, CoreError>)
        ensures
            match loaded {
                Ok(link) => adapter_named(adapter@) is Some && link == (UserInfo {
                    id,
                    upstream_type,
                    chat_id,
                    user_id,
                    adapter: adapter_named(adapter@)->0,
                    linked_user_id,
                    last_update,
                    verified: true,
                }),
                Err(error) => adapter_named(adapter@) is None && error is CustomError
                    && error.message() == "No such adapter!"@,
            },
    {
        match Adapter::from_str(adapter) {
            Ok(adapter) => Ok(
                UserInfo {
                    id,
                    upstream_type,
                    chat_id,
                    user_id,
                    adapter,
                    linked_user_id,
                    last_update,
                    verified: true,
                },
            ),
            Err(error) => Err(error),
        }
    }

    /// Whether a stored row has the link's number.
    pub fn is_stored(&self) -> (stored: bool)
        ensures
            stored == (self.id != 0),
    {
        self.id != 0
    }

    /// Whether two values stand for the same link.
    pub fn is_same_link(&self, other: &UserInfo) -> (same: bool)
        ensures
            same == self.same_link(*other),
    {
        self == other
    }

    /// The row to store for this link.
    pub fn to_row(&self) -> (row: NewUserInfo)
        ensures
            row == self.row(),
    {
        NewUserInfo {
            upstream_type: self.upstream_type.clone(),
            chat_id: self.chat_id.clone(),
            user_id: self.user_id.clone(),
            adapter: self.adapter,
            linked_user_id: self.linked_user_id.clone(),
            last_update: self.last_update,
        }
    }

    /// Whether the link is verified and its row is still to be stored.
    pub fn awaits_storing(&self) -> (waiting: bool)
        ensures
            waiting == self.unstored(),
    {
        self.verified && self.id == 0
    }

    /// Takes in what one poll of the source fetched. A poll that failed or
    /// fetched nothing changes nothing and reports nothing. Otherwise an
    /// unverified link becomes verified if any fetched text holds the
    /// challenge phrase, and the mark moves to the newest fetched time,
    /// unless that lies before the mark: the mark never moves back. New
    /// content is what appeared strictly after the old mark; the first poll
    /// that fetches anything reports none of it. Returns the new content and
    /// whether this poll verified the link.
    pub fn poll<U: UpdateDesc>(&mut self, fetched: Result<Vec<U>, CoreError>) -> (outcome: (
        Vec<U>,
        bool,
    ))
        ensures
            match fetched {
                Ok(items) => {
                    &&& *final(self) == old(self).after_poll(items@)
                    &&& outcome.0@ == old(self).new_updates(items@)
                    &&& outcome.1 == (!old(self).verified && final(self).verified)
                },
                Err(_) => {
                    &&& *final(self) == *old(self)
                    &&& outcome.0@ == Seq::<U>::empty()
                    &&& !outcome.1
                },
            },
    {
        let updates = match fetched {
            Err(_) => {
                return (Vec::new(), false);
            },
            Ok(updates) => updates,
        };
        if updates.len() == 0 {
            return (Vec::new(), false);
        }
        let mut verified_now = false;
        if !self.verified {
            verified_now = any_mentions(&updates, CHALLENGE);
            self.verified = verified_now;
        }
        let current_latest_update = newest(&updates);
        if self.last_update == current_latest_update {
            return (Vec::new(), verified_now);
        }
        if self.last_update.is_epoch() {
            self.last_update = self.last_update.later(current_latest_update);
            return (Vec::new(), verified_now);
        }
        let new_updates = keep_newer(updates, self.last_update);
        self.last_update = self.last_update.later(current_latest_update);
        (new_updates, verified_now)
    }
}

} // verus!
