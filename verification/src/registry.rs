//! The links that are alive, in the order in which they were added.

use vstd::prelude::*;
use crate::error::CoreError;
use crate::link::{NewUserInfo, UserInfo};
use crate::update::UpdateDesc;

verus! {

/// Which links a removal is aimed at.
pub enum LinkMatch<'a> {
    /// The links that are the same link as this one.
    Same(&'a UserInfo),
    /// Every link of one user of one chat platform.
    OfUser { upstream_type: &'a String, user_id: &'a String },
}

impl<'a> LinkMatch<'a> {
    /// Whether the removal is aimed at `link`.
    pub open spec fn covers(self, link: UserInfo) -> bool {
        match self {
            LinkMatch::Same(candidate) => link.same_link(*candidate),
            LinkMatch::OfUser { upstream_type, user_id } => link.user_id@ == user_id@
                && link.upstream_type@ == upstream_type@,
        }
    }

    /// Whether the removal is aimed at `link`.
    pub fn is_aimed_at(&self, link: &UserInfo) -> (hit: bool)
        ensures
            hit == self.covers(*link),
    {
        match self {
            LinkMatch::Same(candidate) => link.is_same_link(candidate),
            LinkMatch::OfUser { upstream_type, user_id } => link.user_id == **user_id
                && link.upstream_type == **upstream_type,
        }
    }
}

/// Whether one of `links` is the same link as `candidate`.
pub open spec fn holds_link(links: Seq<UserInfo>, candidate: UserInfo) -> bool {
    exists|i: int| 0 <= i < links.len() && (#[trigger] links[i]).same_link(candidate)
}

/// The first of `links` that is the same link as `candidate`.
pub open spec fn duplicate_of(links: Seq<UserInfo>, candidate: UserInfo) -> Option<UserInfo>
    decreases links.len(),
{
    if links.len() == 0 {
        None
    } else if links[0].same_link(candidate) {
        Some(links[0])
    } else {
        duplicate_of(links.drop_first(), candidate)
    }
}

/// Whether no two of `links` are the same link.
pub open spec fn distinct(links: Seq<UserInfo>) -> bool {
    forall|i: int, j: int|
        0 <= i < j < links.len() ==> !(#[trigger] links[i]).same_link(#[trigger] links[j])
}

/// Those of `links` that a removal is aimed at, in their order.
pub open spec fn aimed_at(links: Seq<UserInfo>, which: LinkMatch) -> Seq<UserInfo> {
    links.filter(|l: UserInfo| which.covers(l))
}

/// Those of `links` that a removal leaves, in their order.
pub open spec fn spared(links: Seq<UserInfo>, which: LinkMatch) -> Seq<UserInfo> {
    links.filter(|l: UserInfo| !which.covers(l))
}

/// The search for a duplicate finds a link exactly where the registry holds
/// one that is the same link as the candidate, and what it finds is such a
/// link of the registry.
pub proof fn lemma_duplicate_of(links: Seq<UserInfo>, candidate: UserInfo)
    ensures
        duplicate_of(links, candidate) is Some <==> holds_link(links, candidate),
        duplicate_of(links, candidate) matches Some(found) ==> found.same_link(candidate)
            && links.contains(found),
    decreases links.len(),
{
    if links.len() == 0 {
    } else if links[0].same_link(candidate) {
        assert(links.contains(links[0]));
    } else {
        let rest = links.drop_first();
        lemma_duplicate_of(rest, candidate);
        if holds_link(rest, candidate) {
            let i = choose|i: int| 0 <= i < rest.len() && (#[trigger] rest[i]).same_link(candidate);
            assert(links[i + 1] == rest[i]);
        }
        if holds_link(links, candidate) {
            let i = choose|i: int|
                0 <= i < links.len() && (#[trigger] links[i]).same_link(candidate);
            assert(rest[i - 1] == links[i]);
        }
        if let Some(found) = duplicate_of(rest, candidate) {
            let k = choose|k: int| 0 <= k < rest.len() && rest[k] == found;
            assert(links[k + 1] == found);
        }
    }
}

/// A candidate is found as a duplicate of a registered link whenever the two
/// agree in chat platform, chat, user, source and linked user, whatever their
/// numbers, marks and verified flags are.
pub proof fn lemma_dedup(links: Seq<UserInfo>, registered: UserInfo, candidate: UserInfo)
    requires
        links.contains(registered),
        registered.upstream_type@ == candidate.upstream_type@,
        registered.chat_id@ == candidate.chat_id@,
        registered.user_id@ == candidate.user_id@,
        registered.adapter == candidate.adapter,
        registered.linked_user_id@ == candidate.linked_user_id@,
    ensures
        duplicate_of(links, candidate) is Some,
        duplicate_of(links, candidate).unwrap().same_link(candidate),
{
    let i = choose|i: int| 0 <= i < links.len() && links[i] == registered;
    assert(links[i].same_link(candidate));
    lemma_duplicate_of(links, candidate);
}

/// A removal aimed at one link leaves every registered link that is another
/// link, and leaves none that is the same link.
pub proof fn lemma_unlink_spares_others(links: Seq<UserInfo>, candidate: UserInfo, other: UserInfo)
    requires
        links.contains(other),
    ensures
        spared(links, LinkMatch::Same(&candidate)).contains(other) <==> !other.same_link(
            candidate,
        ),
{
    let which = LinkMatch::Same(&candidate);
    let keep = |l: UserInfo| !which.covers(l);
    let i = choose|i: int| 0 <= i < links.len() && links[i] == other;
    if !other.same_link(candidate) {
        links.lemma_filter_contains(keep, i);
    }
    if spared(links, which).contains(other) {
        let k = choose|k: int| 0 <= k < links.filter(keep).len() && links.filter(keep)[k] == other;
        links.lemma_filter_pred(keep, k);
    }
}

/// Among links that are all different links, a removal aimed at one link
/// takes out exactly one where the link is registered, and none where it is
/// not.
pub proof fn lemma_unlink_removes_one(links: Seq<UserInfo>, candidate: UserInfo)
    requires
        distinct(links),
    ensures
        aimed_at(links, LinkMatch::Same(&candidate)).len() == if holds_link(links, candidate) {
            1nat
        } else {
            0nat
        },
    decreases links.len(),
{
    let which = LinkMatch::Same(&candidate);
    let hit = |l: UserInfo| which.covers(l);
    reveal(Seq::filter);
    if links.len() > 0 {
        let front = links.drop_last();
        let last = links.last();
        assert forall|i: int, j: int| 0 <= i < j < front.len() implies !(#[trigger] front[i]).same_link(
            #[trigger] front[j],
        ) by {
            assert(front[i] == links[i] && front[j] == links[j]);
        }
        lemma_unlink_removes_one(front, candidate);
        if holds_link(front, candidate) {
            let i = choose|i: int| 0 <= i < front.len() && (#[trigger] front[i]).same_link(candidate);
            assert(links[i] == front[i]);
            assert(links[links.len() - 1] == last);
            assert(!last.same_link(candidate));
        }
        if hit(last) {
            assert(links[links.len() - 1].same_link(candidate));
        } else if holds_link(links, candidate) {
            let i = choose|i: int| 0 <= i < links.len() && (#[trigger] links[i]).same_link(candidate);
            assert(front[i] == links[i]);
        }
    }
}

/// What a removal leaves of links that are all different links are again
/// all different links.
pub proof fn lemma_spared_distinct(links: Seq<UserInfo>, which: LinkMatch)
    requires
        distinct(links),
    ensures
        distinct(spared(links, which)),
    decreases links.len(),
{
    let keep = |l: UserInfo| !which.covers(l);
    reveal(Seq::filter);
    if links.len() > 0 {
        let front = links.drop_last();
        let last = links.last();
        assert forall|i: int, j: int| 0 <= i < j < front.len() implies !(#[trigger] front[i]).same_link(
            #[trigger] front[j],
        ) by {
            assert(front[i] == links[i] && front[j] == links[j]);
        }
        lemma_spared_distinct(front, which);
        let kept = front.filter(keep);
        if keep(last) {
            assert(links.filter(keep) == kept.push(last));
            assert forall|i: int, j: int| 0 <= i < j < kept.push(last).len() implies !(
            #[trigger] kept.push(last)[i]).same_link(#[trigger] kept.push(last)[j]) by {
                if j == kept.len() {
                    assert(kept.contains(kept[i]));
                    front.lemma_filter_contains_rev(keep, kept[i]);
                    let k = choose|k: int| 0 <= k < front.len() && front[k] == kept[i];
                    assert(links[k] == kept[i]);
                    assert(links[links.len() - 1] == last);
                }
            }
        }
    }
}

/// A link added to links that are all different links, none of them the
/// same link as the new one, leaves them all different.
pub proof fn lemma_push_distinct(links: Seq<UserInfo>, link: UserInfo)
    requires
        distinct(links),
        !holds_link(links, link),
    ensures
        distinct(links.push(link)),
{
    assert forall|i: int, j: int| 0 <= i < j < links.push(link).len() implies !(
    #[trigger] links.push(link)[i]).same_link(#[trigger] links.push(link)[j]) by {
        if j == links.len() {
            assert(links[i].same_link(link) ==> holds_link(links, link));
        }
    }
}

/// The link after a poll with the given outcome of the fetch.
pub open spec fn link_after<U: UpdateDesc>(
    link: UserInfo,
    fetched: Result<Vec<U>, CoreError>,
) -> UserInfo {
    match fetched {
        Ok(items) => link.after_poll(items@),
        Err(_) => link,
    }
}

/// What a poll with the given outcome of the fetch reports as new.
pub open spec fn content_after<U: UpdateDesc>(
    link: UserInfo,
    fetched: Result<Vec<U>, CoreError>,
) -> Seq<U> {
    match fetched {
        Ok(items) => link.new_updates(items@),
        Err(_) => Seq::empty(),
    }
}

/// Whether `cycle` is what a poll of `link` with the given outcome of the
/// fetch owes to the outside world.
pub open spec fn owed<U: UpdateDesc>(
    link: UserInfo,
    fetched: Result<Vec<U>, CoreError>,
    cycle: LinkCycle<U>,
) -> bool {
    let after = link_after(link, fetched);
    &&& cycle.report_added == (!link.verified && after.verified)
    &&& cycle.store == if cycle.report_added || after.unstored() {
        Some(after.row())
    } else {
        None
    }
    &&& cycle.to_push@ == if after.verified {
        content_after(link, fetched)
    } else {
        Seq::empty()
    }
}

/// A link that is not verified after a poll has none of its content posted,
/// whatever the poll fetched.
pub proof fn lemma_unverified_stays_silent<U: UpdateDesc>(
    link: UserInfo,
    fetched: Result<Vec<U>, CoreError>,
    cycle: LinkCycle<U>,
)
    requires
        owed(link, fetched, cycle),
        !link_after(link, fetched).verified,
    ensures
        cycle.to_push@ == Seq::<U>::empty(),
        !cycle.report_added,
        cycle.store is None,
{
}

/// What one poll of a link asks of the outside world, in this order: store
/// the row, tell the user that the link was created, post the new content.
pub struct LinkCycle<U> {
    /// The row to store: that of a link that this poll verified, or that is
    /// verified and not stored yet.
    pub store: Option<NewUserInfo>,
    /// Whether this poll verified the link.
    pub report_added: bool,
    /// The new content to post to the link's chat; none for a link that is
    /// not verified.
    pub to_push: Vec<U>,
}

/// The live links.
#[derive(Debug)]
pub struct LinkRegistry {
    links: Vec<UserInfo>,
}

impl View for LinkRegistry {
    type V = Seq<UserInfo>;

    closed spec fn view(&self) -> Seq<UserInfo> {
        self.links@
    }
}

impl LinkRegistry {
    /// A registry without links.
    pub fn new() -> (registry: LinkRegistry)
        ensures
            registry@ == Seq::<UserInfo>::empty(),
    {
        LinkRegistry { links: Vec::new() }
    }

    /// The number of links.
    pub fn len(&self) -> (n: usize)
        ensures
            n == self@.len(),
    {
        self.links.len()
    }

    /// The link at `index`, or nothing past the end.
    pub fn get(&self, index: usize) -> (link: Option<&UserInfo>)
        ensures
            index < self@.len() ==> link == Some(&self@[index as int]),
            index >= self@.len() ==> link is None,
    {
        if index < self.links.len() {
            Some(&self.links[index])
        } else {
            None
        }
    }

    /// The first link that is the same link as `candidate`, if there is one.
    pub fn find_duplicate(&self, candidate: &UserInfo) -> (found: Option<&UserInfo>)
        ensures
            match found {
                Some(link) => duplicate_of(self@, *candidate) == Some(*link),
                None => duplicate_of(self@, *candidate) is None,
            },
    {
        let mut i: usize = 0;
        assert(self.links@.skip(0) =~= self.links@);
        while i < self.links.len()
            invariant
                i <= self.links.len(),
                duplicate_of(self.links@, *candidate) == duplicate_of(
                    self.links@.skip(i as int),
                    *candidate,
                ),
            decreases self.links.len() - i,
        {
            assert(self.links@.skip(i as int)[0] == self.links@[i as int]);
            if self.links[i].is_same_link(candidate) {
                return Some(&self.links[i]);
            }
            assert(self.links@.skip(i as int).drop_first() =~= self.links@.skip(i + 1));
            i += 1;
        }
        None
    }

    /// Adds a link at the end.
    pub fn add(&mut self, link: UserInfo)
        ensures
            final(self)@ == old(self)@.push(link),
    {
        self.links.push(link);
    }

    /// Removes the links that `which` is aimed at and returns them.
    pub fn remove(&mut self, which: LinkMatch) -> (removed: Vec<UserInfo>)
        ensures
            final(self)@ == spared(old(self)@, which),
            removed@ == aimed_at(old(self)@, which),
    {
        let ghost before = self.links@;
        let mut all: Vec<UserInfo> = Vec::new();
        core::mem::swap(&mut all, &mut self.links);
        let mut removed: Vec<UserInfo> = Vec::new();
        proof {
            reveal(Seq::filter);
            assert(before.take(0) =~= Seq::<UserInfo>::empty());
        }
        for link in it: all
            invariant
                it.seq() == before,
                self.links@ == spared(before.take(it.index()), which),
                removed@ == aimed_at(before.take(it.index()), which),
        {
            proof {
                let n = it.index();
                assert(before.take(n + 1) =~= before.take(n).push(link));
                before.take(n).lemma_filter_push(link, |l: UserInfo| which.covers(l));
                before.take(n).lemma_filter_push(link, |l: UserInfo| !which.covers(l));
            }
            if which.is_aimed_at(&link) {
                removed.push(link);
            } else {
                self.links.push(link);
            }
        }
        assert(before.take(before.len() as int) =~= before);
        removed
    }

    /// Takes in what one poll fetched for the link at `index`, and says what
    /// is owed to the outside world; past the end there is no link, nothing
    /// changes and nothing is owed. Only the polled link changes, as `poll`
    /// says. The row is handed out when the poll verified the link, and as
    /// long as the link is verified and not stored; new content is handed out
    /// only for a verified link.
    pub fn poll_link<U: UpdateDesc>(
        &mut self,
        index: usize,
        fetched: Result<Vec<U>, CoreError>,
    ) -> (cycle: Option<LinkCycle<U>>)
        ensures
            index >= old(self)@.len() ==> cycle is None && final(self)@ == old(self)@,
            index < old(self)@.len() ==> cycle is Some && final(self)@ == old(self)@.update(
                index as int,
                link_after(old(self)@[index as int], fetched),
            ) && owed(old(self)@[index as int], fetched, cycle->0),
    {
        if index >= self.links.len() {
            return None;
        }
        let mut link = self.links.remove(index);
        let (new_updates, report_added) = link.poll(fetched);
        let store = if report_added || link.awaits_storing() {
            Some(link.to_row())
        } else {
            None
        };
        let to_push = if link.verified {
            new_updates
        } else {
            Vec::new()
        };
        self.links.insert(index, link);
        assert(self.links@ =~= old(self)@.update(
            index as int,
            link_after(old(self)@[index as int], fetched),
        ));
        Some(LinkCycle { store, report_added, to_push })
    }

    /// Records the number that the store gave to the row of the link at
    /// `index`. Nothing changes past the end.
    pub fn record_stored(&mut self, index: usize, id: i32)
        ensures
            index < old(self)@.len() ==> final(self)@ == old(self)@.update(
                index as int,
                (UserInfo { id, ..old(self)@[index as int] }),
            ),
            index >= old(self)@.len() ==> final(self)@ == old(self)@,
    {
        if index < self.links.len() {
            let mut link = self.links.remove(index);
            link.id = id;
            self.links.insert(index, link);
            assert(self.links@ =~= old(self)@.update(
                index as int,
                (UserInfo { id, ..old(self)@[index as int] }),
            ));
        }
    }
}

} // verus!
