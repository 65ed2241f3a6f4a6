//! How the commands that arrive from a chat change the set of links, and
//! what is owed to the users in return.

use vstd::prelude::*;
use crate::error::CoreError;
use crate::link::{LinkView, UserInfo};
use crate::registry::{
    aimed_at, distinct, duplicate_of, holds_link, lemma_duplicate_of, lemma_push_distinct,
    lemma_spared_distinct, spared, LinkMatch, LinkRegistry,
};

verus! {

/// A command that a user gave in a chat.
#[derive(Debug)]
pub enum UpstreamUpdate {
    /// Create this link.
    Link(UserInfo),
    /// Remove this link.
    Unlink(UserInfo),
    /// Remove every link of a user.
    UnlinkAll {
        /// The chat platform the command came from.
        upstream_type: String,
        /// The user whose links go.
        user_name: String,
    },
}

/// What a command holds.
pub ghost enum Command {
    Link(LinkView),
    Unlink(LinkView),
    UnlinkAll { upstream_type: Seq<char>, user_name: Seq<char> },
}

impl View for UpstreamUpdate {
    type V = Command;

    open spec fn view(&self) -> Command {
        match self {
            UpstreamUpdate::Link(link) => Command::Link(link@),
            UpstreamUpdate::Unlink(link) => Command::Unlink(link@),
            UpstreamUpdate::UnlinkAll { upstream_type, user_name } => Command::UnlinkAll {
                upstream_type: upstream_type@,
                user_name: user_name@,
            },
        }
    }
}

/// What a list of commands holds.
pub open spec fn commands(updates: Seq<UpstreamUpdate>) -> Seq<Command> {
    updates.map_values(|u: UpstreamUpdate| u@)
}

/// What a command leaves to be done outside the registry.
#[derive(Debug)]
pub enum Reply {
    /// The link was there already: tell the user so. Holds the link that is
    /// registered.
    Duplicate(UserInfo),
    /// The link was added, unverified: ask the user to prove that the linked
    /// identity is theirs.
    ToVerify(UserInfo),
    /// These links left the registry: those that were stored leave the store
    /// as well.
    Removed(Vec<UserInfo>),
}

impl UpstreamUpdate {
    /// The links that a removing command is aimed at.
    pub open spec fn target(&self) -> LinkMatch<'_> {
        match self {
            UpstreamUpdate::Link(candidate) => LinkMatch::Same(candidate),
            UpstreamUpdate::Unlink(candidate) => LinkMatch::Same(candidate),
            UpstreamUpdate::UnlinkAll { upstream_type, user_name } => LinkMatch::OfUser {
                upstream_type,
                user_id: user_name,
            },
        }
    }

    /// The links after the command.
    pub open spec fn links_after(&self, links: Seq<UserInfo>) -> Seq<UserInfo> {
        match self {
            UpstreamUpdate::Link(candidate) => if holds_link(links, *candidate) {
                links
            } else {
                links.push(*candidate)
            },
            _ => spared(links, self.target()),
        }
    }

    /// Whether `reply` is what the command leaves to be done, given the links
    /// before it.
    pub open spec fn answered_by(&self, links: Seq<UserInfo>, reply: Reply) -> bool {
        match self {
            UpstreamUpdate::Link(candidate) => match duplicate_of(links, *candidate) {
                Some(existing) => reply == Reply::Duplicate(existing),
                None => reply == Reply::ToVerify(*candidate),
            },
            _ => reply matches Reply::Removed(gone) && gone@ == aimed_at(links, self.target()),
        }
    }
}

/// The links after a run of commands, taken in their order.
pub open spec fn links_after_all(links: Seq<UserInfo>, updates: Seq<UpstreamUpdate>) -> Seq<
    UserInfo,
>
    decreases updates.len(),
{
    if updates.len() == 0 {
        links
    } else {
        updates.last().links_after(links_after_all(links, updates.drop_last()))
    }
}

/// A command leaves links that are all different links all different.
pub proof fn lemma_command_keeps_distinct(links: Seq<UserInfo>, update: UpstreamUpdate)
    requires
        distinct(links),
    ensures
        distinct(update.links_after(links)),
{
    match update {
        UpstreamUpdate::Link(candidate) => {
            if !holds_link(links, candidate) {
                lemma_push_distinct(links, candidate);
            }
        },
        _ => {
            lemma_spared_distinct(links, update.target());
        },
    }
}

/// A run of commands leaves links that are all different links all different.
pub proof fn lemma_commands_keep_distinct(links: Seq<UserInfo>, updates: Seq<UpstreamUpdate>)
    requires
        distinct(links),
    ensures
        distinct(links_after_all(links, updates)),
    decreases updates.len(),
{
    if updates.len() > 0 {
        lemma_commands_keep_distinct(links, updates.drop_last());
        lemma_command_keeps_distinct(
            links_after_all(links, updates.drop_last()),
            updates.last(),
        );
    }
}

/// Carries out one command. A link that is registered already is not added
/// again, and the reply holds the registered one; a new link is added at the
/// end as it came. A removal takes out every link it is aimed at and hands
/// them over.
pub fn apply_update(registry: &mut LinkRegistry, update: UpstreamUpdate) -> (reply: Reply)
    ensures
        final(registry)@ == update.links_after(old(registry)@),
        update.answered_by(old(registry)@, reply),
{
    match update {
        UpstreamUpdate::Link(request) => {
            proof {
                lemma_duplicate_of(registry@, request);
            }
            match registry.find_duplicate(&request) {
                Some(existing) => Reply::Duplicate(existing.clone()),
                None => {
                    let reply = Reply::ToVerify(request.clone());
                    registry.add(request);
                    reply
                },
            }
        },
        UpstreamUpdate::Unlink(user_info) => Reply::Removed(
            registry.remove(LinkMatch::Same(&user_info)),
        ),
        UpstreamUpdate::UnlinkAll { user_name, upstream_type } => Reply::Removed(
            registry.remove(LinkMatch::OfUser { upstream_type: &upstream_type, user_id: &user_name }),
        ),
    }
}

/// Carries out the commands in the order in which they arrived, and returns
/// the reply to each, in that order.
pub fn apply_updates(registry: &mut LinkRegistry, updates: Vec<UpstreamUpdate>) -> (replies: Vec<
    Reply,
>)
    ensures
        final(registry)@ == links_after_all(old(registry)@, updates@),
        replies@.len() == updates@.len(),
        forall|i: int|
            0 <= i < updates@.len() ==> (#[trigger] updates@[i]).answered_by(
                links_after_all(old(registry)@, updates@.take(i)),
                replies@[i],
            ),
{
    let ghost start = registry@;
    let ghost all = updates@;
    let mut replies: Vec<Reply> = Vec::new();
    assert(all.take(0) =~= Seq::<UpstreamUpdate>::empty());
    for update in it: updates
        invariant
            it.seq() == all,
            registry@ == links_after_all(start, all.take(it.index())),
            replies@.len() == it.index(),
            forall|i: int|
                0 <= i < it.index() ==> (#[trigger] all[i]).answered_by(
                    links_after_all(start, all.take(i)),
                    replies@[i],
                ),
    {
        proof {
            let n = it.index();
            assert(all.take(n + 1).drop_last() =~= all.take(n));
            assert(all.take(n + 1).last() == update);
        }
        let reply = apply_update(registry, update);
        replies.push(reply);
    }
    assert(all.take(all.len() as int) =~= all);
    replies
}

/// Takes in what a chat platform answered when it was asked for commands.
/// Where it failed, nothing changes and nothing is replied; else the
/// commands are carried out in their order.
pub fn take_updates(
    registry: &mut LinkRegistry,
    checked: Result<Vec<UpstreamUpdate>, CoreError>,
) -> (replies: Vec<Reply>)
    ensures
        match checked {
            Ok(updates) => {
                &&& final(registry)@ == links_after_all(old(registry)@, updates@)
                &&& replies@.len() == updates@.len()
                &&& forall|i: int|
                    0 <= i < updates@.len() ==> (#[trigger] updates@[i]).answered_by(
                        links_after_all(old(registry)@, updates@.take(i)),
                        replies@[i],
                    )
            },
            Err(_) => final(registry)@ == old(registry)@ && replies@.len() == 0,
        },
{
    match checked {
        Ok(updates) => apply_updates(registry, updates),
        Err(_) => Vec::new(),
    }
}

} // verus!
