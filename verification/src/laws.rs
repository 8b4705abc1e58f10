//! The guarantees the store gives across calls, proved once and for all
//! over the spec-level transition functions.

use crate::store::{
    add_post_reaction_spec, create_post_spec, delete_post_reaction_spec, empty_store,
    get_post_by_id_spec, StoreModel,
};
use crate::types::{
    AccountId, Error, PostCreated, PostId, PostType, ReactionCreated, ReactionDeleted,
    ReactionType,
};
use vstd::prelude::*;
use vstd::set_lib::lemma_set_subset_finite;

verus! {

/// For any non-empty content, a successful `create_post` followed by
/// `get_post_by_id` of the new id yields a post with exactly that content
/// and both counters at zero.
pub proof fn lemma_create_then_get(
    s: StoreModel,
    post_type: PostType,
    content: Seq<char>,
    caller: AccountId,
    block: u32,
    time: u64,
)
    requires
        s.count < u32::MAX,
        content.len() > 0,
    ensures
        ({
            let (s2, r) = create_post_spec(s, post_type, content, caller, block, time);
            r is Ok ==> {
                let got = get_post_by_id_spec(s2, r->Ok_0.post_id);
                &&& r->Ok_0.post_id == s.count + 1
                &&& got is Ok
                &&& got->Ok_0.content == content
                &&& got->Ok_0.likes == 0
                &&& got->Ok_0.dislikes == 0
            }
        }),
{
}

/// Creating with empty content always fails with `ContentEmpty` and changes
/// nothing: in particular the counter does not advance.
pub proof fn lemma_create_post_empty_content(
    s: StoreModel,
    post_type: PostType,
    content: Seq<char>,
    caller: AccountId,
    block: u32,
    time: u64,
)
    requires
        content.len() == 0,
    ensures
        create_post_spec(s, post_type, content, caller, block, time) == (
            s,
            Err::<PostCreated, Error>(Error::ContentEmpty),
        ),
{
}

/// A comment naming a parent that does not exist fails with
/// `InvalidParentId` and changes nothing: no post is stored or altered and
/// the counter does not advance.
pub proof fn lemma_create_comment_invalid_parent(
    s: StoreModel,
    parent_id: PostId,
    content: Seq<char>,
    caller: AccountId,
    block: u32,
    time: u64,
)
    requires
        content.len() > 0,
        !s.posts.dom().contains(parent_id),
    ensures
        create_post_spec(s, PostType::Comment { parent_id }, content, caller, block, time) == (
            s,
            Err::<PostCreated, Error>(Error::InvalidParentId),
        ),
{
}

/// A successful comment creation appends the new id at the end of the
/// parent's comment list, and the list then holds it exactly once: the id
/// is fresh, so it cannot already have been a child.
pub proof fn lemma_comment_linked_once(
    s: StoreModel,
    parent_id: PostId,
    content: Seq<char>,
    caller: AccountId,
    block: u32,
    time: u64,
)
    requires
        s.wf(),
        s.count < u32::MAX,
        content.len() > 0,
        s.posts.dom().contains(parent_id),
    ensures
        ({
            let (s2, r) = create_post_spec(
                s,
                PostType::Comment { parent_id },
                content,
                caller,
                block,
                time,
            );
            let new_id = ((s.count + 1) as u32);
            &&& r is Ok
            &&& s2.posts[parent_id].comments_id == s.posts[parent_id].comments_id.push(new_id)
            &&& !s.posts[parent_id].comments_id.contains(new_id)
        }),
{
    let old_list = s.posts[parent_id].comments_id;
    let new_id = ((s.count + 1) as u32);
    assert(parent_id != new_id);
    if old_list.contains(new_id) {
        let j = choose|j: int| 0 <= j < old_list.len() && old_list[j] == new_id;
        assert(1 <= s.posts[parent_id].comments_id[j] <= s.count);
        assert(false);
    }
}

/// Reacting twice with the same reaction: the second call fails with
/// `SameReaction` and leaves the state — counters included — unchanged.
pub proof fn lemma_same_reaction_rejected(
    s: StoreModel,
    post_id: PostId,
    reaction: ReactionType,
    caller: AccountId,
)
    ensures
        ({
            let (s1, r1) = add_post_reaction_spec(s, post_id, reaction, caller);
            r1 is Ok ==> add_post_reaction_spec(s1, post_id, reaction, caller) == (
                s1,
                Err::<ReactionCreated, Error>(Error::SameReaction),
            )
        }),
{
}

/// Switching a recorded reaction moves one vote: the counter of the prior
/// kind goes down by one, the other goes up by one, and their sum for the
/// post is unchanged. Stated away from the saturation bounds of the two
/// counters.
pub proof fn lemma_switch_reaction(
    s: StoreModel,
    post_id: PostId,
    reaction: ReactionType,
    caller: AccountId,
)
    requires
        s.posts.dom().contains(post_id),
        s.reactions.dom().contains((post_id, caller)),
        s.reactions[(post_id, caller)] != reaction,
        s.reactions[(post_id, caller)] == ReactionType::Like ==> s.posts[post_id].likes >= 1
            && s.posts[post_id].dislikes < u32::MAX,
        s.reactions[(post_id, caller)] == ReactionType::Dislike ==> s.posts[post_id].dislikes >= 1
            && s.posts[post_id].likes < u32::MAX,
    ensures
        ({
            let prior = s.reactions[(post_id, caller)];
            let (s2, r) = add_post_reaction_spec(s, post_id, reaction, caller);
            let before = s.posts[post_id];
            let after = s2.posts[post_id];
            &&& r is Ok
            &&& after.likes + after.dislikes == before.likes + before.dislikes
            &&& prior == ReactionType::Like ==> after.likes == before.likes - 1 && after.dislikes
                == before.dislikes + 1
            &&& prior == ReactionType::Dislike ==> after.dislikes == before.dislikes - 1
                && after.likes == before.likes + 1
        }),
{
}

/// Withdrawing a reaction the caller never recorded fails with `NoReaction`
/// and changes nothing.
pub proof fn lemma_delete_without_reaction(s: StoreModel, post_id: PostId, caller: AccountId)
    requires
        s.posts.dom().contains(post_id),
        !s.reactions.dom().contains((post_id, caller)),
    ensures
        delete_post_reaction_spec(s, post_id, caller) == (
            s,
            Err::<ReactionDeleted, Error>(Error::NoReaction),
        ),
{
}

/// A successful withdrawal takes one vote off the counter of the recorded
/// kind and leaves the other alone (stated away from the saturation bound),
/// and any following reaction by the same caller on that post succeeds — in
/// particular it is never rejected as `SameReaction`.
pub proof fn lemma_delete_then_add(
    s: StoreModel,
    post_id: PostId,
    caller: AccountId,
    next: ReactionType,
)
    requires
        s.posts.dom().contains(post_id),
        s.reactions.dom().contains((post_id, caller)),
        s.reactions[(post_id, caller)] == ReactionType::Like ==> s.posts[post_id].likes >= 1,
        s.reactions[(post_id, caller)] == ReactionType::Dislike ==> s.posts[post_id].dislikes
            >= 1,
    ensures
        ({
            let prior = s.reactions[(post_id, caller)];
            let (s2, r) = delete_post_reaction_spec(s, post_id, caller);
            let before = s.posts[post_id];
            let after = s2.posts[post_id];
            &&& r is Ok
            &&& r->Ok_0.reaction == prior
            &&& prior == ReactionType::Like ==> after.likes == before.likes - 1 && after.dislikes
                == before.dislikes
            &&& prior == ReactionType::Dislike ==> after.dislikes == before.dislikes - 1
                && after.likes == before.likes
            &&& add_post_reaction_spec(s2, post_id, next, caller).1 is Ok
        }),
{
}


/// The recorded reactions of one kind on one post, as the set of their
/// (post, account) keys.
pub open spec fn reaction_keys(
    reactions: Map<(PostId, AccountId), ReactionType>,
    post_id: PostId,
    kind: ReactionType,
) -> Set<(PostId, AccountId)> {
    Set::new(
        |k: (PostId, AccountId)|
            reactions.dom().contains(k) && k.0 == post_id && reactions[k] == kind,
    )
}

/// Counter consistency: every stored post counts exactly the recorded
/// reactions of each kind, one per reacting account.
pub open spec fn counters_consistent(s: StoreModel) -> bool {
    forall|id: PostId|
        s.posts.dom().contains(id) ==> {
            &&& (#[trigger] s.posts[id]).likes == reaction_keys(
                s.reactions,
                id,
                ReactionType::Like,
            ).len()
            &&& s.posts[id].dislikes == reaction_keys(s.reactions, id, ReactionType::Dislike).len()
        }
}

proof fn lemma_reaction_keys_finite(
    reactions: Map<(PostId, AccountId), ReactionType>,
    post_id: PostId,
    kind: ReactionType,
)
    requires
        reactions.dom().finite(),
    ensures
        reaction_keys(reactions, post_id, kind).finite(),
{
    assert(reaction_keys(reactions, post_id, kind).subset_of(reactions.dom()));
    lemma_set_subset_finite(reactions.dom(), reaction_keys(reactions, post_id, kind));
}

/// The empty store has consistent counters and finitely many reactions.
pub proof fn lemma_empty_store_consistent()
    ensures
        counters_consistent(empty_store()),
        empty_store().reactions.dom().finite(),
{
}

/// Creating a post keeps the counters consistent: the new post starts at
/// zero, no reaction can refer to its fresh id yet, and no other counter
/// or reaction is touched.
pub proof fn lemma_create_post_preserves_consistency(
    s: StoreModel,
    post_type: PostType,
    content: Seq<char>,
    caller: AccountId,
    block: u32,
    time: u64,
)
    requires
        s.wf(),
        counters_consistent(s),
        s.reactions.dom().finite(),
        s.count < u32::MAX,
    ensures
        ({
            let s2 = create_post_spec(s, post_type, content, caller, block, time).0;
            counters_consistent(s2) && s2.reactions.dom().finite()
        }),
{
    let s2 = create_post_spec(s, post_type, content, caller, block, time).0;
    let new_id = ((s.count + 1) as u32);
    assert(s2.reactions == s.reactions);
    assert(reaction_keys(s.reactions, new_id, ReactionType::Like) =~= Set::<(
        PostId,
        AccountId,
    )>::empty()) by {
        assert forall|k: (PostId, AccountId)|
            !reaction_keys(s.reactions, new_id, ReactionType::Like).contains(k) by {
            if s.reactions.dom().contains(k) {
                assert(s.posts.dom().contains(k.0));
            }
        }
    }
    assert(reaction_keys(s.reactions, new_id, ReactionType::Dislike) =~= Set::<(
        PostId,
        AccountId,
    )>::empty()) by {
        assert forall|k: (PostId, AccountId)|
            !reaction_keys(s.reactions, new_id, ReactionType::Dislike).contains(k) by {
            if s.reactions.dom().contains(k) {
                assert(s.posts.dom().contains(k.0));
            }
        }
    }
    assert forall|id: PostId| s2.posts.dom().contains(id) implies {
        &&& (#[trigger] s2.posts[id]).likes == reaction_keys(
            s2.reactions,
            id,
            ReactionType::Like,
        ).len()
        &&& s2.posts[id].dislikes == reaction_keys(s2.reactions, id, ReactionType::Dislike).len()
    } by {
        if id != new_id {
            assert(s.posts.dom().contains(id));
            assert(s.posts[id].likes == reaction_keys(s.reactions, id, ReactionType::Like).len());
        }
    }
}

/// Recording or switching a reaction keeps the counters consistent with
/// the recorded reactions, as long as the counter to be incremented is
/// below its bound.
pub proof fn lemma_add_reaction_preserves_consistency(
    s: StoreModel,
    post_id: PostId,
    reaction: ReactionType,
    caller: AccountId,
)
    requires
        counters_consistent(s),
        s.reactions.dom().finite(),
        s.posts.dom().contains(post_id) ==> (reaction == ReactionType::Like
            ==> s.posts[post_id].likes < u32::MAX) && (reaction == ReactionType::Dislike
            ==> s.posts[post_id].dislikes < u32::MAX),
    ensures
        ({
            let s2 = add_post_reaction_spec(s, post_id, reaction, caller).0;
            counters_consistent(s2) && s2.reactions.dom().finite()
        }),
{
    let s2 = add_post_reaction_spec(s, post_id, reaction, caller).0;
    if s.posts.dom().contains(post_id) {
        let key = (post_id, caller);
        if !(s.reactions.dom().contains(key) && s.reactions[key] == reaction) {
            let other = if reaction == ReactionType::Like {
                ReactionType::Dislike
            } else {
                ReactionType::Like
            };
            let same_old = reaction_keys(s.reactions, post_id, reaction);
            let other_old = reaction_keys(s.reactions, post_id, other);
            lemma_reaction_keys_finite(s.reactions, post_id, reaction);
            lemma_reaction_keys_finite(s.reactions, post_id, other);
            assert(!same_old.contains(key));
            assert(reaction_keys(s2.reactions, post_id, reaction) =~= same_old.insert(key));
            if s.reactions.dom().contains(key) {
                assert(other_old.contains(key));
                assert(reaction_keys(s2.reactions, post_id, other) =~= other_old.remove(key));
            } else {
                assert(reaction_keys(s2.reactions, post_id, other) =~= other_old);
            }
            assert forall|id: PostId| s2.posts.dom().contains(id) implies {
                &&& (#[trigger] s2.posts[id]).likes == reaction_keys(
                    s2.reactions,
                    id,
                    ReactionType::Like,
                ).len()
                &&& s2.posts[id].dislikes == reaction_keys(
                    s2.reactions,
                    id,
                    ReactionType::Dislike,
                ).len()
            } by {
                if id != post_id {
                    assert(reaction_keys(s2.reactions, id, ReactionType::Like) =~= reaction_keys(
                        s.reactions,
                        id,
                        ReactionType::Like,
                    ));
                    assert(reaction_keys(s2.reactions, id, ReactionType::Dislike)
                        =~= reaction_keys(s.reactions, id, ReactionType::Dislike));
                }
            }
        }
    }
}

/// Withdrawing a reaction keeps the counters consistent: consistency puts
/// the decremented counter at one or more, so the saturating decrement is
/// exact.
pub proof fn lemma_delete_reaction_preserves_consistency(
    s: StoreModel,
    post_id: PostId,
    caller: AccountId,
)
    requires
        counters_consistent(s),
        s.reactions.dom().finite(),
    ensures
        ({
            let s2 = delete_post_reaction_spec(s, post_id, caller).0;
            counters_consistent(s2) && s2.reactions.dom().finite()
        }),
{
    let s2 = delete_post_reaction_spec(s, post_id, caller).0;
    let key = (post_id, caller);
    if s.posts.dom().contains(post_id) && s.reactions.dom().contains(key) {
        let prior = s.reactions[key];
        let other = if prior == ReactionType::Like {
            ReactionType::Dislike
        } else {
            ReactionType::Like
        };
        let same_old = reaction_keys(s.reactions, post_id, prior);
        let other_old = reaction_keys(s.reactions, post_id, other);
        lemma_reaction_keys_finite(s.reactions, post_id, prior);
        lemma_reaction_keys_finite(s.reactions, post_id, other);
        assert(same_old.contains(key));
        assert(reaction_keys(s2.reactions, post_id, prior) =~= same_old.remove(key));
        assert(reaction_keys(s2.reactions, post_id, other) =~= other_old);
        assert forall|id: PostId| s2.posts.dom().contains(id) implies {
            &&& (#[trigger] s2.posts[id]).likes == reaction_keys(
                s2.reactions,
                id,
                ReactionType::Like,
            ).len()
            &&& s2.posts[id].dislikes == reaction_keys(
                s2.reactions,
                id,
                ReactionType::Dislike,
            ).len()
        } by {
            if id != post_id {
                assert(reaction_keys(s2.reactions, id, ReactionType::Like) =~= reaction_keys(
                    s.reactions,
                    id,
                    ReactionType::Like,
                ));
                assert(reaction_keys(s2.reactions, id, ReactionType::Dislike) =~= reaction_keys(
                    s.reactions,
                    id,
                    ReactionType::Dislike,
                ));
            }
        }
    }
}

} // verus!
