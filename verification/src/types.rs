//! The passive value types of the ledger: posts, reactions, notifications
//! and errors, together with their mathematical models.

use vstd::prelude::*;

verus! {

/// Identifier of a stored post. Ids are assigned sequentially starting at 1;
/// 0 is never a valid id.
pub type PostId = u32;

/// Caller identity as the host supplies it with each call, reduced to a
/// plain number.
pub type AccountId = u64;

/// Immutable provenance attached to a post when it is created: who created
/// it, and at which block and logical time.
#[derive(Clone, Copy, Debug, PartialEq, Eq, Structural)]
pub struct CreationInfo {
    pub account: AccountId,
    pub block: u32,
    pub time: u64,
}

impl Default for CreationInfo {
    fn default() -> (r: CreationInfo)
        ensures
            r == (CreationInfo { account: 0, block: 0, time: 0 }),
    {
        CreationInfo { account: 0, block: 0, time: 0 }
    }
}

/// The kind of a post: a top-level post, or a comment naming the post it
/// replies to. Fixed at creation.
#[derive(Clone, Copy, Debug)]
pub enum PostType {
    RegularPost,
    Comment { parent_id: PostId },
}

impl Default for PostType {
    fn default() -> (r: PostType)
        ensures
            r == PostType::RegularPost,
    {
        PostType::RegularPost
    }
}

/// A caller's vote on a post. At most one reaction is recorded per
/// (post, account) pair, and the two kinds are mutually exclusive.
#[derive(Clone, Copy, Debug, PartialEq, Eq, Structural)]
pub enum ReactionType {
    Like,
    Dislike,
}

/// A stored post: its id, provenance, owner, kind, text, the ids of its
/// direct comments in creation order, and its two reaction counters.
#[derive(Debug)]
pub struct PostItem {
    pub id: PostId,
    pub created: CreationInfo,
    pub owner: AccountId,
    pub post_type: PostType,
    pub content: String,
    pub comments_id: Vec<PostId>,
    pub likes: u32,
    pub dislikes: u32,
}

/// The mathematical model of a [`PostItem`]: the same record with the text
/// and the comment list as sequences.
#[verifier::ext_equal]
pub ghost struct PostItemModel {
    pub id: PostId,
    pub created: CreationInfo,
    pub owner: AccountId,
    pub post_type: PostType,
    pub content: Seq<char>,
    pub comments_id: Seq<PostId>,
    pub likes: u32,
    pub dislikes: u32,
}

impl View for PostItem {
    type V = PostItemModel;

    open spec fn view(&self) -> PostItemModel {
        PostItemModel {
            id: self.id,
            created: self.created,
            owner: self.owner,
            post_type: self.post_type,
            content: self.content@,
            comments_id: self.comments_id@,
            likes: self.likes,
            dislikes: self.dislikes,
        }
    }
}

/// Increment of a reaction counter: saturates at the top instead of
/// overflowing.
pub open spec fn sat_inc(x: u32) -> u32 {
    if x == u32::MAX {
        u32::MAX
    } else {
        (x + 1) as u32
    }
}

/// Decrement of a reaction counter: saturates at zero instead of
/// underflowing.
pub open spec fn sat_dec(x: u32) -> u32 {
    if x == 0 {
        0u32
    } else {
        (x - 1) as u32
    }
}

/// The post after one more reaction of the given kind has been counted.
pub open spec fn add_reaction_spec(p: PostItemModel, reaction: ReactionType) -> PostItemModel {
    match reaction {
        ReactionType::Like => PostItemModel { likes: sat_inc(p.likes), ..p },
        ReactionType::Dislike => PostItemModel { dislikes: sat_inc(p.dislikes), ..p },
    }
}

/// The post after one reaction of the given kind has been uncounted.
pub open spec fn remove_reaction_spec(p: PostItemModel, reaction: ReactionType) -> PostItemModel {
    match reaction {
        ReactionType::Like => PostItemModel { likes: sat_dec(p.likes), ..p },
        ReactionType::Dislike => PostItemModel { dislikes: sat_dec(p.dislikes), ..p },
    }
}

/// The post after the given id has been appended to its comment list.
pub open spec fn add_comment_spec(p: PostItemModel, post_id: PostId) -> PostItemModel {
    PostItemModel { comments_id: p.comments_id.push(post_id), ..p }
}

impl PostItem {
    /// Counts one more reaction of the given kind, saturating at the top.
    pub fn add_reaction(&mut self, reaction: ReactionType)
        ensures
            final(self)@ == add_reaction_spec(old(self)@, reaction),
    {
        match reaction {
            ReactionType::Like => self.likes = self.likes.saturating_add(1),
            ReactionType::Dislike => self.dislikes = self.dislikes.saturating_add(1),
        };
    }

    /// Uncounts one reaction of the given kind, saturating at zero.
    pub fn remove_reaction(&mut self, reaction: ReactionType)
        ensures
            final(self)@ == remove_reaction_spec(old(self)@, reaction),
    {
        match reaction {
            ReactionType::Like => self.likes = self.likes.saturating_sub(1),
            ReactionType::Dislike => self.dislikes = self.dislikes.saturating_sub(1),
        };
    }

    /// Appends the id of a new comment to this post's comment list.
    pub fn add_comment(&mut self, post_id: PostId)
        ensures
            final(self)@ == add_comment_spec(old(self)@, post_id),
    {
        self.comments_id.push(post_id);
    }
}

impl Default for PostItem {
    fn default() -> (r: PostItem)
        ensures
            r@ == (PostItemModel {
                id: 0,
                created: (CreationInfo { account: 0, block: 0, time: 0 }),
                owner: 0,
                post_type: PostType::RegularPost,
                content: Seq::<char>::empty(),
                comments_id: Seq::<PostId>::empty(),
                likes: 0,
                dislikes: 0,
            }),
    {
        PostItem {
            id: 0,
            created: CreationInfo { account: 0, block: 0, time: 0 },
            owner: 0,
            post_type: PostType::RegularPost,
            content: String::new(),
            comments_id: Vec::new(),
            likes: 0,
            dislikes: 0,
        }
    }
}

/// Notification that a post was stored, carrying the creator and the new id.
#[derive(Clone, Copy, Debug, PartialEq, Eq, Structural)]
pub struct PostCreated {
    pub who: AccountId,
    pub post_id: PostId,
}

/// Notification that a reaction was recorded for a post.
#[derive(Clone, Copy, Debug, PartialEq, Eq, Structural)]
pub struct ReactionCreated {
    pub account: AccountId,
    pub post_id: PostId,
    pub reaction: ReactionType,
}

/// Notification that a caller's recorded reaction was withdrawn from a post.
#[derive(Clone, Copy, Debug, PartialEq, Eq, Structural)]
pub struct ReactionDeleted {
    pub account: AccountId,
    pub post_id: PostId,
    pub reaction: ReactionType,
}

/// The expected failures of the five operations. Every error is returned to
/// the caller with the state unchanged.
#[derive(Clone, Copy, Debug, PartialEq, Eq, Structural)]
pub enum Error {
    /// The post or comment text was empty.
    ContentEmpty,
    /// The referenced post id does not exist.
    InvalidPostId,
    /// The comment's declared parent id does not exist.
    InvalidParentId,
    /// The caller repeated their existing reaction unchanged.
    SameReaction,
    /// The caller tried to withdraw a reaction they never recorded.
    NoReaction,
}

} // verus!
