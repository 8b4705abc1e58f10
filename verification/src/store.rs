//! The store itself: the post counter and the two maps, the five operations,
//! and the spec-level transition functions the operations are proved against.

use crate::types::{
    add_comment_spec, add_reaction_spec, remove_reaction_spec, AccountId, CreationInfo, Error,
    PostCreated, PostId, PostItem, PostItemModel, PostType, ReactionCreated, ReactionDeleted,
    ReactionType,
};
use vstd::prelude::*;

verus! {

/// One recorded reaction: the key pair and the vote.
#[derive(Clone, Copy)]
struct ReactionRecord {
    post_id: PostId,
    account: AccountId,
    reaction: ReactionType,
}

/// The mathematical state of the store: the last assigned id, the posts by
/// id, and the recorded reactions by (post id, account).
#[verifier::ext_equal]
pub ghost struct StoreModel {
    pub count: u32,
    pub posts: Map<PostId, PostItemModel>,
    pub reactions: Map<(PostId, AccountId), ReactionType>,
}

impl StoreModel {
    /// Well-formedness of a store state: exactly the ids 1 through `count`
    /// are stored, each post records its own id, stored text is never empty,
    /// comment lists only name existing posts, and reactions only refer to
    /// existing posts.
    pub open spec fn wf(self) -> bool {
        &&& forall|id: PostId| #[trigger] self.posts.dom().contains(id) <==> 1 <= id <= self.count
        &&& forall|id: PostId|
            self.posts.dom().contains(id) ==> #[trigger] self.posts[id].id == id
        &&& forall|id: PostId|
            self.posts.dom().contains(id) ==> #[trigger] self.posts[id].content.len() > 0
        &&& forall|id: PostId, j: int|
            self.posts.dom().contains(id) && 0 <= j < self.posts[id].comments_id.len() ==> 1 <= #[trigger] self.posts[id].comments_id[j] <= self.count
        &&& forall|k: (PostId, AccountId)|
            #[trigger] self.reactions.dom().contains(k) ==> self.posts.dom().contains(k.0)
    }
}

/// The initial state: no posts, no reactions, counter at zero.
pub open spec fn empty_store() -> StoreModel {
    StoreModel { count: 0, posts: Map::empty(), reactions: Map::empty() }
}

/// The model of a post as `create_post` first stores it: the given id, kind
/// and text, provenance from the host-supplied context, no comments yet, and
/// both counters at zero.
pub open spec fn new_post_model(
    id: PostId,
    post_type: PostType,
    content: Seq<char>,
    caller: AccountId,
    block: u32,
    time: u64,
) -> PostItemModel {
    PostItemModel {
        id,
        created: CreationInfo { account: caller, block, time },
        owner: caller,
        post_type,
        content,
        comments_id: Seq::empty(),
        likes: 0,
        dislikes: 0,
    }
}

/// What `create_post` does to a store state: the state after the call and
/// the returned value. Empty text is rejected before anything else; a
/// comment whose parent is missing is rejected before any write; otherwise
/// the new post is stored under `count + 1`, a comment is also appended to
/// its parent's list, and the counter advances.
pub open spec fn create_post_spec(
    s: StoreModel,
    post_type: PostType,
    content: Seq<char>,
    caller: AccountId,
    block: u32,
    time: u64,
) -> (StoreModel, Result<PostCreated, Error>) {
    if content.len() == 0 {
        (s, Err(Error::ContentEmpty))
    } else {
        let new_id = ((s.count + 1) as u32);
        let item = new_post_model(new_id, post_type, content, caller, block, time);
        let created = PostCreated { who: caller, post_id: new_id };
        match post_type {
            PostType::Comment { parent_id } => {
                if !s.posts.dom().contains(parent_id) {
                    (s, Err(Error::InvalidParentId))
                } else {
                    let parent = add_comment_spec(s.posts[parent_id], new_id);
                    (
                        StoreModel {
                            count: new_id,
                            posts: s.posts.insert(parent_id, parent).insert(new_id, item),
                            reactions: s.reactions,
                        },
                        Ok(created),
                    )
                }
            },
            PostType::RegularPost => {
                (
                    StoreModel {
                        count: new_id,
                        posts: s.posts.insert(new_id, item),
                        reactions: s.reactions,
                    },
                    Ok(created),
                )
            },
        }
    }
}

/// What `get_post_by_id` returns: the stored post, or `InvalidPostId` when
/// no post has the given id. The state is never changed.
pub open spec fn get_post_by_id_spec(s: StoreModel, post_id: PostId) -> Result<
    PostItemModel,
    Error,
> {
    if s.posts.dom().contains(post_id) {
        Ok(s.posts[post_id])
    } else {
        Err(Error::InvalidPostId)
    }
}

/// What `add_post_reaction` does to a store state. A missing post is
/// rejected; repeating the recorded reaction is rejected with no change;
/// otherwise a differing prior reaction is first uncounted, the new one is
/// counted and recorded, all as one step.
pub open spec fn add_post_reaction_spec(
    s: StoreModel,
    post_id: PostId,
    reaction: ReactionType,
    caller: AccountId,
) -> (StoreModel, Result<ReactionCreated, Error>) {
    if !s.posts.dom().contains(post_id) {
        (s, Err(Error::InvalidPostId))
    } else {
        let key = (post_id, caller);
        if s.reactions.dom().contains(key) && s.reactions[key] == reaction {
            (s, Err(Error::SameReaction))
        } else {
            let before = s.posts[post_id];
            let cleared = if s.reactions.dom().contains(key) {
                remove_reaction_spec(before, s.reactions[key])
            } else {
                before
            };
            let updated = add_reaction_spec(cleared, reaction);
            (
                StoreModel {
                    count: s.count,
                    posts: s.posts.insert(post_id, updated),
                    reactions: s.reactions.insert(key, reaction),
                },
                Ok(ReactionCreated { account: caller, post_id, reaction }),
            )
        }
    }
}

/// What `delete_post_reaction` does to a store state. A missing post is
/// rejected; a caller without a recorded reaction is rejected; otherwise the
/// recorded reaction is uncounted and its record removed.
pub open spec fn delete_post_reaction_spec(
    s: StoreModel,
    post_id: PostId,
    caller: AccountId,
) -> (StoreModel, Result<ReactionDeleted, Error>) {
    if !s.posts.dom().contains(post_id) {
        (s, Err(Error::InvalidPostId))
    } else {
        let key = (post_id, caller);
        if !s.reactions.dom().contains(key) {
            (s, Err(Error::NoReaction))
        } else {
            let reaction = s.reactions[key];
            (
                StoreModel {
                    count: s.count,
                    posts: s.posts.insert(post_id, remove_reaction_spec(s.posts[post_id], reaction)),
                    reactions: s.reactions.remove(key),
                },
                Ok(ReactionDeleted { account: caller, post_id, reaction }),
            )
        }
    }
}

/// The reactions a sequence of records stands for; a later record for the
/// same (post, account) pair supersedes an earlier one.
spec fn reactions_map_of(s: Seq<ReactionRecord>) -> Map<(PostId, AccountId), ReactionType>
    decreases s.len(),
{
    if s.len() == 0 {
        Map::empty()
    } else {
        reactions_map_of(s.drop_last()).insert(
            (s.last().post_id, s.last().account),
            s.last().reaction,
        )
    }
}

/// The store. Posts are held in creation order, so the post with id `i`
/// sits at position `i - 1`; reactions are held as a list of records read
/// as a map.
pub struct Posts {
    count: u32,
    posts: Vec<PostItem>,
    reactions: Vec<ReactionRecord>,
}

impl Posts {
    /// The posts the vector stands for, keyed by id.
    spec fn posts_map(self) -> Map<PostId, PostItemModel> {
        Map::new(|id: PostId| 1 <= id <= self.posts@.len(), |id: PostId| self.posts@[id - 1]@)
    }
}

impl View for Posts {
    type V = StoreModel;

    closed spec fn view(&self) -> StoreModel {
        StoreModel {
            count: self.count,
            posts: self.posts_map(),
            reactions: reactions_map_of(self.reactions@),
        }
    }
}

impl Posts {
    /// The representation matches its model: the counter equals the number
    /// of stored posts, and the model state is well formed.
    pub closed spec fn wf(self) -> bool {
        &&& self.count == self.posts@.len()
        &&& self@.wf()
    }

    /// An empty store.
    pub fn new() -> (r: Posts)
        ensures
            r.wf(),
            r@ == empty_store(),
    {
        let r = Posts { count: 0, posts: Vec::new(), reactions: Vec::new() };
        proof {
            assert(r@.posts =~= empty_store().posts);
            assert(r@.reactions =~= empty_store().reactions);
            assert(r@ =~= empty_store());
        }
        r
    }

    /// An empty store; the same as [`Posts::new`].
    pub fn default() -> (r: Posts)
        ensures
            r.wf(),
            r@ == empty_store(),
    {
        Posts::new()
    }

    /// The number of posts created so far, comments included.
    pub fn get_post_count(&self) -> (r: u32)
        ensures
            r == self@.count,
    {
        self.count
    }

    /// A copy of the stored post with the given id, or `InvalidPostId` when
    /// there is none. Read-only.
    pub fn get_post_by_id(&self, post_id: PostId) -> (r: Result<PostItem, Error>)
        requires
            self.wf(),
        ensures
            ({
                let rs = get_post_by_id_spec(self@, post_id);
                match r {
                    Ok(item) => rs is Ok && item@ == rs->Ok_0,
                    Err(e) => rs is Err && e == rs->Err_0,
                }
            }),
    {
        if post_id < 1 || post_id > self.count {
            return Err(Error::InvalidPostId);
        }
        let idx = (post_id - 1) as usize;
        let item = &self.posts[idx];
        Ok(
            PostItem {
                id: item.id,
                created: item.created,
                owner: item.owner,
                post_type: item.post_type,
                content: item.content.clone(),
                comments_id: copy_ids(&item.comments_id),
                likes: item.likes,
                dislikes: item.dislikes,
            },
        )
    }

    /// Creates a post or a comment from the given text and the host-supplied
    /// context, stores it under the next id, and advances the counter; a
    /// comment is also linked into its parent's comment list. Returns the
    /// creation notification, or an error with the state unchanged.
    pub fn create_post(
        &mut self,
        post_type: PostType,
        content: String,
        caller: AccountId,
        block: u32,
        time: u64,
    ) -> (r: Result<PostCreated, Error>)
        requires
            old(self).wf(),
            old(self)@.count < u32::MAX,
        ensures
            final(self).wf(),
            ({
                let (s2, r2) = create_post_spec(old(self)@, post_type, content@, caller, block, time);
                final(self)@ == s2 && r == r2
            }),
    {
        if content.as_str().is_empty() {
            return Err(Error::ContentEmpty);
        }
        let post_id = self.count + 1;
        if let PostType::Comment { parent_id } = post_type {
            if parent_id < 1 || parent_id > self.count {
                return Err(Error::InvalidParentId);
            }
            let idx = (parent_id - 1) as usize;
            let parent = &mut self.posts[idx];
            parent.add_comment(post_id);
            proof {
                assert(self@.posts =~= old(self)@.posts.insert(
                    parent_id,
                    add_comment_spec(old(self)@.posts[parent_id], post_id),
                ));
            }
        }
        let ghost mid = self@;
        let item = PostItem {
            id: post_id,
            created: CreationInfo { account: caller, block, time },
            owner: caller,
            post_type,
            content,
            comments_id: Vec::new(),
            likes: 0,
            dislikes: 0,
        };
        self.posts.push(item);
        self.count = post_id;
        proof {
            let (s2, r2) = create_post_spec(old(self)@, post_type, content@, caller, block, time);
            assert(self@.posts =~= mid.posts.insert(post_id, new_post_model(post_id, post_type, content@, caller, block, time)));
            assert(self@.posts =~= s2.posts);
            assert(self@ =~= s2);
            lemma_create_post_preserves_wf(old(self)@, post_type, content@, caller, block, time);
        }
        Ok(PostCreated { who: caller, post_id })
    }
}

impl Posts {
    /// The caller's recorded reaction for a post, if any.
    fn find_reaction(&self, post_id: PostId, caller: AccountId) -> (r: Option<ReactionType>)
        ensures
            match r {
                Some(rt) => self@.reactions.dom().contains((post_id, caller))
                    && self@.reactions[(post_id, caller)] == rt,
                None => !self@.reactions.dom().contains((post_id, caller)),
            },
    {
        let mut found: Option<ReactionType> = None;
        let mut i: usize = 0;
        while i < self.reactions.len()
            invariant
                i <= self.reactions.len(),
                ({
                    let m = reactions_map_of(self.reactions@.take(i as int));
                    match found {
                        Some(rt) => m.dom().contains((post_id, caller))
                            && m[(post_id, caller)] == rt,
                        None => !m.dom().contains((post_id, caller)),
                    }
                }),
            decreases self.reactions.len() - i,
        {
            let rec = &self.reactions[i];
            if rec.post_id == post_id && rec.account == caller {
                found = Some(rec.reaction);
            }
            proof {
                assert(self.reactions@.take(i + 1).drop_last() =~= self.reactions@.take(i as int));
                assert(self.reactions@.take(i + 1).last() == self.reactions@[i as int]);
            }
            i = i + 1;
        }
        proof {
            assert(self.reactions@.take(self.reactions@.len() as int) =~= self.reactions@);
        }
        found
    }

    /// Drops every record the caller holds for the given post, leaving the
    /// posts and the counter untouched.
    fn remove_reaction_entry(&mut self, post_id: PostId, caller: AccountId)
        ensures
            final(self).count == old(self).count,
            final(self).posts == old(self).posts,
            final(self)@.reactions == old(self)@.reactions.remove((post_id, caller)),
    {
        let ghost key = (post_id, caller);
        let mut kept: Vec<ReactionRecord> = Vec::new();
        let mut i: usize = 0;
        while i < self.reactions.len()
            invariant
                i <= self.reactions.len(),
                *self == *old(self),
                key == (post_id, caller),
                reactions_map_of(kept@) == reactions_map_of(
                    self.reactions@.take(i as int),
                ).remove(key),
            decreases self.reactions.len() - i,
        {
            let rec = &self.reactions[i];
            proof {
                let rk = (self.reactions@[i as int].post_id, self.reactions@[i as int].account);
                assert(self.reactions@.take(i + 1).drop_last() =~= self.reactions@.take(i as int));
                assert(self.reactions@.take(i + 1).last() == self.reactions@[i as int]);
                assert(reactions_map_of(self.reactions@.take(i + 1)) == reactions_map_of(
                    self.reactions@.take(i as int),
                ).insert(rk, self.reactions@[i as int].reaction));
            }
            if rec.post_id == post_id && rec.account == caller {
                proof {
                    assert(reactions_map_of(self.reactions@.take(i + 1)).remove(key) =~= reactions_map_of(self.reactions@.take(i as int)).remove(key));
                }
            } else {
                let ghost kept_before = kept@;
                kept.push(*rec);
                proof {
                    let rk = (self.reactions@[i as int].post_id, self.reactions@[i as int].account);
                    assert(rk != key);
                    assert(kept@.drop_last() =~= kept_before);
                    assert(reactions_map_of(kept@) == reactions_map_of(kept_before).insert(
                        rk,
                        self.reactions@[i as int].reaction,
                    ));
                    assert(reactions_map_of(self.reactions@.take(i + 1)).remove(key) =~= reactions_map_of(kept@));
                }
            }
            i = i + 1;
        }
        proof {
            assert(self.reactions@.take(self.reactions@.len() as int) =~= self.reactions@);
        }
        self.reactions = kept;
    }

    /// Records or switches the caller's reaction on a post and adjusts the
    /// post's counters: a differing prior reaction is uncounted first, then
    /// the new one is counted and recorded, as one step. Returns the
    /// notification, or an error with the state unchanged.
    pub fn add_post_reaction(
        &mut self,
        post_id: PostId,
        reaction: ReactionType,
        caller: AccountId,
    ) -> (r: Result<ReactionCreated, Error>)
        requires
            old(self).wf(),
        ensures
            final(self).wf(),
            ({
                let (s2, r2) = add_post_reaction_spec(old(self)@, post_id, reaction, caller);
                final(self)@ == s2 && r == r2
            }),
    {
        if post_id < 1 || post_id > self.count {
            return Err(Error::InvalidPostId);
        }
        let prior = self.find_reaction(post_id, caller);
        if let Some(old_reaction) = prior {
            if old_reaction == reaction {
                return Err(Error::SameReaction);
            }
        }
        let idx = (post_id - 1) as usize;
        let item = &mut self.posts[idx];
        if let Some(old_reaction) = prior {
            item.remove_reaction(old_reaction);
        }
        item.add_reaction(reaction);
        proof {
            let (s2, r2) = add_post_reaction_spec(old(self)@, post_id, reaction, caller);
            assert(self@.posts =~= s2.posts);
        }
        let ghost mid = self@;
        self.reactions.push(ReactionRecord { post_id, account: caller, reaction });
        proof {
            let (s2, r2) = add_post_reaction_spec(old(self)@, post_id, reaction, caller);
            assert(self.reactions@.drop_last() =~= old(self).reactions@);
            assert(self@.reactions == mid.reactions.insert((post_id, caller), reaction));
            assert(self@ =~= s2);
            lemma_add_post_reaction_preserves_wf(old(self)@, post_id, reaction, caller);
        }
        Ok(ReactionCreated { account: caller, post_id, reaction })
    }

    /// Withdraws the caller's recorded reaction from a post: the matching
    /// counter is uncounted and the record removed. Returns the
    /// notification, or an error with the state unchanged.
    pub fn delete_post_reaction(&mut self, post_id: PostId, caller: AccountId) -> (r: Result<
        ReactionDeleted,
        Error,
    >)
        requires
            old(self).wf(),
        ensures
            final(self).wf(),
            ({
                let (s2, r2) = delete_post_reaction_spec(old(self)@, post_id, caller);
                final(self)@ == s2 && r == r2
            }),
    {
        if post_id < 1 || post_id > self.count {
            return Err(Error::InvalidPostId);
        }
        let prior = self.find_reaction(post_id, caller);
        match prior {
            None => Err(Error::NoReaction),
            Some(old_reaction) => {
                let idx = (post_id - 1) as usize;
                let item = &mut self.posts[idx];
                item.remove_reaction(old_reaction);
                self.remove_reaction_entry(post_id, caller);
                proof {
                    let (s2, r2) = delete_post_reaction_spec(old(self)@, post_id, caller);
                    assert(self@.posts =~= s2.posts);
                    assert(self@ =~= s2);
                    lemma_delete_post_reaction_preserves_wf(old(self)@, post_id, caller);
                }
                Ok(ReactionDeleted { account: caller, post_id, reaction: old_reaction })
            },
        }
    }
}

/// Creating a post keeps the store well formed: the new post fills exactly
/// the next id, its text is non-empty, and a comment's parent link stays
/// within the stored ids.
pub proof fn lemma_create_post_preserves_wf(
    s: StoreModel,
    post_type: PostType,
    content: Seq<char>,
    caller: AccountId,
    block: u32,
    time: u64,
)
    requires
        s.wf(),
        s.count < u32::MAX,
    ensures
        create_post_spec(s, post_type, content, caller, block, time).0.wf(),
{
    let (s2, r) = create_post_spec(s, post_type, content, caller, block, time);
    if content.len() == 0 {
    } else {
        let new_id = ((s.count + 1) as u32);
        let item = new_post_model(new_id, post_type, content, caller, block, time);
        match post_type {
            PostType::Comment { parent_id } => {
                if s.posts.dom().contains(parent_id) {
                    assert forall|id: PostId, j: int|
                        s2.posts.dom().contains(id) && 0 <= j < s2.posts[id].comments_id.len() implies 1 <= #[trigger] s2.posts[id].comments_id[j] <= s2.count by {
                        if id == new_id {
                        } else if id == parent_id {
                            let old_list = s.posts[parent_id].comments_id;
                            if j < old_list.len() {
                                assert(1 <= old_list[j] <= s.count);
                            }
                        } else {
                            assert(1 <= s.posts[id].comments_id[j] <= s.count);
                        }
                    }
                }
            },
            PostType::RegularPost => {
                assert forall|id: PostId, j: int|
                    s2.posts.dom().contains(id) && 0 <= j < s2.posts[id].comments_id.len() implies 1 <= #[trigger] s2.posts[id].comments_id[j] <= s2.count by {
                    if id != new_id {
                        assert(1 <= s.posts[id].comments_id[j] <= s.count);
                    }
                }
            },
        }
    }
}

/// Recording a reaction keeps the store well formed: the posts keep their
/// ids and text, and the new record points at an existing post.
pub proof fn lemma_add_post_reaction_preserves_wf(
    s: StoreModel,
    post_id: PostId,
    reaction: ReactionType,
    caller: AccountId,
)
    requires
        s.wf(),
    ensures
        add_post_reaction_spec(s, post_id, reaction, caller).0.wf(),
{
    let s2 = add_post_reaction_spec(s, post_id, reaction, caller).0;
    if s.posts.dom().contains(post_id) {
        let key = (post_id, caller);
        if !(s.reactions.dom().contains(key) && s.reactions[key] == reaction) {
            assert forall|id: PostId, j: int|
                s2.posts.dom().contains(id) && 0 <= j < s2.posts[id].comments_id.len() implies 1 <= #[trigger] s2.posts[id].comments_id[j] <= s2.count by {
                assert(1 <= s.posts[id].comments_id[j] <= s.count);
            }
        }
    }
}

/// Withdrawing a reaction keeps the store well formed.
pub proof fn lemma_delete_post_reaction_preserves_wf(
    s: StoreModel,
    post_id: PostId,
    caller: AccountId,
)
    requires
        s.wf(),
    ensures
        delete_post_reaction_spec(s, post_id, caller).0.wf(),
{
    let s2 = delete_post_reaction_spec(s, post_id, caller).0;
    let key = (post_id, caller);
    if s.posts.dom().contains(post_id) && s.reactions.dom().contains(key) {
        assert forall|id: PostId, j: int|
            s2.posts.dom().contains(id) && 0 <= j < s2.posts[id].comments_id.len() implies 1 <= #[trigger] s2.posts[id].comments_id[j] <= s2.count by {
            assert(1 <= s.posts[id].comments_id[j] <= s.count);
        }
    }
}

/// A copy of a list of post ids.
fn copy_ids(v: &Vec<PostId>) -> (r: Vec<PostId>)
    ensures
        r@ == v@,
{
    let mut r: Vec<PostId> = Vec::new();
    let mut i: usize = 0;
    while i < v.len()
        invariant
            i <= v.len(),
            r@ == v@.take(i as int),
        decreases v.len() - i,
    {
        r.push(v[i]);
        proof {
            assert(v@.take(i + 1) =~= v@.take(i as int).push(v@[i as int]));
        }
        i = i + 1;
    }
    proof {
        assert(v@.take(v@.len() as int) =~= v@);
    }
    r
}


} // verus!
