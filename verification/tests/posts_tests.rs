use posts::store::Posts;
use posts::types::{Error, PostType, ReactionType};

const CALLER: u64 = 1;
const OTHER: u64 = 2;
const BLOCK: u32 = 1;
const TIME: u64 = 1;

#[test]
fn test_create_post() {
    let mut contract = Posts::default();
    assert!(contract
        .create_post(PostType::RegularPost, "POST 1".to_string(), CALLER, BLOCK, TIME)
        .is_ok());
    let post = contract.get_post_by_id(1);
    assert!(post.is_ok());
    let post = post.unwrap();
    assert_eq!(post.content, "POST 1".to_string());
}

#[test]
fn test_create_post_with_empty_content() {
    let mut contract = Posts::default();
    assert!(contract
        .create_post(PostType::RegularPost, "".to_string(), CALLER, BLOCK, TIME)
        .is_err());
}

#[test]
fn test_create_comment() {
    let mut contract = Posts::default();
    assert!(contract
        .create_post(PostType::RegularPost, "PARENT CONTRACT".to_string(), CALLER, BLOCK, TIME)
        .is_ok());
    assert!(contract
        .create_post(PostType::Comment { parent_id: 1 }, "COMMENT".to_string(), CALLER, BLOCK, TIME)
        .is_ok());
}

#[test]
fn test_create_comment_invalid_parent() {
    let mut contract = Posts::default();
    assert!(contract
        .create_post(PostType::RegularPost, "PARENT POST".to_string(), CALLER, BLOCK, TIME)
        .is_ok());
    assert_eq!(
        contract.create_post(
            PostType::Comment { parent_id: 3 },
            "INVALID PARENT".to_string(),
            CALLER,
            BLOCK,
            TIME
        ),
        Err(Error::InvalidParentId)
    );
}

#[test]
fn test_add_reaction_ok() {
    let mut contract = Posts::default();
    assert!(contract
        .create_post(PostType::RegularPost, "POST 1".to_string(), CALLER, BLOCK, TIME)
        .is_ok());
    assert!(contract
        .create_post(PostType::RegularPost, "POST 2".to_string(), CALLER, BLOCK, TIME)
        .is_ok());
    assert!(contract.add_post_reaction(1, ReactionType::Like, CALLER).is_ok());
    assert!(contract.add_post_reaction(2, ReactionType::Dislike, CALLER).is_ok());
    let post1 = contract.get_post_by_id(1).unwrap();
    let post2 = contract.get_post_by_id(2).unwrap();
    assert!(post1.likes == 1);
    assert!(post2.dislikes == 1);
}

#[test]
fn test_delete_reaction_ok() {
    let mut contract = Posts::default();
    assert!(contract
        .create_post(PostType::RegularPost, "POST 1".to_string(), CALLER, BLOCK, TIME)
        .is_ok());
    assert_eq!(contract.get_post_by_id(1).unwrap().likes, 0);
    assert_eq!(contract.get_post_by_id(1).unwrap().dislikes, 0);
    assert!(contract.add_post_reaction(1, ReactionType::Like, CALLER).is_ok());
    assert_eq!(contract.get_post_by_id(1).unwrap().likes, 1);
    assert_eq!(contract.get_post_by_id(1).unwrap().dislikes, 0);
    assert!(contract.add_post_reaction(1, ReactionType::Dislike, CALLER).is_ok());
    assert_eq!(contract.get_post_by_id(1).unwrap().likes, 0);
    assert_eq!(contract.get_post_by_id(1).unwrap().dislikes, 1);
    assert_eq!(contract.delete_post_reaction(2, CALLER), Err(Error::InvalidPostId));
    assert!(contract.delete_post_reaction(1, CALLER).is_ok());
    assert_eq!(contract.get_post_by_id(1).unwrap().likes, 0);
    assert_eq!(contract.get_post_by_id(1).unwrap().dislikes, 0);
}

#[test]
fn test_new_post_fields() {
    let mut contract = Posts::new();
    let created = contract
        .create_post(PostType::RegularPost, "HELLO".to_string(), 9, 5, 77)
        .unwrap();
    assert_eq!(created.who, 9);
    assert_eq!(created.post_id, 1);
    let post = contract.get_post_by_id(1).unwrap();
    assert_eq!(post.id, 1);
    assert_eq!(post.owner, 9);
    assert_eq!(post.created.account, 9);
    assert_eq!(post.created.block, 5);
    assert_eq!(post.created.time, 77);
    assert!(matches!(post.post_type, PostType::RegularPost));
    assert_eq!(post.content, "HELLO".to_string());
    assert!(post.comments_id.is_empty());
    assert_eq!(post.likes, 0);
    assert_eq!(post.dislikes, 0);
}

#[test]
fn test_empty_content_never_advances_counter() {
    let mut contract = Posts::new();
    assert_eq!(contract.get_post_count(), 0);
    assert_eq!(
        contract.create_post(PostType::RegularPost, "".to_string(), CALLER, BLOCK, TIME),
        Err(Error::ContentEmpty)
    );
    assert_eq!(contract.get_post_count(), 0);
    assert_eq!(
        contract.create_post(PostType::Comment { parent_id: 1 }, "".to_string(), CALLER, BLOCK, TIME),
        Err(Error::ContentEmpty)
    );
    assert_eq!(contract.get_post_count(), 0);
}

#[test]
fn test_invalid_parent_never_advances_counter() {
    let mut contract = Posts::new();
    assert!(contract
        .create_post(PostType::RegularPost, "ROOT".to_string(), CALLER, BLOCK, TIME)
        .is_ok());
    assert_eq!(contract.get_post_count(), 1);
    assert_eq!(
        contract.create_post(
            PostType::Comment { parent_id: 2 },
            "ORPHAN".to_string(),
            CALLER,
            BLOCK,
            TIME
        ),
        Err(Error::InvalidParentId)
    );
    assert_eq!(contract.get_post_count(), 1);
    assert_eq!(contract.get_post_by_id(1).unwrap().comments_id.len(), 0);
}

#[test]
fn test_comments_appended_in_order() {
    let mut contract = Posts::new();
    assert!(contract
        .create_post(PostType::RegularPost, "ROOT".to_string(), CALLER, BLOCK, TIME)
        .is_ok());
    assert!(contract
        .create_post(PostType::Comment { parent_id: 1 }, "FIRST".to_string(), CALLER, BLOCK, TIME)
        .is_ok());
    assert!(contract
        .create_post(PostType::Comment { parent_id: 1 }, "SECOND".to_string(), OTHER, BLOCK, TIME)
        .is_ok());
    assert_eq!(contract.get_post_count(), 3);
    let parent = contract.get_post_by_id(1).unwrap();
    assert_eq!(parent.comments_id, vec![2, 3]);
    let second = contract.get_post_by_id(3).unwrap();
    assert!(matches!(second.post_type, PostType::Comment { parent_id: 1 }));
    assert_eq!(second.content, "SECOND".to_string());
}

#[test]
fn test_same_reaction_rejected() {
    let mut contract = Posts::new();
    assert!(contract
        .create_post(PostType::RegularPost, "POST".to_string(), CALLER, BLOCK, TIME)
        .is_ok());
    assert!(contract.add_post_reaction(1, ReactionType::Like, CALLER).is_ok());
    assert_eq!(
        contract.add_post_reaction(1, ReactionType::Like, CALLER),
        Err(Error::SameReaction)
    );
    let post = contract.get_post_by_id(1).unwrap();
    assert_eq!(post.likes, 1);
    assert_eq!(post.dislikes, 0);
}

#[test]
fn test_switch_reaction_moves_one_vote() {
    let mut contract = Posts::new();
    assert!(contract
        .create_post(PostType::RegularPost, "POST".to_string(), CALLER, BLOCK, TIME)
        .is_ok());
    assert!(contract.add_post_reaction(1, ReactionType::Dislike, CALLER).is_ok());
    let before = contract.get_post_by_id(1).unwrap();
    assert_eq!((before.likes, before.dislikes), (0, 1));
    assert!(contract.add_post_reaction(1, ReactionType::Like, CALLER).is_ok());
    let after = contract.get_post_by_id(1).unwrap();
    assert_eq!((after.likes, after.dislikes), (1, 0));
    assert_eq!(after.likes + after.dislikes, before.likes + before.dislikes);
}

#[test]
fn test_reactions_from_two_accounts() {
    let mut contract = Posts::new();
    assert!(contract
        .create_post(PostType::RegularPost, "POST".to_string(), CALLER, BLOCK, TIME)
        .is_ok());
    assert!(contract.add_post_reaction(1, ReactionType::Like, CALLER).is_ok());
    assert!(contract.add_post_reaction(1, ReactionType::Like, OTHER).is_ok());
    assert_eq!(contract.get_post_by_id(1).unwrap().likes, 2);
    assert!(contract.delete_post_reaction(1, CALLER).is_ok());
    assert_eq!(contract.get_post_by_id(1).unwrap().likes, 1);
    assert_eq!(
        contract.delete_post_reaction(1, CALLER),
        Err(Error::NoReaction)
    );
}

#[test]
fn test_delete_then_add_again() {
    let mut contract = Posts::new();
    assert!(contract
        .create_post(PostType::RegularPost, "POST".to_string(), CALLER, BLOCK, TIME)
        .is_ok());
    assert_eq!(
        contract.delete_post_reaction(1, CALLER),
        Err(Error::NoReaction)
    );
    assert!(contract.add_post_reaction(1, ReactionType::Like, CALLER).is_ok());
    let deleted = contract.delete_post_reaction(1, CALLER).unwrap();
    assert_eq!(deleted.account, CALLER);
    assert_eq!(deleted.post_id, 1);
    assert_eq!(deleted.reaction, ReactionType::Like);
    assert!(contract.add_post_reaction(1, ReactionType::Like, CALLER).is_ok());
    assert_eq!(contract.get_post_by_id(1).unwrap().likes, 1);
}

#[test]
fn test_missing_post_is_rejected() {
    let mut contract = Posts::new();
    assert!(matches!(contract.get_post_by_id(0), Err(Error::InvalidPostId)));
    assert!(matches!(contract.get_post_by_id(1), Err(Error::InvalidPostId)));
    assert_eq!(
        contract.add_post_reaction(1, ReactionType::Like, CALLER),
        Err(Error::InvalidPostId)
    );
    assert_eq!(
        contract.delete_post_reaction(1, CALLER),
        Err(Error::InvalidPostId)
    );
}

#[test]
fn test_reaction_notifications() {
    let mut contract = Posts::new();
    assert!(contract
        .create_post(PostType::RegularPost, "POST".to_string(), CALLER, BLOCK, TIME)
        .is_ok());
    let created = contract
        .add_post_reaction(1, ReactionType::Dislike, OTHER)
        .unwrap();
    assert_eq!(created.account, OTHER);
    assert_eq!(created.post_id, 1);
    assert_eq!(created.reaction, ReactionType::Dislike);
}
