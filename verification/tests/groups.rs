use std::borrow::Cow;
use std::collections::HashMap;

use tracking_allocator::registry::{
    begin_registration, end_registration, static_tags, static_text,
};
use tracking_allocator::thread::within_token_registry_rcu;
use tracking_allocator::token::get_active_allocation_group;
use tracking_allocator::{
    AllocationGroupId, AllocationGroupToken, GroupTags, SharedTokenRegistry, ThreadState,
};

/// The ID and tags of the group of `token`, as found while it is active.
fn metadata(
    tokens: &SharedTokenRegistry,
    token: AllocationGroupToken,
) -> Option<(AllocationGroupId, Option<GroupTags>)> {
    let mut thread = ThreadState::new();
    let _guard = token.enter(&mut thread);
    get_active_allocation_group(tokens, &thread).map(|group| (group.id(), group.tags()))
}

#[test]
fn acquired_ids_count_up_from_zero() {
    let mut tokens = SharedTokenRegistry::new();
    let mut thread = ThreadState::new();
    let first = AllocationGroupToken::acquire(&mut tokens, &mut thread);
    let second = AllocationGroupToken::acquire_with_tags(&mut tokens, &mut thread, &[("a", "b")]);
    let third = AllocationGroupToken::acquire(&mut tokens, &mut thread);
    assert_eq!(format!("{:?}", first.id()), "AllocationGroupId(0)");
    assert_eq!(format!("{:?}", second.id()), "AllocationGroupId(1)");
    assert_eq!(format!("{:?}", third.id()), "AllocationGroupId(2)");
    assert_ne!(first.id(), second.id());
    assert_ne!(first.id(), AllocationGroupId::root());
}

#[test]
fn groups_of_different_threads_get_different_ids() {
    let mut tokens = SharedTokenRegistry::new();
    let mut left = ThreadState::new();
    let mut right = ThreadState::new();
    let a = AllocationGroupToken::acquire(&mut tokens, &mut left);
    let b = AllocationGroupToken::acquire(&mut tokens, &mut right);
    let c = AllocationGroupToken::acquire(&mut tokens, &mut left);
    assert!(a.id() != b.id() && b.id() != c.id() && a.id() != c.id());
    assert_eq!(tokens.get_token_registry().unwrap().len(), 3);
}

#[test]
fn ids_work_as_keys() {
    let mut tokens = SharedTokenRegistry::new();
    let mut thread = ThreadState::new();
    let a = AllocationGroupToken::acquire(&mut tokens, &mut thread);
    let b = AllocationGroupToken::acquire(&mut tokens, &mut thread);
    let mut names = HashMap::new();
    names.insert(a.id(), "a");
    names.insert(b.id(), "b");
    assert_eq!(names.get(&b.id()), Some(&"b"));
    assert_eq!(names.get(&AllocationGroupId::root()), None);
}

#[test]
fn static_tags_are_kept_as_they_are() {
    let mut tokens = SharedTokenRegistry::new();
    let mut thread = ThreadState::new();
    let tags: GroupTags = &[("component", "cache"), ("shard", "7")];
    let token = AllocationGroupToken::acquire_with_static_tags(&mut tokens, &mut thread, tags);
    let id = token.id();
    assert_eq!(metadata(&tokens, token), Some((id, Some(tags))));
}

#[test]
fn borrowed_and_owned_tags_are_kept_in_order() {
    let mut tokens = SharedTokenRegistry::new();
    let mut thread = ThreadState::new();
    let tags = [("component", String::from("cache")), ("shard", 7.to_string()), ("", String::new())];
    let token = AllocationGroupToken::acquire_with_tags(&mut tokens, &mut thread, &tags);
    let id = token.id();
    let expected: GroupTags = &[("component", "cache"), ("shard", "7"), ("", "")];
    assert_eq!(metadata(&tokens, token), Some((id, Some(expected))));
    assert_eq!(tags[0].1, "cache");
}

#[test]
fn empty_tag_list_differs_from_no_tags() {
    let mut tokens = SharedTokenRegistry::new();
    let mut thread = ThreadState::new();
    let none = AllocationGroupToken::acquire(&mut tokens, &mut thread);
    let empty =
        AllocationGroupToken::acquire_with_tags::<&str, &str>(&mut tokens, &mut thread, &[]);
    let nothing: GroupTags = &[];
    assert_eq!(metadata(&tokens, none).unwrap().1, None);
    assert_eq!(metadata(&tokens, empty).unwrap().1, Some(nothing));
}

#[test]
fn groups_keep_their_tags_when_more_are_registered() {
    let mut tokens = SharedTokenRegistry::new();
    let mut thread = ThreadState::new();
    let before = tokens.get_token_registry();
    assert!(before.is_none());
    let token = AllocationGroupToken::acquire_with_tags(&mut tokens, &mut thread, &[("k", "v")]);
    let snapshot = tokens.get_token_registry().unwrap();
    for _ in 0..100 {
        let _ = AllocationGroupToken::acquire(&mut tokens, &mut thread);
    }
    let expected: GroupTags = &[("k", "v")];
    assert_eq!(metadata(&tokens, token).unwrap().1, Some(expected));
    assert_eq!(*snapshot, vec![Some(expected)]);
    assert_eq!(tokens.get_token_registry().unwrap()[0], Some(expected));
    assert_eq!(tokens.get_token_registry().unwrap().len(), 101);
}

#[test]
fn register_token_returns_the_index() {
    let mut tokens = SharedTokenRegistry::new();
    let mut thread = ThreadState::new();
    assert_eq!(tokens.register_token::<String, String>(&mut thread, None), 0);
    assert_eq!(tokens.register_token(&mut thread, Some(&[("k", "v")])), 1);
    assert_eq!(tokens.register_static_token(&mut thread, None), 2);
    assert!(!within_token_registry_rcu(&thread));
    assert!(thread.reports());
}

#[test]
fn no_active_group_no_metadata() {
    let mut tokens = SharedTokenRegistry::new();
    let mut thread = ThreadState::new();
    assert!(get_active_allocation_group(&tokens, &thread).is_none());
    let _token = AllocationGroupToken::acquire(&mut tokens, &mut thread);
    assert!(get_active_allocation_group(&tokens, &thread).is_none());
}

#[test]
fn group_of_another_registry_has_no_tags_here() {
    let mut tokens = SharedTokenRegistry::new();
    let mut others = SharedTokenRegistry::new();
    let mut thread = ThreadState::new();
    let _ = AllocationGroupToken::acquire(&mut others, &mut thread);
    let token = AllocationGroupToken::acquire_with_tags(&mut others, &mut thread, &[("k", "v")]);
    let id = token.id();
    let guard = token.enter(&mut thread);
    assert!(get_active_allocation_group(&tokens, &thread).is_none());
    let token = guard.exit(&mut thread);
    let _ = AllocationGroupToken::acquire(&mut tokens, &mut thread);
    assert_eq!(metadata(&tokens, token), Some((id, None)));
}

#[test]
fn texts_become_static() {
    assert_eq!(static_text(Cow::Borrowed("borrowed")), "borrowed");
    assert_eq!(static_text(Cow::Owned(String::from("owned"))), "owned");
}

#[test]
fn threads_are_marked_exactly_while_they_register() {
    let mut tokens = SharedTokenRegistry::new();
    let mut thread = ThreadState::new();
    let other = ThreadState::new();
    assert!(!within_token_registry_rcu(&thread));
    begin_registration(&mut thread);
    assert!(within_token_registry_rcu(&thread));
    assert!(!thread.reports());
    let tags = static_tags(&thread, &[("k", String::from("v"))]);
    assert!(within_token_registry_rcu(&thread));
    assert_eq!(tokens.append(&thread, Some(tags)), 0);
    assert!(within_token_registry_rcu(&thread));
    assert!(!within_token_registry_rcu(&other));
    end_registration(&mut thread);
    assert!(!within_token_registry_rcu(&thread));
    let expected: GroupTags = &[("k", "v")];
    assert_eq!(tokens.get_token_registry().unwrap()[0], Some(expected));
}
