use tracking_allocator::token::{GuardState, UnsafeAllocationGroupToken};
use tracking_allocator::{AllocationGroupToken, GroupStack, SharedTokenRegistry, ThreadState};

fn three_tokens() -> (AllocationGroupToken, AllocationGroupToken, AllocationGroupToken) {
    let mut tokens = SharedTokenRegistry::new();
    let mut thread = ThreadState::new();
    (
        AllocationGroupToken::acquire(&mut tokens, &mut thread),
        AllocationGroupToken::acquire(&mut tokens, &mut thread),
        AllocationGroupToken::acquire(&mut tokens, &mut thread),
    )
}

#[test]
fn exit_gives_the_token_back() {
    let (a, _, _) = three_tokens();
    let id = a.id();
    let mut thread = ThreadState::new();
    assert_eq!(thread.current(), None);
    let guard = a.enter(&mut thread);
    assert_eq!(thread.current(), Some(id));
    let a = guard.exit(&mut thread);
    assert_eq!(thread.current(), None);
    assert_eq!(a.id(), id);
}

#[test]
fn nested_groups_unwind_like_a_stack() {
    let (a, b, c) = three_tokens();
    let (ida, idb, idc) = (a.id(), b.id(), c.id());
    let mut thread = ThreadState::new();
    let mut stack = GroupStack::new();

    let guard_a = a.enter(&mut thread);
    stack.push(&mut thread, ida);
    let guard_b = b.enter(&mut thread);
    stack.push(&mut thread, idb);
    let guard_c = c.enter(&mut thread);
    stack.push(&mut thread, idc);
    assert_eq!(thread.current(), Some(idc));
    assert_eq!(stack.current(), idc);

    assert_eq!(guard_c.exit(&mut thread).id(), stack.pop());
    assert_eq!(thread.current(), Some(stack.current()));
    assert_eq!(guard_b.exit(&mut thread).id(), stack.pop());
    assert_eq!(thread.current(), Some(stack.current()));
    assert_eq!(guard_a.exit(&mut thread).id(), stack.pop());
    assert_eq!(thread.current(), None);
}

#[test]
fn drop_restores_the_previous_group() {
    let (a, b, _) = three_tokens();
    let ida = a.id();
    let mut thread = ThreadState::new();
    let _guard_a = a.enter(&mut thread);
    let mut guard_b = b.enter(&mut thread);
    guard_b.drop(&mut thread);
    assert_eq!(thread.current(), Some(ida));
    guard_b.drop(&mut thread);
    assert_eq!(thread.current(), Some(ida));
}

#[test]
fn exit_out_of_order_gives_back_the_active_group() {
    let (a, b, _) = three_tokens();
    let idb = b.id();
    let mut thread = ThreadState::new();
    let guard_a = a.enter(&mut thread);
    let _guard_b = b.enter(&mut thread);
    let token = guard_a.exit(&mut thread);
    assert_eq!(token.id(), idb);
    assert_eq!(thread.current(), None);
}

#[test]
fn threads_have_groups_of_their_own() {
    let (a, b, _) = three_tokens();
    let (ida, idb) = (a.id(), b.id());
    let mut left = ThreadState::new();
    let mut right = ThreadState::default();
    let guard = a.enter(&mut left);
    let _other = b.enter(&mut right);
    assert_eq!(left.current(), Some(ida));
    assert_eq!(right.current(), Some(idb));
    let a = guard.exit(&mut left);
    assert_eq!(right.current(), Some(idb));
    let _again = a.enter(&mut right);
    assert_eq!(right.current(), Some(ida));
    assert_eq!(left.current(), None);
}

#[test]
fn guard_state_transitions() {
    let (a, _, _) = three_tokens();
    let id = a.id();
    let mut thread = ThreadState::new();
    let mut state = GuardState::Idle(id);
    assert_eq!(state.try_transition_to_idle(&mut thread), None);
    assert_eq!(thread.current(), None);
    state.transition_to_active(&mut thread);
    assert!(matches!(state, GuardState::Active(None)));
    assert_eq!(thread.current(), Some(id));
    assert_eq!(state.try_transition_to_idle(&mut thread), Some(id));
    state.transition_to_active(&mut thread);
    assert_eq!(state.transition_to_idle(&mut thread), id);
    assert!(matches!(state, GuardState::Idle(again) if again == id));
}

#[test]
fn unmanaged_tokens_can_be_entered_again() {
    let (a, b, _) = three_tokens();
    let (ida, idb) = (a.id(), b.id());
    let mut thread = ThreadState::new();
    let mut token = UnsafeAllocationGroupToken::new(ida);
    let _outer = b.enter(&mut thread);
    for _ in 0..3 {
        token.enter(&mut thread);
        assert_eq!(thread.current(), Some(ida));
        token.exit(&mut thread);
        assert_eq!(thread.current(), Some(idb));
    }
}

#[test]
fn group_is_attached_to_an_enabled_span() {
    let (a, b, c) = three_tokens();
    let id = a.id();
    let mut thread = ThreadState::new();
    let (span, mut token) = a.attach_to_span(Some(17), true).unwrap();
    assert_eq!(span, 17);
    token.enter(&mut thread);
    assert_eq!(thread.current(), Some(id));
    token.exit(&mut thread);
    assert_eq!(thread.current(), None);
    assert!(b.attach_to_span(None, true).is_none());
    assert!(c.attach_to_span(Some(17), false).is_none());
}

#[test]
fn tokens_can_be_sent_to_another_thread() {
    fn assert_send<T: Send>() {}
    assert_send::<AllocationGroupToken>();
    assert_send::<UnsafeAllocationGroupToken>();
}

#[test]
fn dropping_an_unmanaged_token_restores_the_previous_group() {
    let (a, b, _) = three_tokens();
    let (ida, idb) = (a.id(), b.id());
    let mut thread = ThreadState::new();
    let _outer = b.enter(&mut thread);
    let mut token = a.into_unsafe();
    token.enter(&mut thread);
    assert_eq!(thread.current(), Some(ida));
    token.drop(&mut thread);
    assert_eq!(thread.current(), Some(idb));
    token.drop(&mut thread);
    assert_eq!(thread.current(), Some(idb));
    token.enter(&mut thread);
    assert_eq!(thread.current(), Some(ida));
}
