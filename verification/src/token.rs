//! Allocation groups, and the tokens and guards with which they are made active.
use std::borrow::Cow;

use vstd::prelude::*;

use crate::registry::converts_to;
use crate::registry::tags_convert_to;
use crate::registry::GroupTags;
use crate::registry::RegistryView;
use crate::registry::SharedTokenRegistry;
use crate::thread::ThreadState;
use crate::thread::ThreadView;
use crate::util::PhantomNotSend;

verus! {

/// The identifier that uniquely identifies an allocation group.
#[derive(Clone, Copy, Debug, PartialEq, Eq, Hash, Structural)]
pub struct AllocationGroupId(usize);

impl AllocationGroupId {
    /// Index of the group in the token registry.
    pub closed spec fn index(self) -> usize {
        self.0
    }

    /// The ID of the root allocation group, as a mathematical value.
    pub closed spec fn spec_root() -> Self {
        AllocationGroupId(usize::MAX)
    }

    /// The ID of the root allocation group, to which belongs whatever no registered group is
    /// active for.
    ///
    /// No registered group ever has this ID.
    #[verifier::when_used_as_spec(spec_root)]
    pub fn root() -> (id: Self)
        ensures
            id == Self::spec_root(),
            id.index() == usize::MAX,
    {
        AllocationGroupId(usize::MAX)
    }

    /// An ID is identified by its index: groups at different indices have different IDs, and a
    /// group has only one.
    pub proof fn law_index_identifies_group(self, other: Self)
        ensures
            self.index() == other.index() <==> self == other,
    {
        self.law_id_is_its_index();
        other.law_id_is_its_index();
    }

    /// An ID holds the index of its group, and nothing else.
    proof fn law_id_is_its_index(self)
        ensures
            self == AllocationGroupId(self.index()),
            self.0 == self.index(),
    {
    }

    /// The root group is none of the groups that a registry can hold.
    pub proof fn law_registered_group_is_not_root(self, registry: RegistryView)
        requires
            self.index() < registry.groups().len(),
            registry.groups().len() <= usize::MAX,
        ensures
            self != Self::root(),
    {
    }
}

/// A token that uniquely identifies an allocation group.
///
/// Allocation groups are the core grouping mechanism and drive much of the behavior of this crate.
/// While the allocator must be overridden, and a global tracker provided, no allocations are
/// tracked unless a group is associated with the current thread making the allocation.
///
/// Practically speaking, allocation groups are simply an internal identifier that is used to
/// identify the "owner" of an allocation.  Additional tags can be provided when acquiring an
/// allocation group token, which are provided to [`AllocationTracker`][crate::AllocationTracker]
/// whenever an allocation occurs.
///
/// ## Usage
///
/// In order for an allocation group to be attached to an allocation, it must be "entered."
/// [`AllocationGroupToken`] functions similarly to something like a mutex, where "entering" the
/// token consumes the token and provides a guard: [`AllocationGuard`].  This guard is tied to the
/// allocation group being active: if the guard is dropped, or if it is exited manually, the
/// allocation group is no longer active.
///
/// [`AllocationGuard`] also tracks if another allocation group was active prior to entering, and
/// ensures it is set back as the active allocation group when the guard is dropped.  This allows
/// allocation groups to be nested within each other.
pub struct AllocationGroupToken(AllocationGroupId);

impl View for AllocationGroupToken {
    type V = AllocationGroupId;

    closed spec fn view(&self) -> AllocationGroupId {
        self.0
    }
}

impl AllocationGroupToken {
    /// Acquires an allocation group token.
    pub fn acquire(registry: &mut SharedTokenRegistry, thread: &mut ThreadState) -> (token: Self)
        ensures
            token@.index() == old(registry)@.groups().len(),
            token@ != AllocationGroupId::root(),
            final(registry)@ == old(registry)@.registered(None),
            final(thread)@ == old(thread)@.with_rcu_in_flight(false),
            !final(thread)@.rcu_in_flight,
            final(thread)@.current == old(thread)@.current,
            final(thread)@.suspended == old(thread)@.suspended,
            final(thread)@.delivered == old(thread)@.delivered,
    {
        let id: usize = registry.register_token::<String, String>(thread, None);
        AllocationGroupToken(AllocationGroupId(id))
    }

    /// The ID associated with this allocation group.
    pub fn id(&self) -> (id: AllocationGroupId)
        ensures
            id == self@,
    {
        self.0
    }

    /// Acquires an allocation group token, with tags.
    ///
    /// While allocation groups are primarily represented by their [`AllocationGroupToken`], users
    /// can use this method to attach specific tags -- or key/value string pairs -- to the group.
    /// These tags will be provided to the global tracker whenever an allocation event is associated
    /// with the allocation group.
    ///
    /// ## Memory usage
    ///
    /// In order to minimize any allocations while in the process of tracking normal allocations, we
    /// rely on utilizing only static references to data.  If the tags given are not already
    /// `'static` references, they will be leaked in order to make them `'static`.  Thus, callers
    /// should take care to avoid registering tokens on an ongoing basis when utilizing owned tags as
    /// this could create a persistent and ever-growing memory leak over the life of the process.
    pub fn acquire_with_tags<K, V>(
        registry: &mut SharedTokenRegistry,
        thread: &mut ThreadState,
        tags: &[(K, V)],
    ) -> (token: Self) where
        K: Into<Cow<'static, str>> + Clone,
        V: Into<Cow<'static, str>> + Clone,

        ensures
            token@.index() == old(registry)@.groups().len(),
            token@ != AllocationGroupId::root(),
            final(registry)@.tags_at(token@.index() as int) matches Some(leaked)
                && final(registry)@ == old(registry)@.registered(Some(leaked))
                && tags_convert_to(tags@, leaked@),
            ({
                let leaked = final(registry)@.tags_at(token@.index() as int)->Some_0@;
                &&& leaked.len() == tags@.len()
                &&& forall|i: int|
                    0 <= i < tags@.len() ==> converts_to((#[trigger] tags@[i]).0, leaked[i].0@)
                        && converts_to(tags@[i].1, leaked[i].1@)
            }),
            final(thread)@ == old(thread)@.with_rcu_in_flight(false),
            !final(thread)@.rcu_in_flight,
            final(thread)@.current == old(thread)@.current,
            final(thread)@.suspended == old(thread)@.suspended,
            final(thread)@.delivered == old(thread)@.delivered,
    {
        let id: usize = registry.register_token(thread, Some(tags));
        AllocationGroupToken(AllocationGroupId(id))
    }

    /// Acquires an allocation group token, with tags that are static already.
    pub fn acquire_with_static_tags(
        registry: &mut SharedTokenRegistry,
        thread: &mut ThreadState,
        tags: GroupTags,
    ) -> (token: Self)
        ensures
            token@.index() == old(registry)@.groups().len(),
            token@ != AllocationGroupId::root(),
            final(registry)@ == old(registry)@.registered(Some(tags)),
            final(thread)@ == old(thread)@.with_rcu_in_flight(false),
            !final(thread)@.rcu_in_flight,
            final(thread)@.current == old(thread)@.current,
            final(thread)@.suspended == old(thread)@.suspended,
            final(thread)@.delivered == old(thread)@.delivered,
    {
        let id: usize = registry.register_static_token(thread, Some(tags));
        AllocationGroupToken(AllocationGroupId(id))
    }

    /// Gives up the token for one that is entered and exited by hand.
    pub fn into_unsafe(self) -> (token: UnsafeAllocationGroupToken)
        ensures
            token@ == GuardState::Idle(self@),
    {
        UnsafeAllocationGroupToken::new(self.0)
    }

    /// Marks the associated allocation group as the active allocation group on this thread.
    ///
    /// If another allocation group is currently active, it is replaced, and restored either when
    /// the allocation guard is dropped, or when [`AllocationGuard::exit`] is called.
    pub fn enter(self, thread: &mut ThreadState) -> (guard: AllocationGuard)
        ensures
            (guard@, final(thread)@) == GuardState::Idle(self@).activated(old(thread)@),
    {
        AllocationGuard::enter(self, thread)
    }

    /// Attaches this allocation group to a tracing span.
    ///
    /// When the span is entered or exited, the allocation group will also transition from idle to
    /// active, or active to idle.  In effect, all allocations that occur while the span is entered
    /// will be associated with the allocation group.
    ///
    /// `span` is the ID of the span, which a disabled span does not have, and `groups_supported`
    /// says whether the current dispatcher can keep an allocation group with a span.  The result is
    /// what has to be kept with which span.
    pub fn attach_to_span(self, span: Option<u64>, groups_supported: bool) -> (attached: Option<
        (u64, UnsafeAllocationGroupToken),
    >)
        ensures
            attached is Some <==> span is Some && groups_supported,
            attached matches Some((id, token)) ==> Some(id) == span && token@ == GuardState::Idle(
                self@,
            ),
    {
        let token = self.into_unsafe();
        match span {
            Some(id) if groups_supported => Some((id, token)),
            _ => None,
        }
    }
}

/// Whether an allocation group is active, and what is needed to change that.
pub enum GuardState {
    /// Guard is idle.  We aren't the active allocation group.
    Idle(AllocationGroupId),
    /// Guard is active.  We're the active allocation group, so we hold on to the previous
    /// allocation group ID, if there was one, so we can switch back to it when we transition to
    /// being idle.
    Active(Option<AllocationGroupId>),
}

impl GuardState {
    /// What becomes of an idle guard and its thread when the group of the guard is made the active
    /// one: the guard holds on to the group that was active before.
    pub open spec fn activated(self, thread: ThreadView) -> (GuardState, ThreadView)
        recommends
            self is Idle,
    {
        (GuardState::Active(thread.current), thread.with_current(Some(self->Idle_0)))
    }

    /// What becomes of a guard and its thread when the guard is made idle.
    ///
    /// The group that an active guard held on to becomes the active one again, and the guard gets
    /// the group that was active until then.  An idle guard stays as it is.
    pub open spec fn deactivated(self, thread: ThreadView) -> (GuardState, ThreadView)
        recommends
            self is Active ==> thread.current is Some,
    {
        match self {
            GuardState::Idle(_) => (self, thread),
            GuardState::Active(previous) => (
                GuardState::Idle(thread.current->Some_0),
                thread.with_current(previous),
            ),
        }
    }

    /// Makes the group of an idle guard the active one.
    pub fn transition_to_active(&mut self, thread: &mut ThreadState)
        requires
            *old(self) is Idle,
        ensures
            (*final(self), final(thread)@) == old(self).activated(old(thread)@),
    {
        if let GuardState::Idle(id) = self {
            // Set the current allocation token to the new token, keeping the previous.
            let previous = thread.replace_current(Some(*id));
            *self = GuardState::Active(previous);
        }
    }

    /// Makes an active guard idle, and returns the group that was active until then.
    pub fn transition_to_idle(&mut self, thread: &mut ThreadState) -> (id: AllocationGroupId)
        requires
            *old(self) is Active,
            old(thread)@.current is Some,
        ensures
            Some(id) == old(thread)@.current,
            (*final(self), final(thread)@) == old(self).deactivated(old(thread)@),
    {
        let id = self.try_transition_to_idle(thread);
        id.unwrap()
    }

    /// Makes an active guard idle, and returns the group that was active until then.
    ///
    /// A guard that is idle already stays as it is.
    pub fn try_transition_to_idle(&mut self, thread: &mut ThreadState) -> (id: Option<
        AllocationGroupId,
    >)
        requires
            *old(self) is Active ==> old(thread)@.current is Some,
        ensures
            id == if *old(self) is Active {
                old(thread)@.current
            } else {
                None
            },
            (*final(self), final(thread)@) == old(self).deactivated(old(thread)@),
    {
        match self {
            GuardState::Idle(_) => None,
            GuardState::Active(previous) => {
                // Reset the current allocation token to the previous one:
                let current = thread.replace_current(*previous).unwrap();
                *self = GuardState::Idle(current);
                Some(current)
            },
        }
    }
}

/// Guard that updates the current thread to track allocations for the associated allocation group.
///
/// ## Drop behavior
///
/// Dropping the guard resets the active allocation group back to the previous allocation group.
/// Calling `exit` is generally preferred for being explicit about when the allocation group begins
/// and ends, though.
///
/// ## Moving across threads
///
/// [`AllocationGuard`] is specifically marked as `!Send` as the active allocation group is tracked
/// at a per-thread level.  If you acquire an `AllocationGuard` and need to resume computation on
/// another thread, such as across an await point or when simply sending objects to another thread,
/// you must first [`exit`][exit] the guard and move the resulting [`AllocationGroupToken`].  Once
/// on the new thread, you can then reacquire the guard.
///
/// [exit]: AllocationGuard::exit
pub struct AllocationGuard {
    state: GuardState,
    _ns: PhantomNotSend,
}

impl View for AllocationGuard {
    type V = GuardState;

    closed spec fn view(&self) -> GuardState {
        self.state
    }
}

impl AllocationGuard {
    /// Makes the group of `token` the active one.
    pub(crate) fn enter(token: AllocationGroupToken, thread: &mut ThreadState) -> (guard: Self)
        ensures
            (guard@, final(thread)@) == GuardState::Idle(token@).activated(old(thread)@),
    {
        let mut state = GuardState::Idle(token.0);
        state.transition_to_active(thread);

        AllocationGuard { state, _ns: PhantomNotSend::default() }
    }

    /// Unmarks this allocation group as the active allocation group on this thread, resetting the
    /// active allocation group to the previous value.
    ///
    /// The token that is returned is that of the group which was active until then.  As long as
    /// guards are exited in the reverse order of entering, that is the group of this guard.
    pub fn exit(self, thread: &mut ThreadState) -> (token: AllocationGroupToken)
        requires
            self@ is Active,
            old(thread)@.current is Some,
        ensures
            Some(token@) == old(thread)@.current,
            (GuardState::Idle(token@), final(thread)@) == self@.deactivated(old(thread)@),
    {
        // Reset the current allocation token to the previous one.
        let mut guard = self;
        let current = guard.state.transition_to_idle(thread);

        AllocationGroupToken(current)
    }

    /// What has to happen when the guard goes out of scope: the active allocation group is reset to
    /// the previous value, unless the guard is idle already.
    pub fn drop(&mut self, thread: &mut ThreadState)
        requires
            old(self)@ is Active ==> old(thread)@.current is Some,
        ensures
            (final(self)@, final(thread)@) == old(self)@.deactivated(old(thread)@),
    {
        let _ = self.state.try_transition_to_idle(thread);
    }
}

/// Unmanaged allocation group token used specifically with tracing spans.
///
/// ## Safety
///
/// While normally users would work directly with [`AllocationGroupToken`] and [`AllocationGuard`],
/// we cannot store [`AllocationGuard`] in span data as it is `!Send`, and tracing spans can be sent
/// across threads.
///
/// However, `tracing` itself employs a guard for entering spans.  The guard is `!Send`, which
/// ensures that the guard cannot be sent across threads.  Since the same guard is used to know when
/// a span has been exited, `tracing` ensures that between a span being entered and exited, it
/// cannot move threads.
///
/// Thus, we build off of that invariant, and use this stripped down token to manually enter and
/// exit the allocation group.
pub struct UnsafeAllocationGroupToken {
    state: GuardState,
}

impl View for UnsafeAllocationGroupToken {
    type V = GuardState;

    closed spec fn view(&self) -> GuardState {
        self.state
    }
}

impl UnsafeAllocationGroupToken {
    /// Creates a new `UnsafeAllocationGroupToken`.
    pub fn new(id: AllocationGroupId) -> (token: Self)
        ensures
            token@ == GuardState::Idle(id),
    {
        UnsafeAllocationGroupToken { state: GuardState::Idle(id) }
    }

    /// Marks the associated allocation group as the active allocation group on this thread.
    ///
    /// If another allocation group is currently active, it is replaced, and restored either when
    /// this token is dropped, or when [`UnsafeAllocationGroupToken::exit`] is called.
    ///
    /// Functionally equivalent to [`AllocationGroupToken::enter`].
    pub fn enter(&mut self, thread: &mut ThreadState)
        requires
            old(self)@ is Idle,
        ensures
            (final(self)@, final(thread)@) == old(self)@.activated(old(thread)@),
    {
        self.state.transition_to_active(thread);
    }

    /// Unmarks this allocation group as the active allocation group on this thread, resetting the
    /// active allocation group to the previous value.
    ///
    /// Functionally equivalent to [`AllocationGuard::exit`].
    pub fn exit(&mut self, thread: &mut ThreadState)
        requires
            old(self)@ is Active,
            old(thread)@.current is Some,
        ensures
            (final(self)@, final(thread)@) == old(self)@.deactivated(old(thread)@),
    {
        let _ = self.state.transition_to_idle(thread);
    }

    /// What has to happen when the token goes out of scope: the active allocation group is reset to
    /// the previous value, unless the token is idle already.
    pub fn drop(&mut self, thread: &mut ThreadState)
        requires
            old(self)@ is Active ==> old(thread)@.current is Some,
        ensures
            (final(self)@, final(thread)@) == old(self)@.deactivated(old(thread)@),
    {
        let _ = self.state.try_transition_to_idle(thread);
    }
}

/// An allocation group and the tags that are associated with it.
pub struct AllocationGroupMetadata {
    id: AllocationGroupId,
    tags: Option<GroupTags>,
}

impl View for AllocationGroupMetadata {
    type V = (AllocationGroupId, Option<GroupTags>);

    closed spec fn view(&self) -> (AllocationGroupId, Option<GroupTags>) {
        (self.id, self.tags)
    }
}

impl AllocationGroupMetadata {
    /// The allocation group.
    pub fn id(&self) -> (id: AllocationGroupId)
        ensures
            id == self@.0,
    {
        self.id
    }

    /// The tags of the group, if it has any.
    pub fn tags(&self) -> (tags: Option<GroupTags>)
        ensures
            tags == self@.1,
    {
        self.tags
    }
}

/// The active allocation group of `thread` and its tags, provided that a group is active and that
/// something was ever registered.
pub open spec fn active_allocation_group(registry: RegistryView, thread: ThreadView) -> Option<
    (AllocationGroupId, Option<GroupTags>),
> {
    match thread.current {
        Some(id) if registry.published is Some => Some((id, registry.tags_at(id.index() as int))),
        _ => None,
    }
}

/// Gets the current allocation group, if one is active, and any metadata associated with it.
pub fn get_active_allocation_group(
    registry: &SharedTokenRegistry,
    thread: &ThreadState,
) -> (metadata: Option<AllocationGroupMetadata>)
    ensures
        metadata is Some <==> active_allocation_group(registry@, thread@) is Some,
        metadata matches Some(metadata) ==> Some(metadata@) == active_allocation_group(
            registry@,
            thread@,
        ),
{
    // See if there's an active allocation token on this thread.
    match thread.current() {
        None => None,
        Some(id) => {
            // Try and grab the tags from the registry.
            match registry.get_token_registry() {
                None => None,
                Some(groups) => {
                    let tags = if id.0 < groups.len() {
                        groups[id.0]
                    } else {
                        None
                    };
                    Some(AllocationGroupMetadata { id, tags })
                },
            }
        },
    }
}

} // verus!
