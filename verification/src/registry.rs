//! The token registry, which maps allocation groups to the tags that describe who or what the
//! allocations tied to a group belong to.
//!
//! Readers take a snapshot of the registry. A writer copies the registry, appends to the copy, and
//! publishes the copy in place of what was there, so a snapshot never changes underneath its
//! reader.
use std::borrow::Cow;
use std::sync::Arc;

use vstd::prelude::*;

use crate::thread::ThreadState;

verus! {

/// Tags of an allocation group: key/value pairs that live as long as the process.
pub type GroupTags = &'static [(&'static str, &'static str)];

/// The tags of every registered allocation group. A group's ID is its index.
pub type TokenRegistry = Vec<Option<GroupTags>>;

/// Whether somebody holds the right to publish a new registry.
#[derive(Clone, Copy, Debug, PartialEq, Eq, Structural)]
pub enum RegistryPhase {
    /// Nobody does.
    Stable,
    /// Somebody is putting a new registry together.
    Modifying,
}

/// Abstract state of the token registry.
pub struct RegistryView {
    /// Whether an update is going on.
    pub phase: RegistryPhase,
    /// The registry that readers get, or `None` if nothing was ever registered.
    pub published: Option<Seq<Option<GroupTags>>>,
}

impl RegistryView {
    /// Nothing was ever registered, and nobody is about to.
    pub open spec fn fresh() -> Self {
        RegistryView { phase: RegistryPhase::Stable, published: None }
    }

    /// The tags of every registered group, in the order of their IDs.
    pub open spec fn groups(self) -> Seq<Option<GroupTags>> {
        match self.published {
            Some(groups) => groups,
            None => Seq::empty(),
        }
    }

    /// The tags of the group at `index`, or `None` if it has none or is not registered.
    pub open spec fn tags_at(self, index: int) -> Option<GroupTags> {
        if 0 <= index < self.groups().len() {
            self.groups()[index]
        } else {
            None
        }
    }

    /// What trying to become the one writer makes of the registry.
    pub open spec fn claimed(self) -> Self {
        RegistryView { phase: RegistryPhase::Modifying, ..self }
    }

    /// What publishing `groups` makes of the registry.
    pub open spec fn with_published(self, groups: Seq<Option<GroupTags>>) -> Self {
        RegistryView { published: Some(groups), ..self }
    }

    /// What giving up the right to publish makes of the registry.
    pub open spec fn released(self) -> Self {
        RegistryView { phase: RegistryPhase::Stable, ..self }
    }

    /// What registering one more group with `tags` makes of the registry.
    pub open spec fn registered(self, tags: Option<GroupTags>) -> Self {
        self.with_published(self.groups().push(tags))
    }
}

/// What a snapshot of the registry holds.
pub open spec fn snapshot_groups(snapshot: Option<Arc<TokenRegistry>>) -> Option<
    Seq<Option<GroupTags>>,
> {
    match snapshot {
        Some(registry) => Some(registry@),
        None => None,
    }
}

/// Whether `text` is what a clone of `value` converts to.
pub open spec fn converts_to<K: Into<Cow<'static, str>> + Clone>(value: K, text: Seq<char>) -> bool {
    exists|copy: K, converted: Cow<'static, str>|
        #![trigger call_ensures(K::into, (copy,), converted)]
        cloned(value, copy) && call_ensures(K::into, (copy,), converted) && converted@ == text
}

/// Whether `texts` holds, pair by pair and in order, what the pairs in `tags` convert to.
pub open spec fn tags_convert_to<K, V>(
    tags: Seq<(K, V)>,
    texts: Seq<(&'static str, &'static str)>,
) -> bool where K: Into<Cow<'static, str>> + Clone, V: Into<Cow<'static, str>> + Clone {
    &&& texts.len() == tags.len()
    &&& forall|i: int|
        0 <= i < tags.len() ==> converts_to((#[trigger] tags[i]).0, texts[i].0@) && converts_to(
            tags[i].1,
            texts[i].1@,
        )
}

/// Calls `String::leak`: the contents of `text` as a string slice that lives as long as the
/// process.
#[verifier::external_body]
fn leak_text(text: String) -> (leaked: &'static str)
    ensures
        leaked@ == text@,
{
    text.leak()
}

/// Calls `Vec::leak`: the items of `tags`, in order, as a slice that lives as long as the process.
#[verifier::external_body]
fn leak_tags(tags: Vec<(&'static str, &'static str)>) -> (leaked: GroupTags)
    ensures
        leaked@ == tags@,
{
    tags.leak()
}

/// Turns `text` into a string slice that lives as long as the process.
///
/// A borrowed text is such a slice already. An owned text is leaked.
pub fn static_text(text: Cow<'static, str>) -> (leaked: &'static str)
    ensures
        leaked@ == text@,
        text matches Cow::Borrowed(borrowed) ==> leaked == borrowed,
{
    match text {
        Cow::Borrowed(borrowed) => borrowed,
        Cow::Owned(owned) => leak_text(owned),
    }
}

/// Marks `thread` as being in the middle of updating the token registry.
///
/// Registering a group begins with this.
pub fn begin_registration(thread: &mut ThreadState)
    ensures
        final(thread)@ == old(thread)@.with_rcu_in_flight(true),
        final(thread)@.rcu_in_flight,
        final(thread)@.current == old(thread)@.current,
        final(thread)@.suspended == old(thread)@.suspended,
        final(thread)@.delivered == old(thread)@.delivered,
{
    thread.set_rcu_in_flight(true);
}

/// Marks `thread` as no longer being in the middle of updating the token registry.
///
/// Registering a group ends with this.
pub fn end_registration(thread: &mut ThreadState)
    ensures
        final(thread)@ == old(thread)@.with_rcu_in_flight(false),
        !final(thread)@.rcu_in_flight,
        final(thread)@.current == old(thread)@.current,
        final(thread)@.suspended == old(thread)@.suspended,
        final(thread)@.delivered == old(thread)@.delivered,
{
    thread.set_rcu_in_flight(false);
}

/// Turns every key and value in `tags` into a string slice that lives as long as the process, and the
/// pairs into a slice that does.
///
/// This allocates, so the registration that it is for must have begun.
pub fn static_tags<K, V>(thread: &ThreadState, tags: &[(K, V)]) -> (leaked: GroupTags) where
    K: Into<Cow<'static, str>> + Clone,
    V: Into<Cow<'static, str>> + Clone,

    requires
        thread@.rcu_in_flight,
    ensures
        tags_convert_to(tags@, leaked@),
        leaked@.len() == tags@.len(),
        forall|i: int|
            0 <= i < tags@.len() ==> converts_to((#[trigger] tags@[i]).0, leaked@[i].0@)
                && converts_to(tags@[i].1, leaked@[i].1@),
{
    let mut texts: Vec<(&'static str, &'static str)> = Vec::new();
    let count: usize = tags.len();
    let mut i: usize = 0;
    while i < count
        invariant
            count == tags@.len(),
            i <= count,
            tags_convert_to(tags@.take(i as int), texts@),
        decreases count - i,
    {
        let key = tags[i].0.clone();
        let value = tags[i].1.clone();
        assert(cloned(tags@[i as int].0, key) && cloned(tags@[i as int].1, value));
        let key: Cow<'static, str> = key.into();
        let value: Cow<'static, str> = value.into();
        let key = static_text(key);
        let value = static_text(value);
        texts.push((key, value));
        assert forall|j: int| 0 <= j < i + 1 implies converts_to(
            (#[trigger] tags@.take(i + 1)[j]).0,
            texts@[j].0@,
        ) && converts_to(tags@.take(i + 1)[j].1, texts@[j].1@) by {
            if j < i {
                assert(tags@.take(i as int)[j] == tags@[j]);
            }
        }
        i += 1;
    }
    assert(tags@.take(count as int) == tags@);
    leak_tags(texts)
}

/// Builds the registry that has one more group than `snapshot`, and returns it with the ID of
/// that group.
fn appended(snapshot: Option<Arc<TokenRegistry>>, tags: Option<GroupTags>) -> (result: (
    TokenRegistry,
    usize,
))
    ensures
        ({
            let groups = match snapshot_groups(snapshot) {
                Some(groups) => groups,
                None => Seq::empty(),
            };
            &&& result.0@ == groups.push(tags)
            &&& result.1 == groups.len()
            &&& result.1 < usize::MAX
        }),
{
    let mut registry: TokenRegistry = Vec::new();
    if let Some(current) = snapshot {
        let count: usize = current.len();
        let mut i: usize = 0;
        while i < count
            invariant
                count == current@.len(),
                i <= count,
                registry@ == current@.take(i as int),
            decreases count - i,
        {
            registry.push(current[i]);
            i += 1;
        }
        assert(current@.take(count as int) == current@);
    }
    let id: usize = registry.len();
    registry.push(tags);
    assert(registry.len() == id + 1);
    (registry, id)
}

/// The place where a registry is published, and who may publish there.
struct RegistryCell {
    published: Option<Arc<TokenRegistry>>,
    phase: RegistryPhase,
}

impl RegistryCell {
    spec fn view(&self) -> RegistryView {
        RegistryView { phase: self.phase, published: snapshot_groups(self.published) }
    }

    /// A place where nothing has been published yet.
    fn new() -> (cell: Self)
        ensures
            cell@ == RegistryView::fresh(),
    {
        RegistryCell { published: None, phase: RegistryPhase::Stable }
    }

    /// Takes a snapshot of what is published, if anything is.
    fn snapshot(&self) -> (snapshot: Option<Arc<TokenRegistry>>)
        ensures
            snapshot_groups(snapshot) == self@.published,
    {
        match &self.published {
            Some(registry) => Some(Arc::clone(registry)),
            None => None,
        }
    }

    /// Takes ownership of modifying the registry, unless somebody else has it.
    fn try_claim(&mut self) -> (claimed: bool)
        ensures
            claimed == (old(self)@.phase == RegistryPhase::Stable),
            final(self)@ == if claimed {
                old(self)@.claimed()
            } else {
                old(self)@
            },
    {
        if self.phase == RegistryPhase::Stable {
            self.phase = RegistryPhase::Modifying;
            true
        } else {
            false
        }
    }

    /// Publishes `registry` in place of what was published before.
    fn swap(&mut self, registry: TokenRegistry)
        requires
            old(self)@.phase == RegistryPhase::Modifying,
        ensures
            final(self)@ == old(self)@.with_published(registry@),
    {
        self.published = Some(Arc::new(registry));
    }

    /// Releases ownership of modifying the registry.
    fn release(&mut self)
        requires
            old(self)@.phase == RegistryPhase::Modifying,
        ensures
            final(self)@ == old(self)@.released(),
    {
        self.phase = RegistryPhase::Stable;
    }

    /// Publishes a registry with one more group, and returns the ID of that group.
    ///
    /// This allocates, so the registration that it is for must have begun.
    fn append(&mut self, thread: &ThreadState, tags: Option<GroupTags>) -> (id: usize)
        requires
            thread@.rcu_in_flight,
            old(self)@.phase == RegistryPhase::Stable,
        ensures
            id == old(self)@.groups().len(),
            id < usize::MAX,
            final(self)@ == old(self)@.registered(tags),
    {
        // First, take ownership of modifying the registry:
        let claimed = self.try_claim();
        assert(claimed);

        // Now we can copy the existing registry and build the new token:
        let (registry, id) = appended(self.snapshot(), tags);

        // Now we need to store the new registry:
        self.swap(registry);

        // And release our ownership for modifying the registry:
        self.release();

        id
    }
}

/// The token registry that is shared by all threads.
///
/// Whoever has the exclusive reference that registering a group takes finds the registry stable.
pub struct SharedTokenRegistry {
    cell: RegistryCell,
}

impl View for SharedTokenRegistry {
    type V = RegistryView;

    closed spec fn view(&self) -> RegistryView {
        self.cell@
    }
}

impl SharedTokenRegistry {
    #[verifier::type_invariant]
    spec fn stable(self) -> bool {
        self.cell@.phase == RegistryPhase::Stable
    }

    /// A registry in which nothing has been registered yet.
    pub fn new() -> (registry: Self)
        ensures
            registry@ == RegistryView::fresh(),
    {
        SharedTokenRegistry { cell: RegistryCell::new() }
    }

    /// Takes a snapshot of the registry, unless nothing was ever registered.
    pub fn get_token_registry(&self) -> (snapshot: Option<Arc<TokenRegistry>>)
        ensures
            snapshot_groups(snapshot) == self@.published,
    {
        self.cell.snapshot()
    }

    /// Publishes a registry with one more group, and returns the ID of that group.
    ///
    /// This allocates, so the registration that it is for must have begun.
    pub fn append(&mut self, thread: &ThreadState, tags: Option<GroupTags>) -> (id: usize)
        requires
            thread@.rcu_in_flight,
        ensures
            id == old(self)@.groups().len(),
            id < usize::MAX,
            final(self)@ == old(self)@.registered(tags),
    {
        proof {
            use_type_invariant(&*self);
        }
        let mut cell = RegistryCell::new();
        std::mem::swap(&mut cell, &mut self.cell);
        let id: usize = cell.append(thread, tags);
        self.cell = cell;
        id
    }

    /// Registers an allocation group whose tags are static already, and returns its ID.
    ///
    /// While the registry is being updated, the thread is marked as such.
    pub fn register_static_token(
        &mut self,
        thread: &mut ThreadState,
        tags: Option<GroupTags>,
    ) -> (id: usize)
        ensures
            id == old(self)@.groups().len(),
            id < usize::MAX,
            final(self)@ == old(self)@.registered(tags),
            final(thread)@ == old(thread)@.with_rcu_in_flight(false),
            !final(thread)@.rcu_in_flight,
            final(thread)@.current == old(thread)@.current,
            final(thread)@.suspended == old(thread)@.suspended,
            final(thread)@.delivered == old(thread)@.delivered,
    {
        begin_registration(thread);

        let id: usize = self.append(thread, tags);

        end_registration(thread);
        id
    }

    /// Registers an allocation group, and returns its ID.
    ///
    /// Tags that are not static already are leaked in order to make them so. While that is done
    /// and the registry is being updated, the thread is marked as such.
    pub fn register_token<K, V>(
        &mut self,
        thread: &mut ThreadState,
        tags: Option<&[(K, V)]>,
    ) -> (id: usize) where
        K: Into<Cow<'static, str>> + Clone,
        V: Into<Cow<'static, str>> + Clone,

        ensures
            id == old(self)@.groups().len(),
            id < usize::MAX,
            final(self)@ == old(self)@.registered(final(self)@.tags_at(id as int)),
            match tags {
                None => final(self)@.tags_at(id as int) is None,
                Some(tags) => final(self)@.tags_at(id as int) matches Some(leaked)
                    && tags_convert_to(tags@, leaked@),
            },
            tags matches Some(tags) ==> {
                let leaked = final(self)@.tags_at(id as int)->Some_0@;
                &&& leaked.len() == tags@.len()
                &&& forall|i: int|
                    0 <= i < tags@.len() ==> converts_to((#[trigger] tags@[i]).0, leaked[i].0@)
                        && converts_to(tags@[i].1, leaked[i].1@)
            },
            final(thread)@ == old(thread)@.with_rcu_in_flight(false),
            !final(thread)@.rcu_in_flight,
            final(thread)@.current == old(thread)@.current,
            final(thread)@.suspended == old(thread)@.suspended,
            final(thread)@.delivered == old(thread)@.delivered,
    {
        begin_registration(thread);

        let tags = match tags {
            None => None,
            Some(tags) => Some(static_tags(thread, tags)),
        };
        let id: usize = self.append(thread, tags);

        end_registration(thread);
        id
    }
}

} // verus!
