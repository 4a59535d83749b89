//! What holds when several threads take the steps of registering groups, or of setting the tracker,
//! in any order.
//!
//! The steps are those that the operations are made of. Each of them is atomic, and between two
//! steps of one thread any other thread may take any number of its own.
use vstd::prelude::*;

use crate::registry::GroupTags;
use crate::registry::RegistryPhase;
use crate::registry::RegistryView;
use crate::thread::ThreadView;
use crate::tracker::InitState;
use crate::tracker::TrackingView;

verus! {

/// How far a thread has come with registering a group.
pub enum WriterState {
    /// It has begun, and is marked as updating the registry.
    Begun,
    /// It has taken ownership of modifying the registry.
    Claimed,
    /// It has taken a snapshot of the registry.
    Copied(Seq<Option<GroupTags>>),
    /// It has published its own registry.
    Published,
    /// It has released ownership.
    Released,
}

impl WriterState {
    /// Whether a thread that has come so far owns the registry.
    pub open spec fn owns(self) -> bool {
        self is Claimed || self is Copied || self is Published
    }
}

/// A step that a thread may take.
pub enum WriterStep {
    /// Begin to register a group.
    Begin,
    /// Try to take ownership of modifying the registry.
    Claim,
    /// Take a snapshot of the registry.
    Copy,
    /// Append a group to the snapshot, and publish the result.
    Publish(Option<GroupTags>),
    /// Release ownership.
    Release,
    /// Be done with registering the group.
    End,
    /// Do anything else, such as entering and exiting groups, and get into the given state but for
    /// the mark.
    Other(ThreadView),
}

/// A registration that has been published.
pub struct Registration {
    /// The thread that registered the group.
    pub writer: int,
    /// The ID that it was given.
    pub id: int,
    /// The tags that it registered.
    pub tags: Option<GroupTags>,
}

/// The token registry and all threads.
pub struct Writers {
    /// The registry.
    pub registry: RegistryView,
    /// The threads that are registering a group, and how far they have come.
    pub active: Map<int, WriterState>,
    /// The threads that have done something.
    pub threads: Map<int, ThreadView>,
    /// What has been published so far.
    pub done: Seq<Registration>,
}

impl Writers {
    /// Nothing was registered yet.
    pub open spec fn fresh() -> Self {
        Writers {
            registry: RegistryView::fresh(),
            active: Map::empty(),
            threads: Map::empty(),
            done: Seq::empty(),
        }
    }

    /// The state of a thread.
    pub open spec fn thread(self, writer: int) -> ThreadView {
        if self.threads.dom().contains(writer) {
            self.threads[writer]
        } else {
            ThreadView::fresh()
        }
    }

    /// Whether a thread is registering a group.
    pub open spec fn registering(self, writer: int) -> bool {
        self.active.dom().contains(writer)
    }

    /// Whether a thread owns the registry.
    pub open spec fn owns(self, writer: int) -> bool {
        self.registering(writer) && self.active[writer].owns()
    }

    /// What `step` of `writer` makes of the state. A step that is not the next one for `writer`
    /// changes nothing, and neither does trying to take an ownership that is taken.
    pub open spec fn after(self, writer: int, step: WriterStep) -> Self {
        match step {
            WriterStep::Begin => if !self.registering(writer) {
                Writers {
                    active: self.active.insert(writer, WriterState::Begun),
                    threads: self.threads.insert(
                        writer,
                        self.thread(writer).with_rcu_in_flight(true),
                    ),
                    ..self
                }
            } else {
                self
            },
            WriterStep::Claim => if self.registering(writer) && self.active[writer] is Begun
                && self.registry.phase == RegistryPhase::Stable {
                Writers {
                    registry: self.registry.claimed(),
                    active: self.active.insert(writer, WriterState::Claimed),
                    ..self
                }
            } else {
                self
            },
            WriterStep::Copy => if self.registering(writer) && self.active[writer] is Claimed {
                Writers {
                    active: self.active.insert(
                        writer,
                        WriterState::Copied(self.registry.groups()),
                    ),
                    ..self
                }
            } else {
                self
            },
            WriterStep::Publish(tags) => if self.registering(writer)
                && self.active[writer] is Copied {
                let copy = self.active[writer]->Copied_0;
                Writers {
                    registry: self.registry.with_published(copy.push(tags)),
                    active: self.active.insert(writer, WriterState::Published),
                    done: self.done.push(Registration { writer, id: copy.len() as int, tags }),
                    ..self
                }
            } else {
                self
            },
            WriterStep::Release => if self.registering(writer)
                && self.active[writer] is Published {
                Writers {
                    registry: self.registry.released(),
                    active: self.active.insert(writer, WriterState::Released),
                    ..self
                }
            } else {
                self
            },
            WriterStep::End => if self.registering(writer) && self.active[writer] is Released {
                Writers {
                    active: self.active.remove(writer),
                    threads: self.threads.insert(
                        writer,
                        self.thread(writer).with_rcu_in_flight(false),
                    ),
                    ..self
                }
            } else {
                self
            },
            WriterStep::Other(thread) => Writers {
                threads: self.threads.insert(
                    writer,
                    thread.with_rcu_in_flight(self.thread(writer).rcu_in_flight),
                ),
                ..self
            },
        }
    }

    /// What a whole sequence of steps makes of the state.
    pub open spec fn after_all(self, steps: Seq<(int, WriterStep)>) -> Self
        decreases steps.len(),
    {
        if steps.len() == 0 {
            self
        } else {
            self.after_all(steps.drop_last()).after(steps.last().0, steps.last().1)
        }
    }

    /// At most one thread owns the registry, a copy that has not been published yet is up to date,
    /// the registry holds exactly what has been published, at the IDs that were given out, and
    /// exactly the threads that are registering a group are marked as updating the registry.
    pub open spec fn consistent(self) -> bool {
        &&& self.registry.phase == RegistryPhase::Stable <==> (forall|a: int|
            !#[trigger] self.owns(a))
        &&& forall|a: int, b: int| #[trigger] self.owns(a) && #[trigger] self.owns(b) ==> a == b
        &&& forall|a: int| #[trigger]
            self.owns(a) && self.active[a] is Copied ==> self.active[a]->Copied_0
                == self.registry.groups()
        &&& self.done.len() == self.registry.groups().len()
        &&& forall|i: int|
            0 <= i < self.done.len() ==> (#[trigger] self.done[i]).id == i && self.done[i].tags
                == self.registry.groups()[i]
        &&& forall|a: int| #[trigger] self.thread(a).rcu_in_flight <==> self.registering(a)
    }
}

/// Every step of every thread keeps the registry and the threads consistent.
proof fn lemma_writer_step_keeps_consistency(writers: Writers, writer: int, step: WriterStep)
    requires
        writers.consistent(),
    ensures
        writers.after(writer, step).consistent(),
{
    let after = writers.after(writer, step);
    assert forall|a: int| a != writer implies #[trigger] after.owns(a) == writers.owns(a) by {}
    assert forall|a: int| a != writer implies #[trigger] after.thread(a) == writers.thread(a) by {}
    assert(writers.thread(writer).rcu_in_flight <==> writers.registering(writer));
    assert(after.thread(writer).rcu_in_flight <==> after.registering(writer));
    assert(writers.owns(writer) ==> writers.registry.phase == RegistryPhase::Modifying);
    if after.owns(writer) {
        assert(after.registry.phase == RegistryPhase::Modifying);
        assert(writers.owns(writer) || writers.registry.phase == RegistryPhase::Stable);
        assert forall|a: int| a != writer implies !#[trigger] after.owns(a) by {
            assert(!writers.owns(a));
        }
    } else if writers.owns(writer) {
        assert(after.registry.phase == RegistryPhase::Stable);
        assert forall|a: int| !#[trigger] after.owns(a) by {
            if a != writer {
                assert(!writers.owns(a));
            }
        }
    } else {
        assert(after.registry == writers.registry);
        assert forall|a: int| #[trigger] after.owns(a) == writers.owns(a) by {}
        if after.registry.phase != RegistryPhase::Stable {
            let owner = choose|a: int| writers.owns(a);
            assert(after.owns(owner));
        }
    }
}

/// Whatever steps the threads take, in whatever order, the registry and the threads are consistent.
///
/// In particular, at no time do two threads own the registry.
pub proof fn law_writers_stay_consistent(steps: Seq<(int, WriterStep)>)
    ensures
        Writers::fresh().after_all(steps).consistent(),
    decreases steps.len(),
{
    if steps.len() > 0 {
        law_writers_stay_consistent(steps.drop_last());
        lemma_writer_step_keeps_consistency(
            Writers::fresh().after_all(steps.drop_last()),
            steps.last().0,
            steps.last().1,
        );
    }
}

/// No registration is lost, and no two registrations get the same ID, however the threads that make
/// them interleave.
pub proof fn law_no_registration_is_lost(steps: Seq<(int, WriterStep)>, i: int, j: int)
    requires
        0 <= i < Writers::fresh().after_all(steps).done.len(),
        0 <= j < Writers::fresh().after_all(steps).done.len(),
    ensures
        ({
            let writers = Writers::fresh().after_all(steps);
            &&& writers.registry.tags_at(writers.done[i].id) == writers.done[i].tags
            &&& writers.done[i].id == writers.done[j].id ==> i == j
        }),
{
    law_writers_stay_consistent(steps);
}

/// What was published once stays published: a later registry begins with every earlier one.
///
/// So whoever still reads an old snapshot sees what the current registry says of the groups in it.
pub proof fn law_registry_only_grows(steps: Seq<(int, WriterStep)>, later: Seq<(int, WriterStep)>)
    ensures
        Writers::fresh().after_all(steps).registry.groups().is_prefix_of(
            Writers::fresh().after_all(steps + later).registry.groups(),
        ),
    decreases later.len(),
{
    if later.len() == 0 {
        assert(steps + later == steps);
    } else {
        let all = steps + later;
        law_registry_only_grows(steps, later.drop_last());
        law_writers_stay_consistent(all.drop_last());
        assert(all.drop_last() == steps + later.drop_last());
        assert(all.last() == later.last());
        let before = Writers::fresh().after_all(all.drop_last());
        let writer = all.last().0;
        assert(before.owns(writer) && before.active[writer] is Copied
            ==> before.active[writer]->Copied_0 == before.registry.groups());
    }
}

/// A thread is marked as updating the registry exactly while it is registering a group: not before
/// its first registration, not after one has ended, and not while other threads register groups.
pub proof fn law_marked_exactly_while_registering(steps: Seq<(int, WriterStep)>, writer: int)
    ensures
        Writers::fresh().after_all(steps).thread(writer).rcu_in_flight
            <==> Writers::fresh().after_all(steps).registering(writer),
{
    law_writers_stay_consistent(steps);
}

/// When nobody else owns the registry, the steps of one thread add up to registering a group.
pub proof fn law_steps_add_up_to_registration(
    writers: Writers,
    writer: int,
    tags: Option<GroupTags>,
)
    requires
        writers.consistent(),
        writers.registry.phase == RegistryPhase::Stable,
        !writers.registering(writer),
    ensures
        ({
            let after = writers.after(writer, WriterStep::Begin).after(
                writer,
                WriterStep::Claim,
            ).after(writer, WriterStep::Copy).after(writer, WriterStep::Publish(tags)).after(
                writer,
                WriterStep::Release,
            ).after(writer, WriterStep::End);
            &&& after.registry == writers.registry.registered(tags)
            &&& after.active == writers.active
            &&& after.thread(writer) == writers.thread(writer).with_rcu_in_flight(false)
            &&& after.done == writers.done.push(
                Registration { writer, id: writers.registry.groups().len() as int, tags },
            )
        }),
{
    let after = writers.after(writer, WriterStep::Begin).after(writer, WriterStep::Claim).after(
        writer,
        WriterStep::Copy,
    ).after(writer, WriterStep::Publish(tags)).after(writer, WriterStep::Release).after(
        writer,
        WriterStep::End,
    );
    assert(after.active == writers.active);
}

/// How far a thread has come with setting the global tracker.
pub enum SetterState<T> {
    /// It has taken the right to set its tracker.
    Claimed(T),
    /// It has stored its tracker.
    Stored(T),
}

/// A step that a thread may take in order to set the global tracker, or to switch tracking.
pub enum SetterStep<T> {
    /// Try to take the right to set the given tracker.
    Claim(T),
    /// Store the tracker.
    Store,
    /// Declare the tracker to be there.
    Complete,
    /// Enable or disable tracking.
    Switch(bool),
}

/// The tracking state and all threads that are setting the global tracker.
pub struct Setters<T> {
    /// The tracking state.
    pub tracking: TrackingView<T>,
    /// The threads that hold the right to set the tracker, and how far they have come.
    pub active: Map<int, SetterState<T>>,
    /// The trackers whose threads got the right to set them.
    pub accepted: Seq<T>,
}

impl<T> Setters<T> {
    /// No tracker was set yet.
    pub open spec fn fresh() -> Self {
        Setters { tracking: TrackingView::fresh(), active: Map::empty(), accepted: Seq::empty() }
    }

    /// What `step` of `setter` makes of the state. A step that is not the next one for `setter`
    /// changes nothing, and neither does trying to take a right that is taken.
    pub open spec fn after(self, setter: int, step: SetterStep<T>) -> Self {
        match step {
            SetterStep::Claim(tracker) => if !self.active.dom().contains(setter)
                && self.tracking.init == InitState::Uninitialized {
                Setters {
                    tracking: self.tracking.claimed(),
                    active: self.active.insert(setter, SetterState::Claimed(tracker)),
                    accepted: self.accepted.push(tracker),
                }
            } else {
                self
            },
            SetterStep::Store => if self.active.dom().contains(setter)
                && self.active[setter] is Claimed {
                let tracker = self.active[setter]->Claimed_0;
                Setters {
                    tracking: self.tracking.with_tracker(Some(tracker)),
                    active: self.active.insert(setter, SetterState::Stored(tracker)),
                    ..self
                }
            } else {
                self
            },
            SetterStep::Complete => if self.active.dom().contains(setter)
                && self.active[setter] is Stored {
                Setters {
                    tracking: self.tracking.completed(),
                    active: self.active.remove(setter),
                    ..self
                }
            } else {
                self
            },
            SetterStep::Switch(enabled) => Setters {
                tracking: self.tracking.with_enabled(enabled),
                ..self
            },
        }
    }

    /// What a whole sequence of steps makes of the state.
    pub open spec fn after_all(self, steps: Seq<(int, SetterStep<T>)>) -> Self
        decreases steps.len(),
    {
        if steps.len() == 0 {
            self
        } else {
            self.after_all(steps.drop_last()).after(steps.last().0, steps.last().1)
        }
    }

    /// Only one tracker is ever accepted, its thread alone stores it, and once it is declared to be
    /// there, it is.
    pub open spec fn consistent(self) -> bool {
        &&& self.tracking.init == InitState::Initializing <==> self.active.dom()
            != Set::<int>::empty()
        &&& forall|a: int, b: int|
            self.active.dom().contains(a) && self.active.dom().contains(b) ==> a == b
        &&& self.accepted.len() == if self.tracking.init == InitState::Uninitialized {
            0nat
        } else {
            1nat
        }
        &&& forall|a: int| #[trigger]
            self.active.dom().contains(a) ==> match self.active[a] {
                SetterState::Claimed(tracker) => self.accepted[0] == tracker,
                SetterState::Stored(tracker) => self.accepted[0] == tracker && self.tracking.tracker
                    == Some(tracker),
            }
        &&& self.tracking.init == InitState::Initialized ==> self.tracking.tracker == Some(
            self.accepted[0],
        )
    }
}

/// Every step of every thread keeps the tracking state and the threads consistent.
proof fn lemma_setter_step_keeps_consistency<T>(
    setters: Setters<T>,
    setter: int,
    step: SetterStep<T>,
)
    requires
        setters.consistent(),
    ensures
        setters.after(setter, step).consistent(),
{
    let after = setters.after(setter, step);
    match step {
        SetterStep::Claim(tracker) => {
            assert(after.active.dom().contains(setter) || after == setters);
        },
        SetterStep::Store => {
            assert(after.active.dom() == setters.active.dom());
        },
        SetterStep::Complete => {
            if setters.active.dom().contains(setter) {
                assert(setters.active.dom().remove(setter) == Set::<int>::empty());
            }
        },
        SetterStep::Switch(enabled) => {},
    }
}

/// Whatever steps the threads take, in whatever order, the tracking state and the threads are
/// consistent.
pub proof fn law_setters_stay_consistent<T>(steps: Seq<(int, SetterStep<T>)>)
    ensures
        Setters::fresh().after_all(steps).consistent(),
    decreases steps.len(),
{
    if steps.len() > 0 {
        law_setters_stay_consistent(steps.drop_last());
        lemma_setter_step_keeps_consistency(
            Setters::fresh().after_all(steps.drop_last()),
            steps.last().0,
            steps.last().1,
        );
    }
}

/// However many threads try to set the global tracker, at most one succeeds, and whoever looks for
/// the tracker finds either none or the one that succeeded.
pub proof fn law_at_most_one_tracker_is_set<T>(steps: Seq<(int, SetterStep<T>)>)
    ensures
        ({
            let setters = Setters::fresh().after_all(steps);
            &&& setters.accepted.len() <= 1
            &&& setters.tracking.well_formed()
            &&& setters.tracking.active_tracker() matches Some(tracker) ==> setters.accepted
                == seq![tracker]
        }),
{
    law_setters_stay_consistent(steps);
}

/// When nobody else is at it, the steps of one thread add up to setting the tracker.
pub proof fn law_steps_add_up_to_setting<T>(setters: Setters<T>, setter: int, tracker: T)
    requires
        setters.consistent(),
        setters.tracking.init == InitState::Uninitialized,
    ensures
        ({
            let after = setters.after(setter, SetterStep::Claim(tracker)).after(
                setter,
                SetterStep::Store,
            ).after(setter, SetterStep::Complete);
            &&& after.tracking == setters.tracking.after_set(tracker)
            &&& after.active == setters.active
            &&& after.accepted == setters.accepted.push(tracker)
        }),
{
    let after = setters.after(setter, SetterStep::Claim(tracker)).after(
        setter,
        SetterStep::Store,
    ).after(setter, SetterStep::Complete);
    assert(after.active == setters.active);
}

} // verus!
