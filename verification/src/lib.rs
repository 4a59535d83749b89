//! # tracking-allocator
//!
//! This crate provides what an allocator needs that allows users to trace allocations and
//! deallocations directly.  Allocation tokens can also be registered, which allows users to get an
//! identifier that has associated metadata, which when used, can enhance the overall tracking of
//! allocations.
//!
//! ## high-level usage
//!
//! `tracking-allocator` has three main components:
//! - [`Allocator`], which wraps another allocator and reports its allocations and deallocations
//! - the [`AllocationTracker`] trait, which defines an interface for receiving allocation and
//!   deallocation events
//! - [`AllocationGroupToken`] which is used to associate allocation events with a logical group
//!
//! These components all work in tandem together.  Once the allocator is installed, an appropriate
//! tracker implementation can also be installed to handle the allocation and deallocation events as
//! desired, whether you're simply tracking the frequency of allocations, or trying to track the
//! real-time usage of different allocation groups.  Allocation groups can be created on-demand, and
//! with optional string key/values for metadata.
//!
//! Additionally, tracking can be enabled and disabled at runtime, allowing you to make the choice
//! of when to incur the performance overhead of tracking.
//!
//! ## state
//!
//! Nothing in here is global.  What the whole process shares is held by an [`AllocationRegistry`]
//! and a [`SharedTokenRegistry`], and what belongs to a single thread by a [`ThreadState`].  Every
//! operation takes the state that it reads or changes, and its contract says how.
pub mod allocator;
pub mod interleaving;
pub mod laws;
pub mod nesting;
pub mod operations;
pub mod registry;
pub mod stack;
pub mod thread;
pub mod token;
pub mod tracker;
pub mod util;

pub use crate::allocator::allocation_group;
pub use crate::allocator::begin_allocation;
pub use crate::allocator::begin_deallocation;
pub use crate::allocator::finish_event;
pub use crate::allocator::Allocator;
pub use crate::registry::GroupTags;
pub use crate::registry::SharedTokenRegistry;
pub use crate::stack::GroupStack;
pub use crate::thread::Suspension;
pub use crate::thread::ThreadState;
pub use crate::token::AllocationGroupId;
pub use crate::token::AllocationGroupToken;
pub use crate::token::AllocationGuard;
pub use crate::tracker::AllocationEvent;
pub use crate::tracker::AllocationRegistry;
pub use crate::tracker::AllocationTracker;
pub use crate::tracker::SetTrackerError;
