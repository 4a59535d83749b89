# tracking-allocator

An allocator that provides the ability to track allocation events, with its logic written and proved
in [Verus](https://github.com/verus-lang/verus).

Allocations and deallocations are reported to an `AllocationTracker`. Each is attributed to the
allocation group that is active on the thread, and comes with the tags that the group was registered
with. Groups are entered and exited with tokens and guards, and nest like a stack.

## layout

`src/` is the library. Nothing in it is global: every operation takes the state that it works on.

- `token`: allocation group IDs, tokens and guards
- `registry`: the token registry, which keeps the tags of every group
- `thread`: what a thread carries: its active group, and whether it reports
- `tracker`: the tracker trait, the tracker that is installed, and whether tracking is enabled
- `allocator`: what is reported of an allocation or a deallocation
- `stack`: a stack of allocation groups
- `laws`, `nesting`, `interleaving`: what holds of the library as a whole, of guards within guards,
  and of several threads at once

`app/` puts the library to work: it holds the global and thread-local state, and implements
`GlobalAlloc`.

## what counts as reported

An allocation is reported if a tracker is set, tracking is enabled, a group is active on the thread,
and the thread is neither calling a tracker nor updating the token registry. A deallocation is
reported under the same conditions, except that without an active group it is attributed to the root
group. It comes with its size and with the group in which the allocation was made, which is kept
inline with the allocation.
