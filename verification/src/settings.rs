//! Settings of the whole process.

use vstd::prelude::*;

use crate::listener::sighandler::SighandlerState;
use crate::listener::sighandler::MAX_PERF_TIMEOUT_THREAD_COUNT;
use crate::util::fixed_map::EMPTY_KEY;

verus! {

/// Sets the most runs with an instruction limit that may be supervised at
/// the same time, by setting up the routing state of the process for that
/// many. As long as fewer runs than that have registered their counter,
/// every further one can.
///
/// This is done once, before the first such run: the state must not be set
/// up already, and the number cannot be changed afterwards.
pub fn set_perf_timeout_thread_count(state: &mut SighandlerState, count: usize)
    requires
        old(state).wf(),
        !old(state).started(),
        count <= MAX_PERF_TIMEOUT_THREAD_COUNT,
    ensures
        final(state).wf(),
        final(state).started(),
        final(state).has_table() == (count > 0),
        final(state).capacity() == count,
        final(state).registered() == 0,
        final(state).routes() == Map::<i32, i32>::empty(),
        forall|perf_fd: i32| count > 0 && perf_fd > EMPTY_KEY ==> final(state).has_room(perf_fd),
{
    let _ = state.init_sighandler(count);
    proof {
        if count > 0 {
            assert forall|perf_fd: i32| perf_fd > EMPTY_KEY implies state.has_room(perf_fd) by {
                state.lemma_room_below_capacity(perf_fd);
            }
        }
    }
}

} // verus!
