//! Routing the kernel's counter notifications to the supervisors.
//!
//! Where a counter is programmed to notify, the kernel sends a signal that
//! carries the counter's descriptor. The handler of that signal looks the
//! descriptor up and pokes the supervisor that owns the counter, through a
//! pipe whose writing end the supervisor registered. The lookup runs inside
//! a signal handler, so the table it uses never allocates.

use vstd::prelude::*;

use crate::util::fixed_map::FixedMap;
use crate::util::fixed_map::EMPTY_KEY;

verus! {

/// The number of buckets of the routing table for each supervisor that may
/// count against a limit at the same time.
pub const BUCKETS_PER_THREAD: usize = 10;

/// The most supervisors that the routing table can be made for.
pub const MAX_PERF_TIMEOUT_THREAD_COUNT: usize = usize::MAX / 10;

/// The flag of a signal action whose handler takes the signal's details.
pub const SA_SIGINFO: i32 = 4;

/// The handler value that stands for the default action.
pub const SIG_DFL: usize = 0;

/// The handler value that stands for ignoring the signal.
pub const SIG_IGN: usize = 1;

/// How to pass a signal on to the handler that was installed before.
#[derive(Clone, Copy, Debug, PartialEq, Eq, Structural)]
pub enum PreviousHandler {
    /// There was no handler: nothing is called.
    Nothing,
    /// The handler takes the signal's number only.
    Plain,
    /// The handler takes the signal's number, its details and its context.
    WithInfo,
}

/// How to pass a signal on to the handler that was installed before, given
/// the handler value and the flags of the previous signal action. The
/// default action and ignoring are no handlers; of a handler, the flags
/// say which arguments it takes.
pub fn call_previous_handler(handler: usize, flags: i32) -> (previous: PreviousHandler)
    ensures
        previous == (if handler == SIG_DFL || handler == SIG_IGN {
            PreviousHandler::Nothing
        } else if flags & SA_SIGINFO == 0 {
            PreviousHandler::Plain
        } else {
            PreviousHandler::WithInfo
        }),
{
    if handler == SIG_DFL || handler == SIG_IGN {
        PreviousHandler::Nothing
    } else if flags & SA_SIGINFO == 0 {
        PreviousHandler::Plain
    } else {
        PreviousHandler::WithInfo
    }
}

/// The routing state of the process. It is set up once.
#[derive(Debug)]
pub struct SighandlerState {
    init_started: bool,
    perf_fd_map: Option<FixedMap>,
}

impl SighandlerState {
    /// Whether the state has been set up.
    pub closed spec fn started(&self) -> bool {
        self.init_started
    }

    /// Whether the state has a routing table.
    pub closed spec fn has_table(&self) -> bool {
        self.perf_fd_map is Some
    }

    /// The routing table, where the state has one.
    pub closed spec fn table(&self) -> FixedMap {
        self.perf_fd_map->Some_0
    }

    /// The routes: the map from a counter's descriptor to the descriptor
    /// that pokes the counter's supervisor. Without a table there are none.
    pub open spec fn routes(&self) -> Map<i32, i32> {
        if self.has_table() {
            self.table()@
        } else {
            Map::<i32, i32>::empty()
        }
    }

    /// Whether the counter `perf_fd` has a route.
    pub open spec fn has_route(&self, perf_fd: i32) -> bool {
        self.routes().contains_key(perf_fd)
    }

    /// The number of counters that have a route.
    pub open spec fn registered(&self) -> nat {
        if self.has_table() {
            self.table().len()
        } else {
            0
        }
    }

    /// The number of supervisors that the state was set up for.
    pub open spec fn capacity(&self) -> nat {
        if self.has_table() {
            self.table().bucket_size() as nat
        } else {
            0
        }
    }

    /// As long as fewer counters have a route than the state was set up
    /// for, every counter can get one, whatever its descriptor is.
    pub proof fn lemma_room_below_capacity(&self, perf_fd: i32)
        requires
            self.wf(),
            perf_fd > EMPTY_KEY,
            self.registered() < self.capacity(),
        ensures
            self.has_room(perf_fd),
    {
        self.table().lemma_room_below_capacity(perf_fd);
    }

    /// Whether the state is in order: its table, where it has one, is in
    /// order, and it has none before it is set up.
    pub open spec fn wf(&self) -> bool {
        &&& self.has_table() ==> self.started() && self.table().wf()
    }

    /// Whether a route for `perf_fd` can be registered.
    pub open spec fn has_room(&self, perf_fd: i32) -> bool {
        self.has_table() && perf_fd > EMPTY_KEY && self.table().has_room(perf_fd)
    }

    /// The state of a process that has not set it up yet.
    pub fn new() -> (state: SighandlerState)
        ensures
            state.wf(),
            !state.started(),
            !state.has_table(),
    {
        SighandlerState { init_started: false, perf_fd_map: None }
    }

    /// Whether the state has been set up.
    pub fn is_started(&self) -> (started: bool)
        ensures
            started == self.started(),
    {
        self.init_started
    }

    /// Sets the state up for `perf_timeout_thread_count` supervisors that
    /// count against a limit at the same time, unless it is set up already.
    /// The answer is whether this call did it.
    ///
    /// The table gets ten buckets for each supervisor, each with a slot for
    /// every one of them, so it has room for all their counters wherever
    /// the descriptors fall. For no supervisors there is no table.
    pub fn init_sighandler(&mut self, perf_timeout_thread_count: usize) -> (done: bool)
        requires
            old(self).wf(),
            perf_timeout_thread_count <= MAX_PERF_TIMEOUT_THREAD_COUNT,
        ensures
            final(self).wf(),
            final(self).started(),
            done == !old(self).started(),
            !done ==> *final(self) == *old(self),
            done ==> final(self).has_table() == (perf_timeout_thread_count > 0),
            done ==> final(self).capacity() == perf_timeout_thread_count,
            done ==> final(self).registered() == 0,
            done ==> final(self).routes() == Map::<i32, i32>::empty(),
            done && perf_timeout_thread_count > 0 ==> final(self).table().bucket_count()
                == perf_timeout_thread_count * 10,
    {
        if self.init_started {
            return false;
        }
        self.init_started = true;
        if perf_timeout_thread_count > 0 {
            self.perf_fd_map = Some(
                FixedMap::new(
                    perf_timeout_thread_count * BUCKETS_PER_THREAD,
                    perf_timeout_thread_count,
                ),
            );
        }
        true
    }

    /// Whether a route for `perf_fd` can be registered.
    pub fn can_register(&self, perf_fd: i32) -> (room: bool)
        requires
            self.wf(),
        ensures
            room == self.has_room(perf_fd),
    {
        match &self.perf_fd_map {
            Some(table) => perf_fd > EMPTY_KEY && table.can_insert(perf_fd),
            None => false,
        }
    }

    /// Registers the route from the counter `perf_fd` to the descriptor
    /// `notify_fd`, in place of any route that `perf_fd` had.
    pub fn register(&mut self, perf_fd: i32, notify_fd: i32)
        requires
            old(self).wf(),
            old(self).has_room(perf_fd),
        ensures
            final(self).wf(),
            final(self).started() == old(self).started(),
            final(self).has_table(),
            final(self).routes() == old(self).routes().insert(perf_fd, notify_fd),
            final(self).capacity() == old(self).capacity(),
            final(self).registered() == old(self).registered() + (if old(self).has_route(perf_fd) {
                0nat
            } else {
                1nat
            }),
    {
        match &mut self.perf_fd_map {
            Some(table) => {
                table.insert(perf_fd, notify_fd);
            },
            None => {},
        }
    }

    /// Takes the route of the counter `perf_fd` away, where it has one.
    /// Every counter that had room before has it afterwards.
    pub fn unregister(&mut self, perf_fd: i32)
        requires
            old(self).wf(),
        ensures
            final(self).wf(),
            final(self).started() == old(self).started(),
            final(self).has_table() == old(self).has_table(),
            final(self).routes() == old(self).routes().remove(perf_fd),
            final(self).capacity() == old(self).capacity(),
            final(self).registered() + (if old(self).has_route(perf_fd) {
                1nat
            } else {
                0nat
            }) == old(self).registered(),
            forall|other: i32| old(self).has_room(other) ==> final(self).has_room(other),
    {
        if perf_fd > EMPTY_KEY {
            match &mut self.perf_fd_map {
                Some(table) => {
                    table.remove(perf_fd);
                },
                None => {
                    assert(self.routes() =~= old(self).routes().remove(perf_fd));
                },
            }
        } else {
            proof {
                if self.has_table() {
                    self.table().lemma_view(perf_fd);
                }
                assert(self.routes() =~= old(self).routes().remove(perf_fd));
            }
        }
    }

    /// The descriptor to poke for a notification of the counter `perf_fd`:
    /// the one that its route names, and none where it has no route.
    pub fn notification_target(&self, perf_fd: i32) -> (target: Option<i32>)
        requires
            self.wf(),
        ensures
            target == (if self.routes().contains_key(perf_fd) {
                Some(self.routes()[perf_fd])
            } else {
                None::<i32>
            }),
    {
        match &self.perf_fd_map {
            Some(table) => {
                if perf_fd > EMPTY_KEY {
                    table.get(perf_fd)
                } else {
                    proof {
                        table.lemma_view(perf_fd);
                    }
                    None
                }
            },
            None => None,
        }
    }
}

} // verus!
