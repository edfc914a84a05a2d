use std::collections::HashMap;
use vstd::prelude::*;
use vstd::std_specs::hash::spec_keys_iter;
use vstd::std_specs::iter::IteratorSpec;

verus! {

broadcast use vstd::std_specs::hash::group_hash_axioms;

/// The number of identifiers that there are.
pub open spec fn id_count() -> nat {
    0x1_0000_0000_0000_0000
}

/// The identifier that follows `id`; the count starts over after the last.
pub open spec fn following(id: u64) -> u64 {
    if id == u64::MAX {
        0
    } else {
        (id + 1) as u64
    }
}

/// Whether `handles` are the handles of `tasks`, each task once, in some
/// order.
pub open spec fn drained<H>(tasks: Map<u64, H>, handles: Seq<H>) -> bool {
    exists|ids: Seq<u64>|
        #![trigger ids.no_duplicates()]
        ids.no_duplicates() && ids.to_set() == tasks.dom() && ids.len() == handles.len()
            && forall|i: int| 0 <= i < ids.len() ==> handles[i] == tasks[#[trigger] ids[i]]
}

/// The bookkeeping of graceful shutdown: the tasks that are registered, by
/// identifier, and the identifier that the next one gets.
pub struct GracefulShutdownContext<H> {
    tasks: HashMap<u64, H>,
    next_id: u64,
    given: Ghost<nat>,
}

impl<H> GracefulShutdownContext<H> {
    #[verifier::type_invariant]
    spec fn inv(self) -> bool {
        self.given@ < id_count() ==> self.next_id == self.given@ && forall|id: u64|
            self.tasks@.contains_key(id) ==> id < self.next_id
    }

    /// The registered tasks, by identifier.
    pub closed spec fn tasks(&self) -> Map<u64, H> {
        self.tasks@
    }

    /// The identifier that the next task gets.
    pub closed spec fn next_id(&self) -> u64 {
        self.next_id
    }

    /// The number of identifiers that have been given out.
    pub closed spec fn given_out(&self) -> nat {
        self.given@
    }

    /// A context without tasks.
    pub fn new() -> (context: Self)
        ensures
            context.tasks() == Map::<u64, H>::empty(),
            context.next_id() == 0,
            context.given_out() == 0,
    {
        GracefulShutdownContext { tasks: HashMap::new(), next_id: 0, given: Ghost(0) }
    }

    /// The number of registered tasks.
    pub fn len(&self) -> (n: usize)
        ensures
            n == self.tasks().dom().len(),
    {
        self.tasks.len()
    }

    /// Registers a task and hands out its identifier.
    ///
    /// The identifiers are given out in order, from 0. While fewer have
    /// been given out than there are, the identifier is one that no
    /// registered task has; after that the count starts over, and a task
    /// that is still registered under the identifier is replaced.
    pub fn register_task(&mut self, handle: H) -> (id: u64)
        ensures
            id == old(self).next_id(),
            final(self).next_id() == following(id),
            final(self).given_out() == old(self).given_out() + 1,
            final(self).tasks() == old(self).tasks().insert(id, handle),
            old(self).given_out() < id_count() ==> id == old(self).given_out() && !old(
                self,
            ).tasks().contains_key(id),
    {
        proof {
            use_type_invariant(&*self);
        }
        let id = self.next_id;
        let ghost given = self.given@;
        let mut tasks: HashMap<u64, H> = HashMap::new();
        core::mem::swap(&mut self.tasks, &mut tasks);
        tasks.insert(id, handle);
        *self = GracefulShutdownContext {
            tasks,
            next_id: id.wrapping_add(1),
            given: Ghost(given + 1),
        };
        id
    }

    /// Removes the task `id`.
    pub fn remove_task(&mut self, id: u64)
        ensures
            final(self).next_id() == old(self).next_id(),
            final(self).given_out() == old(self).given_out(),
            final(self).tasks() == old(self).tasks().remove(id),
    {
        proof {
            use_type_invariant(&*self);
        }
        let mut tasks: HashMap<u64, H> = HashMap::new();
        core::mem::swap(&mut self.tasks, &mut tasks);
        tasks.remove(&id);
        core::mem::swap(&mut self.tasks, &mut tasks);
    }

    /// Takes every task out of the bookkeeping and hands out the handles:
    /// each of them is told to shut down and waited for. None is left
    /// behind.
    pub fn graceful_shutdown(&mut self) -> (handles: Vec<H>)
        ensures
            final(self).next_id() == old(self).next_id(),
            final(self).given_out() == old(self).given_out(),
            final(self).tasks() == Map::<u64, H>::empty(),
            drained(old(self).tasks(), handles@),
    {
        proof {
            use_type_invariant(&*self);
        }
        let mut tasks: HashMap<u64, H> = HashMap::new();
        core::mem::swap(&mut self.tasks, &mut tasks);
        let ghost all = tasks@;
        let ids = ids_of(&tasks);
        let mut handles: Vec<H> = Vec::new();
        let mut i: usize = 0;
        while i < ids.len()
            invariant
                i <= ids@.len(),
                ids@.no_duplicates(),
                ids@.to_set() == all.dom(),
                handles@.len() == i,
                forall|j: int| 0 <= j < i ==> handles@[j] == all[#[trigger] ids@[j]],
                forall|k: u64|
                    #![trigger tasks@.contains_key(k)]
                    #![trigger all.contains_key(k)]
                    tasks@.contains_key(k) <==> all.contains_key(k) && !ids@.subrange(
                        0,
                        i as int,
                    ).contains(k),
                forall|k: u64| #[trigger] tasks@.contains_key(k) ==> tasks@[k] == all[k],
            decreases ids@.len() - i,
        {
            let id = ids[i];
            proof {
                assert(ids@.to_set().contains(ids@[i as int]));
                assert(!ids@.subrange(0, i as int).contains(id)) by {
                    if ids@.subrange(0, i as int).contains(id) {
                        let j = choose|j: int|
                            0 <= j < i && ids@.subrange(0, i as int)[j] == id;
                        assert(ids@[j] == ids@[i as int]);
                    }
                }
            }
            let ghost prev = tasks@;
            let taken = tasks.remove(&id);
            match taken {
                Some(handle) => {
                    handles.push(handle);
                },
                None => {
                    assert(false);
                },
            }
            proof {
                let longer = ids@.subrange(0, i as int + 1);
                let shorter = ids@.subrange(0, i as int);
                assert(longer =~= shorter.push(id));
                assert(tasks@ == prev.remove(id));
                assert forall|k: u64|
                    #![trigger tasks@.contains_key(k)]
                    #![trigger all.contains_key(k)]
                    tasks@.contains_key(k) <==> all.contains_key(k) && !longer.contains(k) by {
                    if longer.contains(k) {
                        let j = choose|j: int| 0 <= j < longer.len() && longer[j] == k;
                        if j < i {
                            assert(shorter[j] == k);
                            assert(shorter.contains(k));
                        }
                    }
                    if shorter.contains(k) {
                        let j = choose|j: int| 0 <= j < shorter.len() && shorter[j] == k;
                        assert(longer[j] == k);
                        assert(longer.contains(k));
                    }
                    if k == id {
                        assert(longer[i as int] == id);
                        assert(longer.contains(k));
                    }
                    assert(prev.contains_key(k) <==> all.contains_key(k) && !shorter.contains(k));
                }
            }
            i += 1;
        }
        proof {
            assert(ids@.subrange(0, i as int) =~= ids@);
            assert(drained(all, handles@));
        }
        handles
    }
}

/// The identifiers of the tasks in a map, each once.
fn ids_of<H>(tasks: &HashMap<u64, H>) -> (ids: Vec<u64>)
    ensures
        ids@.no_duplicates(),
        ids@.to_set() == tasks@.dom(),
{
    let mut ids: Vec<u64> = Vec::new();
    for id in it: tasks.keys()
        invariant
            ids@.len() == it.index(),
            forall|j: int| 0 <= j < ids@.len() ==> ids@[j] == *it.seq()[j],
    {
        ids.push(*id);
    }
    proof {
        let all = spec_keys_iter(tasks).remaining();
        assert(ids@ =~= all.unref());
    }
    ids
}

/// What a served connection knows of shutdown.
#[derive(Clone, Copy, PartialEq, Eq, Structural, Debug)]
pub enum ShutdownState {
    /// No shutdown has been asked for; the connection is registered.
    Running,
    /// Shutdown was asked for and the connection is closing gracefully.
    Closing,
    /// The connection has ended.
    Ended,
}

/// What a served connection does about shutdown when something happens.
#[derive(Clone, Copy, PartialEq, Eq, Structural, Debug)]
pub enum ShutdownAction {
    /// It starts the graceful close of its protocol.
    CloseGracefully,
    /// It acknowledges the shutdown and takes itself out of the bookkeeping.
    FinishAndDeregister,
    /// It takes itself out of the bookkeeping.
    Deregister,
    /// Nothing.
    Nothing,
}

/// What a served connection does when shutdown is asked for: a running
/// connection starts to close gracefully; nothing changes otherwise.
pub open spec fn after_shutdown(state: ShutdownState) -> (ShutdownState, ShutdownAction) {
    match state {
        ShutdownState::Running => (ShutdownState::Closing, ShutdownAction::CloseGracefully),
        ShutdownState::Closing => (ShutdownState::Closing, ShutdownAction::Nothing),
        ShutdownState::Ended => (ShutdownState::Ended, ShutdownAction::Nothing),
    }
}

/// What a served connection does when it ends: it is taken out of the
/// bookkeeping, and a shutdown that was asked for is acknowledged first.
pub open spec fn after_end(state: ShutdownState) -> (ShutdownState, ShutdownAction) {
    match state {
        ShutdownState::Running => (ShutdownState::Ended, ShutdownAction::Deregister),
        ShutdownState::Closing => (ShutdownState::Ended, ShutdownAction::FinishAndDeregister),
        ShutdownState::Ended => (ShutdownState::Ended, ShutdownAction::Nothing),
    }
}

/// What a served connection does when shutdown is asked for.
pub fn on_shutdown(state: ShutdownState) -> (next: (ShutdownState, ShutdownAction))
    ensures
        next == after_shutdown(state),
{
    match state {
        ShutdownState::Running => (ShutdownState::Closing, ShutdownAction::CloseGracefully),
        ShutdownState::Closing => (ShutdownState::Closing, ShutdownAction::Nothing),
        ShutdownState::Ended => (ShutdownState::Ended, ShutdownAction::Nothing),
    }
}

/// What a served connection does when it ends.
pub fn on_end(state: ShutdownState) -> (next: (ShutdownState, ShutdownAction))
    ensures
        next == after_end(state),
{
    match state {
        ShutdownState::Running => (ShutdownState::Ended, ShutdownAction::Deregister),
        ShutdownState::Closing => (ShutdownState::Ended, ShutdownAction::FinishAndDeregister),
        ShutdownState::Ended => (ShutdownState::Ended, ShutdownAction::Nothing),
    }
}

/// A shutdown is acknowledged exactly by the connections that were asked to
/// shut down, and only when they have ended.
pub proof fn law_finish_follows_graceful_close(state: ShutdownState)
    ensures
        after_end(after_shutdown(state).0).1 == ShutdownAction::FinishAndDeregister <==> state
            != ShutdownState::Ended,
        after_end(state).1 == ShutdownAction::FinishAndDeregister <==> state
            == ShutdownState::Closing,
        after_shutdown(state).1 != ShutdownAction::FinishAndDeregister,
{
}

/// The coordinator of graceful shutdown.
pub struct GracefulShutdown<H> {
    context: GracefulShutdownContext<H>,
}

/// The registration of one task.
pub struct ShutdownRegistration {
    id: u64,
}

impl ShutdownRegistration {
    /// The identifier of the task.
    pub closed spec fn task(&self) -> u64 {
        self.id
    }

    /// The identifier of the task.
    pub fn id(&self) -> (id: u64)
        ensures
            id == self.task(),
    {
        self.id
    }
}

impl<H> GracefulShutdown<H> {
    /// The registered tasks, by identifier.
    pub closed spec fn tasks(&self) -> Map<u64, H> {
        self.context.tasks()
    }

    /// The identifier that the next task gets.
    pub closed spec fn next_id(&self) -> u64 {
        self.context.next_id()
    }

    /// The number of identifiers that have been given out.
    pub closed spec fn given_out(&self) -> nat {
        self.context.given_out()
    }

    /// A coordinator without tasks.
    pub fn new() -> (coordinator: Self)
        ensures
            coordinator.tasks() == Map::<u64, H>::empty(),
            coordinator.next_id() == 0,
            coordinator.given_out() == 0,
    {
        GracefulShutdown { context: GracefulShutdownContext::new() }
    }

    /// Registers a task with the handle by which it is told to shut down.
    ///
    /// The task gets the next identifier. While fewer identifiers have been
    /// given out than there are, it is one that no registered task has, so
    /// the task is tracked beside all the others.
    pub fn register_task(&mut self, handle: H) -> (registration: ShutdownRegistration)
        ensures
            registration.task() == old(self).next_id(),
            final(self).next_id() == following(registration.task()),
            final(self).given_out() == old(self).given_out() + 1,
            final(self).tasks() == old(self).tasks().insert(registration.task(), handle),
            old(self).given_out() < id_count() ==> !old(self).tasks().contains_key(
                registration.task(),
            ),
    {
        let id = self.context.register_task(handle);
        ShutdownRegistration { id }
    }

    /// Takes a task out of the bookkeeping, when its connection has ended.
    /// The other tasks stay as they are.
    pub fn deregister(&mut self, registration: ShutdownRegistration)
        ensures
            final(self).next_id() == old(self).next_id(),
            final(self).given_out() == old(self).given_out(),
            final(self).tasks() == old(self).tasks().remove(registration.task()),
    {
        self.context.remove_task(registration.id);
    }

    /// Begins the shutdown: every registered task is handed out, to be told
    /// to shut down and to be waited for. None is left behind.
    pub fn shutdown(self) -> (handles: Vec<H>)
        ensures
            drained(self.tasks(), handles@),
    {
        let mut context = self.context;
        context.graceful_shutdown()
    }
}

} // verus!
