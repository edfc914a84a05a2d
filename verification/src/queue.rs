use vstd::prelude::*;

verus! {

/// The number of requests that may wait for one device at a time.
pub const QUEUE_CAPACITY: usize = 4;

/// The requests waiting for one device, oldest first.
///
/// The queue never holds more than [`QUEUE_CAPACITY`] requests. A request
/// offered to a full queue is handed back to the caller, who has to wait for
/// a free place and offer it again.
pub struct RequestQueue<R> {
    pending: Vec<R>,
}

impl<R> RequestQueue<R> {
    #[verifier::type_invariant]
    spec fn inv(self) -> bool {
        self.pending@.len() <= QUEUE_CAPACITY
    }

    /// The waiting requests, oldest first.
    pub closed spec fn view(&self) -> Seq<R> {
        self.pending@
    }

    /// An empty queue.
    pub fn new() -> (queue: Self)
        ensures
            queue@ == Seq::<R>::empty(),
    {
        RequestQueue { pending: Vec::new() }
    }

    /// The number of waiting requests.
    pub fn len(&self) -> (n: usize)
        ensures
            n == self@.len(),
            n <= QUEUE_CAPACITY,
    {
        proof {
            use_type_invariant(self);
        }
        self.pending.len()
    }

    /// Whether no further request can be accepted right now.
    pub fn is_full(&self) -> (full: bool)
        ensures
            full == (self@.len() == QUEUE_CAPACITY),
    {
        proof {
            use_type_invariant(self);
        }
        self.pending.len() == QUEUE_CAPACITY
    }

    /// Appends `request` if there is room, and hands it back if there is not.
    pub fn offer(&mut self, request: R) -> (refused: Result<(), R>)
        ensures
            old(self)@.len() < QUEUE_CAPACITY ==> refused is Ok && final(self)@ == old(self)@.push(
                request,
            ),
            old(self)@.len() >= QUEUE_CAPACITY ==> refused == Err::<(), R>(request) && final(self)@
                == old(self)@,
    {
        proof {
            use_type_invariant(&*self);
        }
        if self.pending.len() < QUEUE_CAPACITY {
            let mut pending: Vec<R> = Vec::new();
            core::mem::swap(&mut self.pending, &mut pending);
            pending.push(request);
            core::mem::swap(&mut self.pending, &mut pending);
            Ok(())
        } else {
            Err(request)
        }
    }

    /// Takes the oldest waiting request, if there is one.
    pub fn take(&mut self) -> (next: Option<R>)
        ensures
            old(self)@.len() == 0 ==> next is None && final(self)@ == old(self)@,
            old(self)@.len() > 0 ==> next == Some(old(self)@[0]) && final(self)@ == old(
                self,
            )@.drop_first(),
    {
        proof {
            use_type_invariant(&*self);
        }
        if self.pending.len() == 0 {
            None
        } else {
            let mut pending: Vec<R> = Vec::new();
            core::mem::swap(&mut self.pending, &mut pending);
            let next = pending.remove(0);
            core::mem::swap(&mut self.pending, &mut pending);
            assert(self.pending@ =~= old(self)@.drop_first());
            Some(next)
        }
    }

    /// Empties the queue and hands out what was waiting, oldest first.
    pub fn drain(&mut self) -> (waiting: Vec<R>)
        ensures
            waiting@ == old(self)@,
            final(self)@ == Seq::<R>::empty(),
    {
        let mut pending: Vec<R> = Vec::new();
        core::mem::swap(&mut self.pending, &mut pending);
        pending
    }
}

} // verus!
