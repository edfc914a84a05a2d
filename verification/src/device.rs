use crate::queue::{RequestQueue, QUEUE_CAPACITY};
use crate::table::Table;
use vstd::prelude::*;

verus! {

/// Why a request could not be queued for a device. The request comes back to
/// the caller in either case.
pub enum SendError<R> {
    /// The queue is full: the caller waits for a free place and tries again.
    Full(R),
    /// The tunnel is gone: the caller reports that the device disconnected.
    Disconnected(R),
}

/// What a device handle amounts to: the requests waiting for the device and
/// whether the tunnel has been closed.
pub struct HandleState<R> {
    pub pending: Seq<R>,
    pub closed: bool,
}

impl<R> HandleState<R> {
    /// The state of a handle that was just made.
    pub open spec fn fresh() -> Self {
        HandleState { pending: Seq::empty(), closed: false }
    }

    /// What sending `request` through a handle in this state gives.
    pub open spec fn send_outcome(self, request: R) -> Result<(), SendError<R>> {
        if self.closed {
            Err(SendError::Disconnected(request))
        } else if self.pending.len() >= QUEUE_CAPACITY {
            Err(SendError::Full(request))
        } else {
            Ok(())
        }
    }

    /// The state after `request` was sent through the handle.
    pub open spec fn after_send(self, request: R) -> Self {
        if self.send_outcome(request) is Ok {
            HandleState { pending: self.pending.push(request), ..self }
        } else {
            self
        }
    }

    /// The request that the forwarding task gets next.
    pub open spec fn next(self) -> Option<R> {
        if self.pending.len() > 0 {
            Some(self.pending[0])
        } else {
            None
        }
    }

    /// The state after the forwarding task asked for the next request.
    pub open spec fn after_next(self) -> Self {
        if self.pending.len() > 0 {
            HandleState { pending: self.pending.drop_first(), ..self }
        } else {
            self
        }
    }

    /// The state after the handle was closed.
    pub open spec fn after_close(self) -> Self {
        HandleState { pending: Seq::empty(), closed: true }
    }
}

/// The proxy's end of one device tunnel: a bounded queue of requests that
/// wait to be forwarded, and the means to shut the tunnel down.
pub struct DeviceHandle<R> {
    queue: RequestQueue<R>,
    closed: bool,
}

impl<R> View for DeviceHandle<R> {
    type V = HandleState<R>;

    closed spec fn view(&self) -> HandleState<R> {
        HandleState { pending: self.queue@, closed: self.closed }
    }
}

impl<R> DeviceHandle<R> {
    /// A handle of an open tunnel with nothing waiting.
    pub fn new() -> (handle: Self)
        ensures
            handle@ == HandleState::<R>::fresh(),
    {
        DeviceHandle { queue: RequestQueue::new(), closed: false }
    }

    /// Whether the tunnel has been closed.
    pub fn is_closed(&self) -> (closed: bool)
        ensures
            closed == self@.closed,
    {
        self.closed
    }

    /// The number of requests that wait to be forwarded.
    pub fn pending(&self) -> (n: usize)
        ensures
            n == self@.pending.len(),
            n <= QUEUE_CAPACITY,
    {
        self.queue.len()
    }

    /// Queues `request` for the device.
    ///
    /// On a closed handle the request comes back as
    /// [`SendError::Disconnected`], on a full queue as [`SendError::Full`];
    /// otherwise it is appended behind the requests that already wait.
    pub fn send_request(&mut self, request: R) -> (outcome: Result<(), SendError<R>>)
        ensures
            outcome == old(self)@.send_outcome(request),
            final(self)@ == old(self)@.after_send(request),
    {
        if self.closed {
            Err(SendError::Disconnected(request))
        } else {
            match self.queue.offer(request) {
                Ok(()) => Ok(()),
                Err(request) => Err(SendError::Full(request)),
            }
        }
    }

    /// Takes the request that has waited longest, for the forwarding task.
    pub fn next_request(&mut self) -> (next: Option<R>)
        ensures
            next == old(self)@.next(),
            final(self)@ == old(self)@.after_next(),
    {
        self.queue.take()
    }

    /// Closes the tunnel. The requests that still waited are handed out, so
    /// that each of their callers can be told that the device disconnected.
    pub fn close(&mut self) -> (abandoned: Vec<R>)
        ensures
            abandoned@ == old(self)@.pending,
            final(self)@ == old(self)@.after_close(),
    {
        self.closed = true;
        self.queue.drain()
    }
}

/// Something that happens to a device handle: a caller sends a request, the
/// forwarding task asks for the next one, or the tunnel is closed.
pub enum HandleEvent<R> {
    Send(R),
    Next,
    Close,
}

/// What a run of events has done to the requests it met.
pub struct HandleTrace<R> {
    /// The state of the handle.
    pub state: HandleState<R>,
    /// The requests that were queued, in the order of their arrival.
    pub accepted: Seq<R>,
    /// The requests that came back to their callers, because the queue was
    /// full or the tunnel closed.
    pub refused: Seq<R>,
    /// The requests that the forwarding task has taken, in that order.
    pub served: Seq<R>,
    /// The requests that waited when the tunnel was closed, whose callers
    /// are told that the device disconnected.
    pub abandoned: Seq<R>,
}

/// The trace after one more event.
pub open spec fn handle_step<R>(trace: HandleTrace<R>, event: HandleEvent<R>) -> HandleTrace<R> {
    match event {
        HandleEvent::Send(request) => if trace.state.send_outcome(request) is Ok {
            HandleTrace {
                state: trace.state.after_send(request),
                accepted: trace.accepted.push(request),
                ..trace
            }
        } else {
            HandleTrace {
                state: trace.state.after_send(request),
                refused: trace.refused.push(request),
                ..trace
            }
        },
        HandleEvent::Next => match trace.state.next() {
            Some(request) => HandleTrace {
                state: trace.state.after_next(),
                served: trace.served.push(request),
                ..trace
            },
            None => HandleTrace { state: trace.state.after_next(), ..trace },
        },
        HandleEvent::Close => HandleTrace {
            state: trace.state.after_close(),
            abandoned: trace.abandoned + trace.state.pending,
            ..trace
        },
    }
}

/// The trace of a whole run on a fresh handle.
pub open spec fn handle_run<R>(events: Seq<HandleEvent<R>>) -> HandleTrace<R>
    decreases events.len(),
{
    if events.len() == 0 {
        HandleTrace {
            state: HandleState::fresh(),
            accepted: Seq::empty(),
            refused: Seq::empty(),
            served: Seq::empty(),
            abandoned: Seq::empty(),
        }
    } else {
        handle_step(handle_run(events.drop_last()), events.last())
    }
}

/// The number of requests that were sent during a run.
pub open spec fn sent_count<R>(events: Seq<HandleEvent<R>>) -> nat
    decreases events.len(),
{
    if events.len() == 0 {
        0
    } else {
        sent_count(events.drop_last()) + (if events.last() is Send {
            1nat
        } else {
            0nat
        })
    }
}

/// Whatever callers, the forwarding task and the registry do to a handle,
/// and in whatever order: never more than four requests wait; every request
/// that was sent was either queued or came back to its caller; and the
/// queued requests are, each once and in the order of their arrival, those
/// that were served, then those that were abandoned when the tunnel was
/// closed, then those that still wait. While the tunnel is open nothing is
/// abandoned, and once it is closed nothing waits.
pub proof fn law_no_request_is_lost_or_repeated<R>(events: Seq<HandleEvent<R>>)
    ensures
        handle_run(events).state.pending.len() <= QUEUE_CAPACITY,
        handle_run(events).accepted.len() + handle_run(events).refused.len() == sent_count(
            events,
        ),
        handle_run(events).state.closed ==> handle_run(events).state.pending.len() == 0,
        !handle_run(events).state.closed ==> handle_run(events).abandoned.len() == 0,
        handle_run(events).accepted == handle_run(events).served + handle_run(events).abandoned
            + handle_run(events).state.pending,
    decreases events.len(),
{
    if events.len() == 0 {
        assert(handle_run(events).accepted =~= handle_run(events).served + handle_run(
            events,
        ).abandoned + handle_run(events).state.pending);
    } else {
        law_no_request_is_lost_or_repeated(events.drop_last());
        let after = handle_run(events);
        assert(after.accepted =~= after.served + after.abandoned + after.state.pending);
    }
}

/// A request that is sent while four requests wait comes back to its
/// caller and changes nothing; once the forwarding task has taken a request
/// the same request is queued behind the others.
pub proof fn law_full_queue_blocks_until_a_slot_frees<R>(state: HandleState<R>, request: R)
    requires
        !state.closed,
        state.pending.len() == QUEUE_CAPACITY,
    ensures
        state.send_outcome(request) == Err::<(), SendError<R>>(SendError::Full(request)),
        state.after_send(request) == state,
        state.after_next().send_outcome(request) is Ok,
        state.after_next().after_send(request).pending == state.pending.drop_first().push(
            request,
        ),
{
}

/// What the registry keeps for one device.
pub struct DeviceEntry<R> {
    pub session_id: u128,
    pub handle: DeviceHandle<R>,
}

/// What a registry entry amounts to.
pub struct EntryState<R> {
    pub session_id: u128,
    pub handle: HandleState<R>,
}

impl<R> View for DeviceEntry<R> {
    type V = EntryState<R>;

    open spec fn view(&self) -> EntryState<R> {
        EntryState { session_id: self.session_id, handle: self.handle@ }
    }
}

/// The registry after `device_id` was registered with a session and a handle.
pub open spec fn added<R>(
    devices: Map<Seq<char>, EntryState<R>>,
    device_id: Seq<char>,
    session_id: u128,
    handle: HandleState<R>,
) -> Map<Seq<char>, EntryState<R>> {
    devices.insert(device_id, EntryState { session_id, handle })
}

/// Whether a removal finds an entry that it may take: the device is
/// registered, and the session named, if one is named, is the stored one.
pub open spec fn removal_applies<R>(
    devices: Map<Seq<char>, EntryState<R>>,
    device_id: Seq<char>,
    session_id: Option<u128>,
) -> bool {
    devices.contains_key(device_id) && (session_id matches Some(s) ==> s
        == devices[device_id].session_id)
}

/// The registry after a removal.
pub open spec fn removed<R>(
    devices: Map<Seq<char>, EntryState<R>>,
    device_id: Seq<char>,
    session_id: Option<u128>,
) -> Map<Seq<char>, EntryState<R>> {
    if removal_applies(devices, device_id, session_id) {
        devices.remove(device_id)
    } else {
        devices
    }
}

/// The registry after `request` was sent to `device_id`.
pub open spec fn sent<R>(
    devices: Map<Seq<char>, EntryState<R>>,
    device_id: Seq<char>,
    request: R,
) -> Map<Seq<char>, EntryState<R>> {
    if devices.contains_key(device_id) {
        devices.insert(
            device_id,
            EntryState {
                session_id: devices[device_id].session_id,
                handle: devices[device_id].handle.after_send(request),
            },
        )
    } else {
        devices
    }
}

/// What sending `request` to `device_id` gives.
pub open spec fn send_outcome<R>(
    devices: Map<Seq<char>, EntryState<R>>,
    device_id: Seq<char>,
    request: R,
) -> Result<(), SendError<R>> {
    if devices.contains_key(device_id) {
        devices[device_id].handle.send_outcome(request)
    } else {
        Err(SendError::Disconnected(request))
    }
}

/// Whether the forwarding task of a session still owns the entry of its device.
pub open spec fn owns<R>(
    devices: Map<Seq<char>, EntryState<R>>,
    device_id: Seq<char>,
    session_id: u128,
) -> bool {
    devices.contains_key(device_id) && devices[device_id].session_id == session_id
}

/// The registry after the forwarding task of a session asked for its next request.
pub open spec fn forwarded<R>(
    devices: Map<Seq<char>, EntryState<R>>,
    device_id: Seq<char>,
    session_id: u128,
) -> Map<Seq<char>, EntryState<R>> {
    if owns(devices, device_id, session_id) {
        devices.insert(
            device_id,
            EntryState { session_id, handle: devices[device_id].handle.after_next() },
        )
    } else {
        devices
    }
}

/// The registry of connected devices: at most one live handle for each
/// device identifier.
pub struct DeviceManager<R> {
    devices: Table<DeviceEntry<R>>,
}

impl<R> View for DeviceManager<R> {
    type V = Map<Seq<char>, EntryState<R>>;

    closed spec fn view(&self) -> Map<Seq<char>, EntryState<R>> {
        self.devices@.map_values(|entry: DeviceEntry<R>| entry@)
    }
}

impl<R> DeviceManager<R> {
    /// A registry without devices.
    pub fn new() -> (manager: Self)
        ensures
            manager@ == Map::<Seq<char>, EntryState<R>>::empty(),
    {
        let manager = DeviceManager { devices: Table::new() };
        assert(manager@ =~= Map::<Seq<char>, EntryState<R>>::empty());
        manager
    }

    /// Registers `handle` under `device_id`.
    ///
    /// A handle that was registered under the same identifier is displaced
    /// and handed back: the caller has to close it.
    pub fn add(&mut self, device_id: &str, session_id: u128, handle: DeviceHandle<R>) -> (displaced:
        Option<DeviceHandle<R>>)
        ensures
            final(self)@ == added(old(self)@, device_id@, session_id, handle@),
            match displaced {
                Some(previous) => old(self)@.contains_key(device_id@) && previous@ == old(
                    self,
                )@[device_id@].handle,
                None => !old(self)@.contains_key(device_id@),
            },
    {
        let entry = DeviceEntry { session_id, handle };
        let displaced = self.devices.insert(device_id, entry);
        assert(self@ =~= added(old(self)@, device_id@, session_id, handle@));
        match displaced {
            Some(previous) => Some(previous.handle),
            None => None,
        }
    }

    /// Removes the entry of `device_id`.
    ///
    /// With a session identifier the entry is removed only if it belongs to
    /// that session; otherwise the registry stays as it is and nothing is
    /// returned.
    pub fn remove(&mut self, device_id: &str, session_id: Option<u128>) -> (taken: Option<
        DeviceHandle<R>,
    >)
        ensures
            final(self)@ == removed(old(self)@, device_id@, session_id),
            match taken {
                Some(handle) => removal_applies(old(self)@, device_id@, session_id) && handle@
                    == old(self)@[device_id@].handle,
                None => !removal_applies(old(self)@, device_id@, session_id),
            },
    {
        let stored = match self.devices.get(device_id) {
            Some(entry) => entry.session_id,
            None => { return None; },
        };
        if let Some(wanted) = session_id {
            if wanted != stored {
                return None;
            }
        }
        let taken = self.devices.remove(device_id);
        assert(self@ =~= old(self)@.remove(device_id@));
        match taken {
            Some(entry) => Some(entry.handle),
            None => None,
        }
    }

    /// The handle registered under `device_id`.
    pub fn get(&self, device_id: &str) -> (found: Option<&DeviceHandle<R>>)
        ensures
            match found {
                Some(handle) => self@.contains_key(device_id@) && handle@
                    == self@[device_id@].handle,
                None => !self@.contains_key(device_id@),
            },
    {
        match self.devices.get(device_id) {
            Some(entry) => Some(&entry.handle),
            None => None,
        }
    }

    /// The session that `device_id` is registered with.
    pub fn session_of(&self, device_id: &str) -> (found: Option<u128>)
        ensures
            match found {
                Some(session_id) => self@.contains_key(device_id@) && session_id
                    == self@[device_id@].session_id,
                None => !self@.contains_key(device_id@),
            },
    {
        match self.devices.get(device_id) {
            Some(entry) => Some(entry.session_id),
            None => None,
        }
    }

    /// The number of registered devices.
    pub fn len(&self) -> (n: usize)
        ensures
            self@.dom().finite(),
            n == self@.dom().len(),
    {
        let n = self.devices.len();
        assert(self@.dom() =~= self.devices@.dom());
        n
    }
    /// Queues `request` for `device_id`.
    ///
    /// An unknown device answers like a closed tunnel: the request comes back
    /// as [`SendError::Disconnected`].
    pub fn send_request(&mut self, device_id: &str, request: R) -> (outcome: Result<
        (),
        SendError<R>,
    >)
        ensures
            outcome == send_outcome(old(self)@, device_id@, request),
            final(self)@ == sent(old(self)@, device_id@, request),
    {
        match self.devices.remove(device_id) {
            Some(entry) => {
                let mut entry = entry;
                let outcome = entry.handle.send_request(request);
                self.devices.insert(device_id, entry);
                assert(self@ =~= sent(old(self)@, device_id@, request));
                outcome
            },
            None => {
                assert(self@ =~= old(self)@);
                Err(SendError::Disconnected(request))
            },
        }
    }

    /// Takes the next request that waits for `device_id`, on behalf of the
    /// forwarding task of `session_id`.
    ///
    /// A task whose session is no longer the registered one gets nothing and
    /// changes nothing.
    pub fn next_request(&mut self, device_id: &str, session_id: u128) -> (next: Option<R>)
        ensures
            final(self)@ == forwarded(old(self)@, device_id@, session_id),
            next == if owns(old(self)@, device_id@, session_id) {
                old(self)@[device_id@].handle.next()
            } else {
                None
            },
    {
        match self.session_of(device_id) {
            Some(stored) => {
                if stored != session_id {
                    return None;
                }
            },
            None => {
                return None;
            },
        }
        match self.devices.remove(device_id) {
            Some(entry) => {
                let mut entry = entry;
                let next = entry.handle.next_request();
                self.devices.insert(device_id, entry);
                assert(self@ =~= forwarded(old(self)@, device_id@, session_id));
                next
            },
            None => None,
        }
    }

    /// Registers the tunnel of a session for `device_id`, with a fresh
    /// handle.
    ///
    /// A tunnel that was registered for the device before is displaced and
    /// closed; the requests that still waited for it are handed out.
    pub fn connect(&mut self, device_id: &str, session_id: u128) -> (abandoned: Vec<R>)
        ensures
            final(self)@ == added(old(self)@, device_id@, session_id, HandleState::<R>::fresh()),
            abandoned@ == waiting_for(old(self)@, device_id@),
    {
        match self.add(device_id, session_id, DeviceHandle::new()) {
            Some(previous) => {
                let mut previous = previous;
                previous.close()
            },
            None => Vec::new(),
        }
    }

    /// Removes the tunnel of a session for `device_id` and closes it.
    ///
    /// Where the device is registered with another session by now, nothing
    /// changes. The requests that still waited are handed out.
    pub fn disconnect(&mut self, device_id: &str, session_id: u128) -> (abandoned: Vec<R>)
        ensures
            final(self)@ == removed(old(self)@, device_id@, Some(session_id)),
            abandoned@ == if owns(old(self)@, device_id@, session_id) {
                waiting_for(old(self)@, device_id@)
            } else {
                Seq::empty()
            },
    {
        match self.remove(device_id, Some(session_id)) {
            Some(handle) => {
                let mut handle = handle;
                handle.close()
            },
            None => Vec::new(),
        }
    }
}

/// The requests that wait for `device_id`.
pub open spec fn waiting_for<R>(devices: Map<Seq<char>, EntryState<R>>, device_id: Seq<char>) -> Seq<R> {
    if devices.contains_key(device_id) {
        devices[device_id].handle.pending
    } else {
        Seq::empty()
    }
}

/// The handle that a registration of `device_id` displaces, which the
/// caller closes.
pub open spec fn displaced<R>(devices: Map<Seq<char>, EntryState<R>>, device_id: Seq<char>) -> Option<
    HandleState<R>,
> {
    if devices.contains_key(device_id) {
        Some(devices[device_id].handle)
    } else {
        None
    }
}

/// When a device registers twice, the second registration displaces the
/// handle of the first and no other: nothing is displaced again when the
/// task of the first session removes its registration afterwards, which
/// changes nothing, and a lookup finds the second handle.
pub proof fn law_reregistration_closes_the_old_handle_once<R>(
    devices: Map<Seq<char>, EntryState<R>>,
    device_id: Seq<char>,
    first: (u128, HandleState<R>),
    second: (u128, HandleState<R>),
)
    requires
        first.0 != second.0,
    ensures
        ({
            let once = added(devices, device_id, first.0, first.1);
            let twice = added(once, device_id, second.0, second.1);
            &&& displaced(once, device_id) == Some(first.1)
            &&& twice[device_id] == (EntryState { session_id: second.0, handle: second.1 })
            &&& !removal_applies(twice, device_id, Some(first.0))
            &&& removed(twice, device_id, Some(first.0)) == twice
            &&& twice.dom() == once.dom()
        }),
{
    let once = added(devices, device_id, first.0, first.1);
    let twice = added(once, device_id, second.0, second.1);
    assert(twice.dom() =~= once.dom());
}

/// One change to the registry, as a tunnel task may make it at any time.
pub enum RegistryEvent<R> {
    Add { device_id: Seq<char>, session_id: u128, handle: HandleState<R> },
    Remove { device_id: Seq<char>, named: Option<u128> },
}

/// The registry after one event.
pub open spec fn apply<R>(devices: Map<Seq<char>, EntryState<R>>, event: RegistryEvent<R>) -> Map<
    Seq<char>,
    EntryState<R>,
> {
    match event {
        RegistryEvent::Add { device_id, session_id, handle } => added(
            devices,
            device_id,
            session_id,
            handle,
        ),
        RegistryEvent::Remove { device_id, named } => removed(devices, device_id, named),
    }
}

/// The registry after a run of events, in order.
pub open spec fn apply_all<R>(
    devices: Map<Seq<char>, EntryState<R>>,
    events: Seq<RegistryEvent<R>>,
) -> Map<Seq<char>, EntryState<R>>
    decreases events.len(),
{
    if events.len() == 0 {
        devices
    } else {
        apply(apply_all(devices, events.drop_last()), events.last())
    }
}

/// Whether `event` leaves the registration of `device_id` under `session_id`
/// alone: it registers another device, removes another device, or tries to
/// remove this one in the name of another session.
pub open spec fn spares<R>(event: RegistryEvent<R>, device_id: Seq<char>, session_id: u128) -> bool {
    match event {
        RegistryEvent::Add { device_id: other, .. } => other != device_id,
        RegistryEvent::Remove { device_id: other, named } => other != device_id || (
        named matches Some(s) && s != session_id),
    }
}

/// Right after a registration, a lookup finds the handle just registered,
/// whatever the registry held before.
pub proof fn law_get_after_add<R>(
    devices: Map<Seq<char>, EntryState<R>>,
    device_id: Seq<char>,
    session_id: u128,
    handle: HandleState<R>,
)
    ensures
        added(devices, device_id, session_id, handle).contains_key(device_id),
        added(devices, device_id, session_id, handle)[device_id] == (EntryState {
            session_id,
            handle,
        }),
{
}

/// A removal in the name of a session that is not the registered one changes
/// nothing.
pub proof fn law_stale_remove_is_noop<R>(
    devices: Map<Seq<char>, EntryState<R>>,
    device_id: Seq<char>,
    stale: u128,
)
    requires
        devices.contains_key(device_id),
        devices[device_id].session_id != stale,
    ensures
        !removal_applies(devices, device_id, Some(stale)),
        removed(devices, device_id, Some(stale)) == devices,
{
}

/// However later events interleave: as long as none of them registers the
/// device anew or removes it in the name of its own session (or of none), a
/// lookup still finds the handle that was registered last.
pub proof fn law_latest_registration_survives<R>(
    devices: Map<Seq<char>, EntryState<R>>,
    device_id: Seq<char>,
    session_id: u128,
    handle: HandleState<R>,
    later: Seq<RegistryEvent<R>>,
)
    requires
        forall|i: int| 0 <= i < later.len() ==> spares(#[trigger] later[i], device_id, session_id),
    ensures
        apply_all(added(devices, device_id, session_id, handle), later).contains_key(device_id),
        apply_all(added(devices, device_id, session_id, handle), later)[device_id] == (EntryState {
            session_id,
            handle,
        }),
    decreases later.len(),
{
    if later.len() > 0 {
        let earlier = later.drop_last();
        assert forall|i: int| 0 <= i < earlier.len() implies spares(
            #[trigger] earlier[i],
            device_id,
            session_id,
        ) by {
            assert(earlier[i] == later[i]);
        }
        law_latest_registration_survives(devices, device_id, session_id, handle, earlier);
        assert(spares(later[later.len() - 1], device_id, session_id));
    }
}

/// Registering a device that is already registered displaces exactly the
/// entry that was there and leaves every other device as it was.
pub proof fn law_add_replaces_one_entry<R>(
    devices: Map<Seq<char>, EntryState<R>>,
    device_id: Seq<char>,
    session_id: u128,
    handle: HandleState<R>,
    other: Seq<char>,
)
    requires
        other != device_id,
    ensures
        added(devices, device_id, session_id, handle).contains_key(other) == devices.contains_key(
            other,
        ),
        devices.contains_key(other) ==> added(devices, device_id, session_id, handle)[other]
            == devices[other],
{
}

/// A fresh identifier for the session of one tunnel.
///
/// Trusted: calls `uuid::Uuid::new_v4` and hands out its 128 bits through
/// `Uuid::as_u128`. The value is random; what holds of every outcome is that
/// it carries the version number 4 and the variant of RFC 9562.
#[verifier::external_body]
pub(crate) fn random_session_id() -> (session_id: u128)
    ensures
        session_id & 0xF000_C000_0000_0000_0000u128 == 0x4000_8000_0000_0000_0000u128,
{
    uuid::Uuid::new_v4().as_u128()
}

} // verus!
