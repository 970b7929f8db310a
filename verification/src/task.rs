//! Race-safe bookkeeping for background work: generations, single-flight slots,
//! latest-request coalescing and the exclusive critical-operation slot.

use vstd::prelude::*;

verus! {

#[derive(Debug, Clone, Copy, PartialEq, Eq, Structural)]
pub struct OperationId(u64);

impl OperationId {
    pub closed spec fn spec_get(self) -> u64 {
        self.0
    }

    pub fn get(self) -> (r: u64)
        ensures
            r == self.spec_get(),
    {
        self.0
    }
}

/// The generation that follows `current`: one more, skipping zero on wrap-around.
pub open spec fn spec_next_generation(current: u64) -> u64 {
    if current == u64::MAX {
        1
    } else {
        (current + 1) as u64
    }
}

#[derive(Debug, Default)]
pub struct GenerationGate {
    current: u64,
}

impl GenerationGate {
    pub closed spec fn spec_current(&self) -> u64 {
        self.current
    }

    pub fn new() -> (r: Self)
        ensures
            r.spec_current() == 0,
    {
        GenerationGate { current: 0 }
    }

    /// Start a new generation; every earlier generation stops being current.
    pub fn begin(&mut self) -> (r: u64)
        ensures
            r == spec_next_generation(old(self).spec_current()),
            final(self).spec_current() == r,
            r != 0,
    {
        self.current = self.current.wrapping_add(1);
        if self.current == 0 {
            self.current = 1;
        }
        self.current
    }

    pub fn is_current(&self, generation: u64) -> (r: bool)
        ensures
            r == (generation == self.spec_current()),
    {
        generation == self.current
    }

    pub fn current(&self) -> (r: u64)
        ensures
            r == self.spec_current(),
    {
        self.current
    }
}

/// A fresh generation is never zero and never equals the one it replaces.
pub proof fn lemma_generation_advances(current: u64)
    ensures
        spec_next_generation(current) != current,
        spec_next_generation(current) != 0,
{
}

#[derive(Debug, Default)]
pub struct SingleFlightGate {
    running: bool,
}

impl SingleFlightGate {
    pub closed spec fn spec_running(&self) -> bool {
        self.running
    }

    pub fn new() -> (r: Self)
        ensures
            !r.spec_running(),
    {
        SingleFlightGate { running: false }
    }

    /// Claim the slot; fails when a run is already in flight.
    pub fn try_start(&mut self) -> (r: bool)
        ensures
            r == !old(self).spec_running(),
            final(self).spec_running(),
    {
        if self.running {
            false
        } else {
            self.running = true;
            true
        }
    }

    pub fn finish(&mut self)
        ensures
            !final(self).spec_running(),
    {
        self.running = false;
    }

    pub fn is_running(&self) -> (r: bool)
        ensures
            r == self.spec_running(),
    {
        self.running
    }
}

/// Outcome of asking a slot for the latest request.
pub enum LatestRequest<P> {
    Started { generation: u64, request: P },
    Queued { generation: u64 },
}

/// Outcome of a finished run of a slot that coalesces to the latest request.
pub enum LatestCompletion<P> {
    Restart { generation: u64, request: P },
    Deliver(bool),
}

/// One kind of background work: its generations, its single-flight gate and the
/// latest request that arrived while a run was in flight.
pub struct TaskSlot<P> {
    generation: GenerationGate,
    single_flight: SingleFlightGate,
    pending_latest: Option<(u64, P)>,
}

impl<P> TaskSlot<P> {
    pub closed spec fn spec_current(&self) -> u64 {
        self.generation.spec_current()
    }

    pub closed spec fn spec_running(&self) -> bool {
        self.single_flight.spec_running()
    }

    pub closed spec fn spec_pending(&self) -> Option<(u64, P)> {
        self.pending_latest
    }

    pub fn new() -> (r: Self)
        ensures
            r.spec_current() == 0,
            !r.spec_running(),
            r.spec_pending() is None,
    {
        TaskSlot {
            generation: GenerationGate::new(),
            single_flight: SingleFlightGate::new(),
            pending_latest: None,
        }
    }

    pub fn is_running(&self) -> (r: bool)
        ensures
            r == self.spec_running(),
    {
        self.single_flight.is_running()
    }

    /// The newest request waiting for the running one to finish, with its generation.
    pub fn pending_request(&self) -> (r: Option<&(u64, P)>)
        ensures
            self.spec_pending() is None ==> r is None,
            self.spec_pending() matches Some(p) ==> (r matches Some(x) && *x == p),
    {
        match &self.pending_latest {
            Some(p) => Some(p),
            None => None,
        }
    }

    /// Start a run when the slot is idle, returning its generation.
    pub fn try_begin(&mut self) -> (r: Option<u64>)
        ensures
            old(self).spec_running() ==> r is None && final(self).spec_current() == old(self).spec_current(),
            !old(self).spec_running() ==> r == Some(spec_next_generation(old(self).spec_current()))
                && final(self).spec_current() == spec_next_generation(old(self).spec_current()),
            final(self).spec_running(),
            final(self).spec_pending() == old(self).spec_pending(),
    {
        if self.single_flight.try_start() {
            Some(self.generation.begin())
        } else {
            None
        }
    }

    /// Ask for a run with `request`; while a run is in flight only the newest request waits.
    pub fn request_latest(&mut self, request: P) -> (r: LatestRequest<P>)
        ensures
            final(self).spec_current() == spec_next_generation(old(self).spec_current()),
            final(self).spec_running(),
            !old(self).spec_running() ==> r == (LatestRequest::Started {
                generation: final(self).spec_current(),
                request,
            }) && final(self).spec_pending() == old(self).spec_pending(),
            old(self).spec_running() ==> r == (LatestRequest::<P>::Queued {
                generation: final(self).spec_current(),
            }) && final(self).spec_pending() == Some((final(self).spec_current(), request)),
    {
        let generation = self.generation.begin();
        if self.single_flight.try_start() {
            LatestRequest::Started { generation, request }
        } else {
            self.pending_latest = Some((generation, request));
            LatestRequest::Queued { generation }
        }
    }

    /// Finish a run; its result counts only if no newer generation began meanwhile.
    pub fn finish(&mut self, generation: u64) -> (r: bool)
        ensures
            r == (generation == old(self).spec_current()),
            !final(self).spec_running(),
            final(self).spec_current() == old(self).spec_current(),
            final(self).spec_pending() == old(self).spec_pending(),
    {
        self.single_flight.finish();
        self.generation.is_current(generation)
    }

    /// Finish a run; a waiting newest request is started at once, otherwise the
    /// result is delivered only if it is still current.
    pub fn finish_latest(&mut self, generation: u64) -> (r: LatestCompletion<P>)
        ensures
            final(self).spec_current() == old(self).spec_current(),
            final(self).spec_pending() is None,
            old(self).spec_pending() matches Some((g, req)) ==> r == (LatestCompletion::Restart {
                generation: g,
                request: req,
            }) && final(self).spec_running(),
            old(self).spec_pending() is None ==> r == LatestCompletion::<P>::Deliver(
                generation == old(self).spec_current(),
            ) && !final(self).spec_running(),
    {
        self.single_flight.finish();
        if let Some((next_generation, request)) = self.pending_latest.take() {
            let _started = self.single_flight.try_start();
            LatestCompletion::Restart { generation: next_generation, request }
        } else {
            LatestCompletion::Deliver(self.generation.is_current(generation))
        }
    }
}

/// The single slot for destructive operations: at most one is active, and ids of
/// consecutive operations differ.
#[derive(Debug, Default)]
pub struct OperationSlot {
    next_operation_id: u64,
    active_operation: Option<OperationId>,
}

impl OperationSlot {
    pub closed spec fn spec_active(&self) -> Option<OperationId> {
        self.active_operation
    }

    pub closed spec fn spec_last_id(&self) -> u64 {
        self.next_operation_id
    }

    pub fn new() -> (r: Self)
        ensures
            r.spec_active() is None,
            r.spec_last_id() == 0,
    {
        OperationSlot { next_operation_id: 0, active_operation: None }
    }

    /// Claim the slot for a new operation; fails while another one is active.
    pub fn begin_operation(&mut self) -> (r: Result<OperationId, &'static str>)
        ensures
            old(self).spec_active() is Some ==> r is Err && *final(self) == *old(self),
            old(self).spec_active() is None ==> (r matches Ok(id) && id.spec_get()
                == spec_next_generation(old(self).spec_last_id()) && final(self).spec_active()
                == Some(id) && final(self).spec_last_id() == id.spec_get()),
    {
        if self.active_operation.is_some() {
            return Err("已有关键操作正在执行");
        }
        self.next_operation_id = self.next_operation_id.wrapping_add(1);
        if self.next_operation_id == 0 {
            self.next_operation_id = 1;
        }
        let operation_id = OperationId(self.next_operation_id);
        self.active_operation = Some(operation_id);
        Ok(operation_id)
    }

    pub fn active_operation(&self) -> (r: Option<OperationId>)
        ensures
            r == self.spec_active(),
    {
        self.active_operation
    }

    /// Release the slot when `operation_id` is the active operation.
    pub fn finish_operation(&mut self, operation_id: OperationId) -> (r: bool)
        ensures
            r == (old(self).spec_active() == Some(operation_id)),
            r ==> final(self).spec_active() is None,
            !r ==> final(self).spec_active() == old(self).spec_active(),
            final(self).spec_last_id() == old(self).spec_last_id(),
    {
        match self.active_operation {
            Some(active) => {
                if active.0 == operation_id.0 {
                    self.active_operation = None;
                    true
                } else {
                    false
                }
            },
            None => false,
        }
    }

    /// Forget the active operation unconditionally (its worker has been joined).
    pub fn clear(&mut self)
        ensures
            final(self).spec_active() is None,
            final(self).spec_last_id() == old(self).spec_last_id(),
    {
        self.active_operation = None;
    }
}

/// Two operations begun one after the other get different ids.
pub proof fn lemma_operation_ids_do_not_repeat(last: u64)
    ensures
        spec_next_generation(spec_next_generation(last)) != spec_next_generation(last),
{
}

} // verus!
