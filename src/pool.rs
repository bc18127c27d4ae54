//! The buffer pool of one port and the guards around delivered buffers.
//!
//! A pool holds a fixed number of buffers. Each is in one of three places: in the
//! pool's free queue, at the port (the driver owns it), or held by a guard after the
//! driver delivered it. The counts of the three always add up to the pool's capacity.
use vstd::prelude::*;

use crate::error::{CameraError, MMAL_STATUS_MAX, MMAL_SUCCESS};

verus! {

/// Where a pool's buffers are.
#[derive(Debug, Clone, Copy, PartialEq, Eq, Structural)]
pub struct PoolState {
    pub capacity: u32,
    /// in the pool's free queue
    pub free: u32,
    /// sent to the port and not yet delivered back
    pub at_port: u32,
    /// delivered and held by a guard
    pub held: u32,
}

pub open spec fn pool_wf(p: PoolState) -> bool {
    p.free + p.at_port + p.held == p.capacity
}

/// Every free buffer sent to the port.
pub open spec fn drain_state(p: PoolState) -> PoolState {
    PoolState { free: 0, at_port: (p.at_port + p.free) as u32, ..p }
}

/// The driver delivers a buffer, which a guard now holds.
pub open spec fn deliver_state(p: PoolState) -> PoolState {
    PoolState { at_port: (p.at_port - 1) as u32, held: (p.held + 1) as u32, ..p }
}

/// A guard is destroyed: its buffer goes back to the free queue and, while the port is
/// enabled, a free buffer goes straight on to the port.
pub open spec fn release_state(p: PoolState, port_enabled: bool) -> PoolState {
    if port_enabled {
        PoolState { held: (p.held - 1) as u32, at_port: (p.at_port + 1) as u32, ..p }
    } else {
        PoolState { held: (p.held - 1) as u32, free: (p.free + 1) as u32, ..p }
    }
}

/// The terminal delivery: its buffer goes back to the free queue, with no guard.
pub open spec fn terminal_state(p: PoolState) -> PoolState {
    PoolState { at_port: (p.at_port - 1) as u32, free: (p.free + 1) as u32, ..p }
}

/// A buffer the port refused goes back to the free queue.
pub open spec fn refused_state(p: PoolState) -> PoolState {
    PoolState { at_port: (p.at_port - 1) as u32, free: (p.free + 1) as u32, ..p }
}

/// `n` deliveries in a row.
pub open spec fn deliver_n(p: PoolState, n: nat) -> PoolState
    decreases n,
{
    if n == 0 {
        p
    } else {
        deliver_n(deliver_state(p), (n - 1) as nat)
    }
}

/// `n` guards destroyed in a row.
pub open spec fn release_n(p: PoolState, n: nat, port_enabled: bool) -> PoolState
    decreases n,
{
    if n == 0 {
        p
    } else {
        release_n(release_state(p, port_enabled), (n - 1) as nat, port_enabled)
    }
}

/// One delivered buffer, held until the guard is given back to its pool.
///
/// A guard is neither copied nor cloned: [`BufferPool::release`] consumes it, so each
/// guard is destroyed exactly once.
#[derive(Debug)]
pub struct BufferGuard {
    offset: u32,
    length: u32,
    frame_end: bool,
}

impl BufferGuard {
    pub closed spec fn spec_offset(&self) -> u32 {
        self.offset
    }

    pub closed spec fn spec_length(&self) -> u32 {
        self.length
    }

    pub closed spec fn spec_frame_end(&self) -> bool {
        self.frame_end
    }

    /// A guard over the `length` bytes at `offset` of a buffer's data.
    pub fn new(offset: u32, length: u32, frame_end: bool) -> (r: BufferGuard)
        ensures
            r.spec_offset() == offset,
            r.spec_length() == length,
            r.spec_frame_end() == frame_end,
    {
        BufferGuard { offset, length, frame_end }
    }

    /// This buffer closes a still image or a video access unit.
    pub fn is_frame_end(&self) -> (r: bool)
        ensures
            r == self.spec_frame_end(),
    {
        self.frame_end
    }

    pub fn len(&self) -> (r: u32)
        ensures
            r == self.spec_length(),
    {
        self.length
    }

    /// The valid bytes of the buffer, whose whole data is `data`: a read view, since
    /// the driver's pool owns the memory.
    pub fn get_bytes<'a>(&self, data: &'a [u8]) -> (r: &'a [u8])
        requires
            self.spec_offset() + self.spec_length() <= data@.len(),
        ensures
            r@ == data@.subrange(
                self.spec_offset() as int,
                self.spec_offset() + self.spec_length(),
            ),
    {
        let (_, rest) = data.split_at(self.offset as usize);
        let (bytes, _) = rest.split_at(self.length as usize);
        proof {
            assert(bytes@ =~= data@.subrange(
                self.spec_offset() as int,
                self.spec_offset() + self.spec_length(),
            ));
        }
        bytes
    }
}

/// The fixed set of buffers backing one port.
#[derive(Debug)]
pub struct BufferPool {
    st: PoolState,
}

impl View for BufferPool {
    type V = PoolState;

    closed spec fn view(&self) -> PoolState {
        self.st
    }
}

impl BufferPool {
    pub open spec fn wf(&self) -> bool {
        pool_wf(self@)
    }

    /// A pool of `capacity` buffers, all free.
    pub fn new(capacity: u32) -> (r: BufferPool)
        ensures
            r.wf(),
            r@ == (PoolState { capacity, free: capacity, at_port: 0, held: 0 }),
    {
        BufferPool { st: PoolState { capacity, free: capacity, at_port: 0, held: 0 } }
    }

    pub fn state(&self) -> (r: PoolState)
        ensures
            r == self@,
    {
        self.st
    }

    /// How many buffers the caller sends to the port to arm a session: all free ones.
    pub fn free_count(&self) -> (r: u32)
        ensures
            r == self@.free,
    {
        self.st.free
    }

    /// The port's answer to one buffer sent from the free queue. A refusal ends the
    /// arming: the caller gives the buffer back and stops sending.
    pub fn send_buffer(&mut self, status: u32) -> (r: Result<(), CameraError>)
        requires
            old(self).wf(),
            old(self)@.free > 0,
        ensures
            final(self).wf(),
            status == MMAL_SUCCESS <==> r is Ok,
            r is Ok ==> final(self)@ == (PoolState {
                free: (old(self)@.free - 1) as u32,
                at_port: (old(self)@.at_port + 1) as u32,
                ..old(self)@
            }),
            r matches Err(e) ==> e.is_driver(
                "Unable to send a buffer to camera output port"@,
                status,
            ) && final(self)@ == old(self)@,
    {
        if status == MMAL_SUCCESS {
            self.st.free = self.st.free - 1;
            self.st.at_port = self.st.at_port + 1;
            Ok(())
        } else {
            Err(CameraError::driver("Unable to send a buffer to camera output port", status))
        }
    }

    /// The error for a free queue that came up empty while buffers were owed.
    pub fn missing_buffer() -> (r: CameraError)
        ensures
            r.is_driver("Unable to get a required buffer from pool queue"@, MMAL_STATUS_MAX),
    {
        CameraError::driver("Unable to get a required buffer from pool queue", MMAL_STATUS_MAX)
    }

    /// Sends every free buffer to the port, for a port that accepts them all.
    pub fn drain_into(&mut self) -> (n: u32)
        requires
            old(self).wf(),
        ensures
            final(self).wf(),
            n == old(self)@.free,
            final(self)@ == drain_state(old(self)@),
    {
        let n = self.st.free;
        self.st.at_port = self.st.at_port + n;
        self.st.free = 0;
        n
    }

    /// The driver delivers a payload of `length` bytes at `offset`: a guard holds it.
    pub fn deliver(&mut self, offset: u32, length: u32, frame_end: bool) -> (r: BufferGuard)
        requires
            old(self).wf(),
            old(self)@.at_port > 0,
        ensures
            final(self).wf(),
            final(self)@ == deliver_state(old(self)@),
            r.spec_offset() == offset,
            r.spec_length() == length,
            r.spec_frame_end() == frame_end,
    {
        self.st.at_port = self.st.at_port - 1;
        self.st.held = self.st.held + 1;
        BufferGuard::new(offset, length, frame_end)
    }

    /// Destroys a guard: its buffer returns to the free queue and, only while the port
    /// is still enabled, a fresh buffer goes on to the port. True where the caller
    /// resubmits one to the port.
    pub fn release(&mut self, guard: BufferGuard, port_enabled: bool) -> (requeue: bool)
        requires
            old(self).wf(),
            old(self)@.held > 0,
        ensures
            final(self).wf(),
            requeue == port_enabled,
            final(self)@ == release_state(old(self)@, port_enabled),
    {
        let BufferGuard { .. } = guard;
        self.st.held = self.st.held - 1;
        if port_enabled {
            self.st.at_port = self.st.at_port + 1;
        } else {
            self.st.free = self.st.free + 1;
        }
        port_enabled
    }

    /// The terminal delivery's buffer goes back to the free queue; no guard is made.
    pub fn release_terminal(&mut self)
        requires
            old(self).wf(),
            old(self)@.at_port > 0,
        ensures
            final(self).wf(),
            final(self)@ == terminal_state(old(self)@),
    {
        self.st.at_port = self.st.at_port - 1;
        self.st.free = self.st.free + 1;
    }

    /// A buffer the port refused on resubmission goes back to the free queue.
    pub fn requeue_refused(&mut self)
        requires
            old(self).wf(),
            old(self)@.at_port > 0,
        ensures
            final(self).wf(),
            final(self)@ == refused_state(old(self)@),
    {
        self.st.at_port = self.st.at_port - 1;
        self.st.free = self.st.free + 1;
    }
}

proof fn lemma_deliver_n(p: PoolState, n: nat)
    requires
        pool_wf(p),
        n <= p.at_port,
    ensures
        deliver_n(p, n) == (PoolState {
            at_port: (p.at_port - n) as u32,
            held: (p.held + n) as u32,
            ..p
        }),
    decreases n,
{
    if n > 0 {
        lemma_deliver_n(deliver_state(p), (n - 1) as nat);
    }
}

proof fn lemma_release_n(p: PoolState, n: nat)
    requires
        pool_wf(p),
        n <= p.held,
    ensures
        release_n(p, n, false) == (PoolState {
            free: (p.free + n) as u32,
            held: (p.held - n) as u32,
            ..p
        }),
    decreases n,
{
    if n > 0 {
        lemma_release_n(release_state(p, false), (n - 1) as nat);
    }
}

/// Every operation keeps each buffer in exactly one place.
pub proof fn lemma_pool_conserves_buffers(p: PoolState, port_enabled: bool)
    requires
        pool_wf(p),
    ensures
        pool_wf(drain_state(p)),
        p.at_port > 0 ==> pool_wf(deliver_state(p)),
        p.held > 0 ==> pool_wf(release_state(p, port_enabled)),
        p.at_port > 0 ==> pool_wf(terminal_state(p)),
        p.at_port > 0 ==> pool_wf(refused_state(p)),
{
}

/// A full drain-and-return cycle restores the pool: every free buffer sent to the
/// port, every one delivered back into a guard, and every guard destroyed once the
/// port is disabled leaves the pool exactly as it was.
pub proof fn lemma_drain_and_return_restores_pool(p: PoolState)
    requires
        pool_wf(p),
        p.at_port == 0,
        p.held == 0,
    ensures
        release_n(deliver_n(drain_state(p), p.free as nat), p.free as nat, false) == p,
{
    let d = drain_state(p);
    lemma_deliver_n(d, p.free as nat);
    lemma_release_n(deliver_n(d, p.free as nat), p.free as nat);
}

} // verus!
