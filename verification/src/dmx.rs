//! The universe value type and the shared universe store.
//!
//! A [`Universe`] is an ordered buffer of exactly 512 channel values.
//! A [`DmxState`] owns the canonical universe behind a verified
//! reader-writer lock: every reader gets an independent full copy taken
//! while the lock is held, so no reader can observe a buffer that a
//! writer is mid-mutating, and every value that ever sits in the lock
//! is a well-formed universe.

use vstd::prelude::*;
use vstd::rwlock::{RwLock, RwLockPredicate};

use crate::DmxError;

verus! {

/// Number of channels in one universe.
pub const UNIVERSE_SIZE: usize = 512;

/// One lighting universe: exactly [`UNIVERSE_SIZE`] channel values,
/// each an 8-bit quantity. Channel 0 is consumed by the transmit path
/// as the master/indicator brightness.
pub struct Universe {
    channels: Vec<u8>,
}

impl View for Universe {
    type V = Seq<u8>;

    closed spec fn view(&self) -> Seq<u8> {
        self.channels@
    }
}

impl Universe {
    /// A universe is well formed when it holds exactly 512 channels.
    pub open spec fn wf(&self) -> bool {
        self@.len() == UNIVERSE_SIZE
    }

    /// The all-zero universe, the state of the node at process start.
    pub fn new() -> (r: Universe)
        ensures
            r.wf(),
            forall|i: int| 0 <= i < UNIVERSE_SIZE ==> r@[i] == 0u8,
    {
        let mut channels: Vec<u8> = Vec::new();
        let mut n: usize = 0;
        while n < UNIVERSE_SIZE
            invariant
                n <= UNIVERSE_SIZE,
                channels@.len() == n,
                forall|i: int| 0 <= i < n ==> channels@[i] == 0u8,
            decreases UNIVERSE_SIZE - n,
        {
            channels.push(0u8);
            n = n + 1;
        }
        Universe { channels }
    }

    /// The value of one channel.
    pub fn channel(&self, index: usize) -> (r: u8)
        requires
            self.wf(),
            index < UNIVERSE_SIZE,
        ensures
            r == self@[index as int],
    {
        self.channels[index]
    }

    /// Overwrites one channel, leaving every other channel unchanged.
    pub fn write_channel(&mut self, index: usize, value: u8)
        requires
            old(self).wf(),
            index < UNIVERSE_SIZE,
        ensures
            final(self).wf(),
            final(self)@ == old(self)@.update(index as int, value),
    {
        self.channels.set(index, value);
    }

    /// An independent full copy of this universe.
    pub fn snapshot(&self) -> (r: Universe)
        requires
            self.wf(),
        ensures
            r.wf(),
            r@ == self@,
    {
        let mut channels: Vec<u8> = Vec::new();
        let mut n: usize = 0;
        while n < UNIVERSE_SIZE
            invariant
                self.wf(),
                n <= UNIVERSE_SIZE,
                channels@.len() == n,
                forall|i: int| 0 <= i < n ==> channels@[i] == self@[i],
            decreases UNIVERSE_SIZE - n,
        {
            channels.push(self.channels[n]);
            n = n + 1;
        }
        let r = Universe { channels };
        proof {
            assert(r@ =~= self@);
        }
        r
    }

    /// Builds a universe from the first 512 bytes of `data`, or reports
    /// that `data` is too short to carry a full universe.
    pub fn from_bytes(data: &Vec<u8>) -> (r: Option<Universe>)
        ensures
            data@.len() >= UNIVERSE_SIZE ==> (r matches Some(u) && u.wf() && u@ == data@.subrange(
                0,
                UNIVERSE_SIZE as int,
            )),
            data@.len() < UNIVERSE_SIZE ==> r is None,
    {
        if data.len() < UNIVERSE_SIZE {
            return None;
        }
        let mut channels: Vec<u8> = Vec::new();
        let mut n: usize = 0;
        while n < UNIVERSE_SIZE
            invariant
                data@.len() >= UNIVERSE_SIZE,
                n <= UNIVERSE_SIZE,
                channels@.len() == n,
                forall|i: int| 0 <= i < n ==> channels@[i] == data@[i],
            decreases UNIVERSE_SIZE - n,
        {
            channels.push(data[n]);
            n = n + 1;
        }
        let u = Universe { channels };
        proof {
            assert(u@ =~= data@.subrange(0, UNIVERSE_SIZE as int));
        }
        Some(u)
    }

    /// Hands the channel buffer out as a plain byte vector.
    pub fn into_vec(self) -> (r: Vec<u8>)
        ensures
            r@ == self@,
    {
        self.channels
    }
}

/// Writing channel `i` of a universe and then reading channel `i`
/// yields the written value, the universe stays full-size, and every
/// other channel keeps its previous value, for every index in range.
pub proof fn lemma_channel_round_trip(u: Seq<u8>, i: int, v: u8)
    requires
        u.len() == UNIVERSE_SIZE,
        0 <= i < UNIVERSE_SIZE,
    ensures
        u.update(i, v)[i] == v,
        u.update(i, v).len() == UNIVERSE_SIZE,
        forall|j: int| 0 <= j < UNIVERSE_SIZE && j != i ==> u.update(i, v)[j] == u[j],
{
}

/// Accepting a full-size buffer as a universe keeps it intact: taking
/// the first 512 bytes of a 512-byte buffer changes nothing, so a
/// replace-then-read round trip through the store returns a universe
/// structurally equal to the one written.
pub proof fn lemma_replace_round_trip(s: Seq<u8>)
    requires
        s.len() == UNIVERSE_SIZE,
    ensures
        s.subrange(0, UNIVERSE_SIZE as int) == s,
{
    assert(s.subrange(0, UNIVERSE_SIZE as int) =~= s);
}

/// The lock invariant of the shared store: only well-formed universes
/// ever sit in the lock.
pub struct UniverseInv {}

impl RwLockPredicate<Universe> for UniverseInv {
    open spec fn inv(self, v: Universe) -> bool {
        v.wf()
    }
}

/// The shared, synchronized holder of the current universe.
///
/// All access goes through a verified reader-writer lock: mutations are
/// mutually exclusive with each other and with reads, and each critical
/// section only copies or replaces the buffer, so no caller ever sees a
/// torn snapshot. Share it across workers behind an `Arc`.
pub struct DmxState {
    pub lock: RwLock<Universe, UniverseInv>,
}

impl DmxState {
    /// A fresh store holding the all-zero universe.
    pub fn new() -> (r: DmxState) {
        DmxState { lock: RwLock::new(Universe::new(), Ghost(UniverseInv {})) }
    }

    /// An independent full copy of the current universe, taken while
    /// the read lock is held.
    pub fn get(&self) -> (r: Universe)
        ensures
            r.wf(),
    {
        let handle = self.lock.acquire_read();
        let r = handle.borrow().snapshot();
        handle.release_read();
        r
    }

    /// Atomically replaces the entire universe.
    pub fn set(&self, u: Universe)
        requires
            u.wf(),
    {
        let (_stale, handle) = self.lock.acquire_write();
        handle.release_write(u);
    }

    /// The current value of one channel, or `OutOfRangeChannel` if the
    /// index is not below 512.
    pub fn get_channel(&self, channel: usize) -> (r: Result<u8, DmxError>)
        ensures
            r is Ok <==> channel < UNIVERSE_SIZE,
            r is Err ==> r == Err::<u8, DmxError>(DmxError::OutOfRangeChannel),
    {
        if channel >= UNIVERSE_SIZE {
            return Err(DmxError::OutOfRangeChannel);
        }
        let handle = self.lock.acquire_read();
        let value = handle.borrow().channel(channel);
        handle.release_read();
        Ok(value)
    }

    /// Two snapshots taken while both read locks are held agree
    /// exactly: a reader never observes a buffer that a writer is
    /// mid-mutating, so every copy that leaves the store is one whole
    /// written universe, never an interleaving of two.
    pub fn paired_snapshots(&self) -> (r: (Universe, Universe))
        ensures
            r.0@ == r.1@,
            r.0.wf(),
            r.1.wf(),
    {
        let first_handle = self.lock.acquire_read();
        let second_handle = self.lock.acquire_read();
        proof {
            vstd::rwlock::ReadHandle::lemma_readers_match(&first_handle, &second_handle);
        }
        let first = first_handle.borrow().snapshot();
        let second = second_handle.borrow().snapshot();
        second_handle.release_read();
        first_handle.release_read();
        (first, second)
    }

    /// Overwrites one channel, or returns `OutOfRangeChannel` if the
    /// index is not below 512; a rejected index mutates nothing.
    pub fn set_channel(&self, channel: usize, value: u8) -> (r: Result<(), DmxError>)
        ensures
            r is Ok <==> channel < UNIVERSE_SIZE,
            r is Err ==> r == Err::<(), DmxError>(DmxError::OutOfRangeChannel),
    {
        if channel >= UNIVERSE_SIZE {
            return Err(DmxError::OutOfRangeChannel);
        }
        let (mut u, handle) = self.lock.acquire_write();
        u.write_channel(channel, value);
        handle.release_write(u);
        Ok(())
    }
}

} // verus!
