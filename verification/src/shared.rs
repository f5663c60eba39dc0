//! Interrupt-shared buffer pattern, illustrated by a streaming byte
//! receiver.
//!
//! Three process-wide cells move data from the interrupt handler to the
//! main context: a write-once cell holding an optional peripheral handle,
//! a fixed-size byte buffer, and a write index. Every access happens
//! inside a critical section — interrupts globally disabled — which this
//! module renders as exclusive `&mut` access to the whole shared state:
//! the wiring that actually masks interrupts around each call lives with
//! the program, outside the library.

use vstd::prelude::*;

verus! {

#[derive(Clone, Copy)]
/// A byte-receive peripheral as the handler sees it: a data register
/// holding the last byte received and a data-ready interrupt flag.
pub struct RxPeriph {
    pub dr: u8,
    pub ready: bool,
}

impl RxPeriph {
    /// Clear the data-ready interrupt flag, so the interrupt does not
    /// fire again the moment the critical section closes.
    pub fn clear_ready(&mut self)
        ensures
            !final(self).ready,
            final(self).dr == old(self).dr,
    {
        self.ready = false;
    }

    /// Read the received byte from the data register.
    pub fn read(&self) -> (r: u8)
        ensures
            r == self.dr,
    {
        self.dr
    }
}

/// The shared cells: the write-once handle, the byte buffer, and the
/// write index. The buffer's capacity is fixed at construction; the
/// index never passes it.
pub struct RxShared {
    pub periph: Option<RxPeriph>,
    pub buf: Vec<u8>,
    pub idx: usize,
}

impl RxShared {
    /// Well-formed shared state: the write index has not passed the
    /// buffer's capacity. Construction establishes it and every
    /// operation preserves it.
    pub open spec fn wf(&self) -> bool {
        self.idx <= self.buf@.len()
    }

    /// Fresh shared state for a buffer of `cap` bytes: the handle cell
    /// empty, the buffer zeroed, the index at the start.
    pub fn new(cap: usize) -> (r: Self)
        ensures
            r.wf(),
            r.periph is None,
            r.buf@ == Seq::new(cap as nat, |i: int| 0u8),
            r.idx == 0,
    {
        let mut buf: Vec<u8> = Vec::new();
        let mut i: usize = 0;
        while i < cap
            invariant
                i <= cap,
                buf@.len() == i,
                forall|j: int| 0 <= j < i ==> buf@[j] == 0u8,
            decreases cap - i,
        {
            buf.push(0);
            i = i + 1;
        }
        proof {
            assert(buf@ =~= Seq::new(cap as nat, |j: int| 0u8));
        }
        RxShared { periph: None, buf, idx: 0 }
    }

    /// Startup handoff: move the configured peripheral handle into the
    /// shared cell. The cell is write-once — it must still be empty, and
    /// no transition back to empty is defined, so re-populating it is
    /// unsupported. The interrupt may be unmasked only after this call;
    /// before it, the handler would observe an empty handle.
    pub fn install(&mut self, p: RxPeriph)
        requires
            old(self).periph is None,
        ensures
            final(self).periph == Some(p),
            final(self).buf == old(self).buf,
            final(self).idx == old(self).idx,
    {
        self.periph = Some(p);
    }

    /// One interrupt service, run with the shared state held exclusively
    /// inside a critical section. The handler clears the peripheral's
    /// data-ready flag first, then reads the received byte; if the index
    /// is still short of the capacity the byte lands at the index and the
    /// index advances, and once the index has reached the capacity the
    /// byte is dropped — buffer and index stay put, so the handler never
    /// writes past the end. With no handle installed nothing changes.
    pub fn on_interrupt(&mut self)
        ensures
            old(self).wf() ==> final(self).wf(),
            final(self).buf@.len() == old(self).buf@.len(),
            old(self).periph is None ==> final(self).periph is None
                && final(self).buf == old(self).buf && final(self).idx == old(self).idx,
            old(self).periph matches Some(p) ==> final(self).periph == Some(
                RxPeriph { dr: p.dr, ready: false },
            ) && if old(self).idx < old(self).buf@.len() {
                final(self).buf@ == old(self).buf@.update(old(self).idx as int, p.dr)
                    && final(self).idx == old(self).idx + 1
            } else {
                final(self).buf == old(self).buf && final(self).idx == old(self).idx
            },
    {
        match self.periph {
            None => {},
            Some(p0) => {
                let mut p = p0;
                p.clear_ready();
                let byte = p.read();
                self.periph = Some(p);
                if self.idx < self.buf.len() {
                    let i = self.idx;
                    self.buf[i] = byte;
                    self.idx = i + 1;
                }
            },
        }
    }

    /// Main-context read of the write index, made inside a critical
    /// section since the handler advances it concurrently.
    pub fn index(&self) -> (r: usize)
        ensures
            r == self.idx,
    {
        self.idx
    }

    /// Main-context read of one received byte, made inside a critical
    /// section since the handler fills the buffer concurrently.
    pub fn byte_at(&self, i: usize) -> (r: u8)
        requires
            i < self.buf@.len(),
        ensures
            r == self.buf@[i as int],
    {
        self.buf[i]
    }
}

} // verus!
