//! The editable machine state and the sync scheduler.
//!
//! `Memory` is the edge-triggered dirty flag over the memory image; `Xregs`
//! holds the thirty-two general registers with their editors; `Panel` is the
//! state behind the emulator window; `EmulatorPanel` ties a `Panel` to the
//! result slot and a one-second cadence, dispatching at most one snapshot
//! upload at a time and forwarding delivered failures to a notification sink.

use vstd::prelude::*;
use crate::client::Error;
use crate::emulator::decoder::{spec_scan, Decoder, InstructionRecord};
use crate::login::Account;
use crate::repr::session::{Bus, BusView, CpuRepr, CpuReprView, SessionRepr, SessionReprView};
use crate::utils::{Arx, ArxSender, Poll};
use crate::widgets::hex::HexEdit;

verus! {

/// The scheduler attempts a sync whenever at least this many milliseconds
/// have passed since the last attempt and no upload is outstanding.
pub const SYNC_INTERVAL_MS: u64 = 1000;

/// The edited machine state: program counter and memory image.
pub struct State {
    pub pc: u64,
    pub memory: Vec<u8>,
}

impl Default for State {
    /// A fresh state: program counter zero, empty memory.
    fn default() -> (r: Self)
        ensures
            r.pc == 0,
            r.memory@ =~= Seq::<u8>::empty(),
    {
        State { pc: 0, memory: Vec::new() }
    }
}

impl Clone for State {
    /// A clone carries the same program counter and bytes.
    fn clone(&self) -> (r: Self)
        ensures
            r.pc == self.pc,
            r.memory@ == self.memory@,
    {
        let memory = self.memory.clone();
        proof {
            assert(memory@ =~= self.memory@);
        }
        State { pc: self.pc, memory }
    }
}

/// The edge-triggered dirty flag of the memory editor: set by every mutation,
/// consumed exactly once per check.
pub struct Memory {
    changed: bool,
}

impl Memory {
    /// Whether a mutation has been recorded and not yet consumed.
    pub closed spec fn is_changed(&self) -> bool {
        self.changed
    }

    /// A fresh tracker has nothing recorded.
    pub fn new() -> (r: Self)
        ensures
            !r.is_changed(),
    {
        Memory { changed: false }
    }

    /// Record a mutation. Any number of further calls before the next check
    /// leave the flag set just the same.
    pub fn mark_changed(&mut self)
        ensures
            final(self).is_changed(),
    {
        self.changed = true;
    }

    /// One byte write from the editor: the mutation is recorded, and the byte
    /// is stored when the address is in bounds and dropped when it is not.
    pub fn write_byte(&mut self, mem: &mut Vec<u8>, addr: usize, val: u8)
        ensures
            final(self).is_changed(),
            addr < old(mem)@.len() ==> final(mem)@ == old(mem)@.update(addr as int, val),
            addr >= old(mem)@.len() ==> final(mem)@ == old(mem)@,
    {
        self.changed = true;
        if addr < mem.len() {
            mem.set(addr, val);
        }
    }

    /// Consume the flag: when a mutation was recorded, clear the flag first
    /// and then run `action` exactly once, synchronously; otherwise do
    /// nothing. A mutation recorded during `action` sets the flag again, so a
    /// later check runs again: no recorded mutation is ever silently lost.
    pub fn if_changed<F: FnOnce()>(&mut self, action: F)
        requires
            old(self).is_changed() ==> call_requires(action, ()),
        ensures
            !final(self).is_changed(),
            old(self).is_changed() ==> call_ensures(action, (), ()),
            !old(self).is_changed() ==> *final(self) == *old(self),
    {
        if self.changed {
            self.changed = false;
            action();
        }
    }
}

impl Default for Memory {
    /// A fresh tracker has nothing recorded.
    fn default() -> (r: Self)
        ensures
            !r.is_changed(),
    {
        Memory::new()
    }
}

/// The thirty-two general registers, each paired with the editing state of
/// its text field.
pub struct Xregs {
    pub regs: Vec<(u64, HexEdit)>,
}

impl Xregs {
    /// There are exactly thirty-two registers.
    pub open spec fn wf(&self) -> bool {
        self.regs@.len() == 32
    }

    /// The register values, in order.
    pub open spec fn values(&self) -> Seq<u64> {
        Seq::new(self.regs@.len(), |i: int| self.regs@[i].0)
    }

    /// A fresh bank: thirty-two registers, all zero.
    pub fn new() -> (r: Self)
        ensures
            r.wf(),
            forall|i: int| 0 <= i < 32 ==> r.values()[i] == 0,
    {
        let mut regs: Vec<(u64, HexEdit)> = Vec::new();
        let mut i: usize = 0;
        while i < 32
            invariant
                i <= 32,
                regs@.len() == i,
                forall|j: int| 0 <= j < i ==> regs@[j].0 == 0,
            decreases 32 - i,
        {
            regs.push((0, HexEdit::default()));
            i = i + 1;
        }
        Xregs { regs }
    }

    /// Store `val` into register `i`, keeping its editor state.
    pub fn set_value(&mut self, i: usize, val: u64)
        requires
            i < old(self).regs@.len(),
        ensures
            final(self).regs@.len() == old(self).regs@.len(),
            final(self).values() =~= old(self).values().update(i as int, val),
            forall|j: int|
                0 <= j < old(self).regs@.len() && j != i ==> final(self).regs@[j] == old(
                    self,
                ).regs@[j],
            final(self).regs@[i as int].1 == old(self).regs@[i as int].1,
    {
        let entry = &mut self.regs[i];
        entry.0 = val;
    }

    /// The register values as a vector, for building a snapshot.
    pub fn value_vec(&self) -> (r: Vec<u64>)
        ensures
            r@ == self.values(),
    {
        let mut r: Vec<u64> = Vec::new();
        let mut i: usize = 0;
        while i < self.regs.len()
            invariant
                i <= self.regs@.len(),
                r@.len() == i,
                forall|j: int| 0 <= j < i ==> r@[j] == self.regs@[j].0,
            decreases self.regs@.len() - i,
        {
            r.push(self.regs[i].0);
            i = i + 1;
        }
        proof {
            assert(r@ =~= self.values());
        }
        r
    }
}

impl Default for Xregs {
    /// A fresh bank: thirty-two registers, all zero.
    fn default() -> (r: Self)
        ensures
            r.wf(),
            forall|i: int| 0 <= i < 32 ==> r.values()[i] == 0,
    {
        Xregs::new()
    }
}

/// The state behind the emulator window: registers, dirty tracking, the
/// decoded listing, the machine state, the session's display name, and
/// whether the user asked to leave the session.
pub struct Panel {
    pub xregs: Xregs,
    pub dram: Memory,
    pub listing: Decoder,
    pub exit: bool,
    pub state: State,
    pub name: String,
}

impl Default for Panel {
    /// A fresh panel: zeroed registers, clean tracker, empty listing and
    /// state, empty name, not exiting.
    fn default() -> (r: Self)
        ensures
            r.xregs.wf(),
            forall|i: int| 0 <= i < 32 ==> r.xregs.values()[i] == 0,
            !r.dram.is_changed(),
            r.listing@ =~= Seq::<InstructionRecord>::empty(),
            !r.exit,
            r.state.pc == 0,
            r.state.memory@ =~= Seq::<u8>::empty(),
            r.name@ =~= Seq::<char>::empty(),
    {
        Panel {
            xregs: Xregs::new(),
            dram: Memory::new(),
            listing: Decoder::default(),
            exit: false,
            state: State::default(),
            name: String::new(),
        }
    }
}

impl Panel {
    /// Load a stored session into the panel: the memory image and program
    /// counter replace the state, the stored registers fill the bank (extra
    /// stored values beyond thirty-two are dropped, missing ones leave the
    /// old value), the listing is recomputed over the new memory, and the
    /// display name is taken over.
    pub fn store_repr(&mut self, repr: SessionRepr)
        requires
            old(self).xregs.wf(),
        ensures
            final(self).state.memory@ == repr.cpu.bus.dram@,
            final(self).state.pc == repr.cpu.pc,
            final(self).xregs.wf(),
            forall|i: int|
                0 <= i < 32 ==> final(self).xregs.values()[i] == (if i < repr.cpu.xregs@.len() {
                    repr.cpu.xregs@[i]
                } else {
                    old(self).xregs.values()[i]
                }),
            final(self).listing@ == spec_scan(repr.cpu.bus.dram@, 0),
            final(self).listing.open == old(self).listing.open,
            final(self).name@ == repr.name@,
            final(self).dram == old(self).dram,
            final(self).exit == old(self).exit,
    {
        self.state.memory = repr.cpu.bus.dram;
        self.state.pc = repr.cpu.pc;

        let count = if repr.cpu.xregs.len() < 32 {
            repr.cpu.xregs.len()
        } else {
            32
        };
        let mut i: usize = 0;
        while i < count
            invariant
                count <= 32,
                count <= repr.cpu.xregs@.len(),
                i <= count,
                old(self).xregs.regs@.len() == 32,
                self.xregs.regs@.len() == 32,
                self.state.memory@ == repr.cpu.bus.dram@,
                self.state.pc == repr.cpu.pc,
                self.dram == old(self).dram,
                self.exit == old(self).exit,
                self.listing == old(self).listing,
                forall|j: int|
                    0 <= j < 32 ==> self.xregs.values()[j] == (if j < i {
                        repr.cpu.xregs@[j]
                    } else {
                        old(self).xregs.values()[j]
                    }),
            decreases count - i,
        {
            self.xregs.set_value(i, repr.cpu.xregs[i]);
            i = i + 1;
        }

        self.listing.decode(self.state.memory.as_slice());
        self.name = repr.name;
    }
}

/// What one delivered upload outcome leaves for the notification sink: a
/// failure is forwarded as it is, an acknowledgement is discarded silently.
/// `tick` applies this to whatever the slot delivers, so it holds for every
/// outcome a background upload can produce.
pub fn settle_outcome(outcome: Result<(), Error>) -> (r: Option<Error>)
    ensures
        outcome matches Err(e) ==> (r matches Some(n) && n == e),
        outcome matches Ok(_) ==> r is None,
{
    match outcome {
        Ok(_) => None,
        Err(e) => Some(e),
    }
}

/// What one scheduler tick asks the caller to do: forward a delivered
/// failure to the notification sink, and run a dispatched snapshot upload.
pub struct Tick {
    pub notify: Option<Error>,
    pub upload: Option<(ArxSender<Result<(), Error>>, SessionRepr)>,
}

/// The emulator panel with its sync scheduler: the panel state, the loaded
/// session record, the time of the last sync attempt, the account the uploads
/// run under, and the slot through which at most one upload is outstanding.
pub struct EmulatorPanel {
    pub panel: Panel,
    pub repr: SessionRepr,
    pub last_ms: u64,
    pub auth: Account,
    pub synx: Arx<Result<(), Error>>,
}

impl EmulatorPanel {
    /// The snapshot a sync attempt would upload right now: the loaded
    /// session's identity and timestamps, with the panel's current name,
    /// program counter, registers and memory.
    pub open spec fn snapshot_view(&self) -> SessionReprView {
        SessionReprView {
            id: self.repr.id@,
            user: self.repr.user@,
            name: self.panel.name@,
            creation: self.repr.creation@,
            modified: self.repr.modified@,
            cpu: CpuReprView {
                pc: self.panel.state.pc,
                xregs: self.panel.xregs.values(),
                bus: BusView { dram: self.panel.state.memory@ },
            },
        }
    }

    /// Whether a tick at `now_ms` is due to attempt a sync.
    pub open spec fn due(&self, now_ms: u64) -> bool {
        now_ms - self.last_ms >= SYNC_INTERVAL_MS
    }

    /// Open a session: load the stored record into a fresh panel, keep the
    /// record and the account, start the attempt timer at `now_ms`, and leave
    /// the slot idle.
    pub fn new(auth: Account, repr: SessionRepr, now_ms: u64) -> (r: Self)
        ensures
            r.panel.state.memory@ == repr.cpu.bus.dram@,
            r.panel.state.pc == repr.cpu.pc,
            r.panel.xregs.wf(),
            forall|i: int|
                0 <= i < 32 ==> r.panel.xregs.values()[i] == (if i < repr.cpu.xregs@.len() {
                    repr.cpu.xregs@[i]
                } else {
                    0
                }),
            r.panel.listing@ == spec_scan(repr.cpu.bus.dram@, 0),
            r.panel.name@ == repr.name@,
            !r.panel.exit,
            !r.panel.dram.is_changed(),
            r.repr@ == repr@,
            r.last_ms == now_ms,
            r.auth@ == auth@,
            !r.synx.is_pending(),
    {
        let mut panel = Panel::default();
        panel.store_repr(repr.clone());
        EmulatorPanel { panel, repr, last_ms: now_ms, auth, synx: Arx::new() }
    }

    /// Build the snapshot of the current state and dispatch its upload
    /// through the slot: the slot is pending afterwards, and the returned
    /// write capability together with the snapshot is handed to the caller to
    /// run the actual store call.
    pub fn sync_repr(&mut self) -> (r: (ArxSender<Result<(), Error>>, SessionRepr))
        ensures
            final(self).synx.is_pending(),
            r.1@ == old(self).snapshot_view(),
            final(self).panel == old(self).panel,
            final(self).repr == old(self).repr,
            final(self).last_ms == old(self).last_ms,
            final(self).auth == old(self).auth,
    {
        let repr = SessionRepr {
            id: self.repr.id.clone(),
            user: self.repr.user.clone(),
            name: self.panel.name.clone(),
            creation: self.repr.creation.clone(),
            modified: self.repr.modified.clone(),
            cpu: CpuRepr {
                pc: self.panel.state.pc,
                xregs: self.panel.xregs.value_vec(),
                bus: Bus { dram: self.panel.state.memory.clone() },
            },
        };
        let sender = self.synx.task();
        (sender, repr)
    }

    /// One scheduler tick at `now_ms` (a monotonic reading, so never earlier
    /// than the last attempt). First, an outstanding upload is polled: a
    /// delivered failure is handed back for notification, a delivered
    /// acknowledgement is discarded, and a still-pending upload ends the
    /// tick. Then, when the slot is idle — found idle or just resolved — and
    /// the interval has elapsed since the last attempt, a snapshot upload is
    /// dispatched and the attempt time becomes `now_ms`; the timer runs from
    /// attempt to attempt, so an upload still pending when the interval
    /// elapses skips that attempt entirely.
    pub fn tick(&mut self, now_ms: u64) -> (t: Tick)
        requires
            old(self).last_ms <= now_ms,
        ensures
            // A dispatch happens only when due, marks the attempt time, and
            // uploads exactly the current snapshot.
            t.upload matches Some(u) ==> old(self).due(now_ms) && final(self).synx.is_pending()
                && final(self).last_ms == now_ms && u.1@ == old(self).snapshot_view(),
            t.upload is None ==> final(self).last_ms == old(self).last_ms,
            // An idle slot dispatches if and only if the interval has elapsed.
            !old(self).synx.is_pending() && old(self).due(now_ms) ==> t.upload is Some,
            !old(self).synx.is_pending() && !old(self).due(now_ms) ==> t.upload is None
                && *final(self) == *old(self),
            // Only a delivered failure is ever handed back for notification.
            !old(self).synx.is_pending() ==> t.notify is None,
            t.notify is Some ==> old(self).synx.is_pending(),
            // A pending slot either stays pending (nothing happens this tick)
            // or resolved this tick, and then dispatches exactly when due.
            old(self).synx.is_pending() ==> (*final(self) == *old(self) && t.upload is None
                && t.notify is None) || ((old(self).due(now_ms) ==> t.upload is Some) && (!old(self).due(
                now_ms,
            ) ==> t.upload is None && !final(self).synx.is_pending())),
            // The panel, the session record and the account are never touched.
            final(self).panel == old(self).panel,
            final(self).repr == old(self).repr,
            final(self).auth == old(self).auth,
    {
        let mut notify: Option<Error> = None;
        if self.synx.ready() {
            match self.synx.poll() {
                Poll::Delivered(outcome) => {
                    notify = settle_outcome(outcome);
                },
                Poll::StillPending => {},
                Poll::NotInFlight => {},
            }
        }
        let mut upload: Option<(ArxSender<Result<(), Error>>, SessionRepr)> = None;
        if !self.synx.ready() && now_ms - self.last_ms >= SYNC_INTERVAL_MS {
            let dispatched = self.sync_repr();
            self.last_ms = now_ms;
            upload = Some(dispatched);
        }
        Tick { notify, upload }
    }
}

} // verus!
