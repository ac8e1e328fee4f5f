//! Session records: the metadata shown in the session list, and the full
//! snapshot of a machine state as it is written to and read from the store.

use vstd::prelude::*;

verus! {

/// The mathematical content of a `SessionInfo`.
pub ghost struct SessionInfoView {
    pub id: Seq<char>,
    pub user: Seq<char>,
    pub name: Option<Seq<char>>,
    pub creation: Seq<char>,
    pub modified: Seq<char>,
}

/// Metadata of one stored session: identity, owner, optional display name and
/// two opaque timestamp strings that this core never interprets.
pub struct SessionInfo {
    pub id: String,
    pub user: String,
    pub name: Option<String>,
    pub creation: String,
    pub modified: String,
}

impl View for SessionInfo {
    type V = SessionInfoView;

    open spec fn view(&self) -> SessionInfoView {
        SessionInfoView {
            id: self.id@,
            user: self.user@,
            name: match self.name {
                Some(n) => Some(n@),
                None => None,
            },
            creation: self.creation@,
            modified: self.modified@,
        }
    }
}

impl Clone for SessionInfo {
    /// A clone carries the same content.
    fn clone(&self) -> (r: Self)
        ensures
            r@ == self@,
    {
        SessionInfo {
            id: self.id.clone(),
            user: self.user.clone(),
            name: match &self.name {
                Some(n) => Some(n.clone()),
                None => None,
            },
            creation: self.creation.clone(),
            modified: self.modified.clone(),
        }
    }
}

/// The mathematical content of a `Bus`.
pub ghost struct BusView {
    pub dram: Seq<u8>,
}

/// The memory image of a snapshot: the machine's addressable bytes.
pub struct Bus {
    pub dram: Vec<u8>,
}

impl View for Bus {
    type V = BusView;

    open spec fn view(&self) -> BusView {
        BusView { dram: self.dram@ }
    }
}

impl Clone for Bus {
    /// A clone carries the same bytes.
    fn clone(&self) -> (r: Self)
        ensures
            r@ == self@,
    {
        let dram = self.dram.clone();
        proof {
            assert(dram@ =~= self.dram@);
        }
        Bus { dram }
    }
}

/// The mathematical content of a `CpuRepr`.
pub ghost struct CpuReprView {
    pub pc: u64,
    pub xregs: Seq<u64>,
    pub bus: BusView,
}

/// The processor part of a snapshot: program counter, general registers and
/// the memory image.
pub struct CpuRepr {
    pub pc: u64,
    pub xregs: Vec<u64>,
    pub bus: Bus,
}

impl View for CpuRepr {
    type V = CpuReprView;

    open spec fn view(&self) -> CpuReprView {
        CpuReprView { pc: self.pc, xregs: self.xregs@, bus: self.bus@ }
    }
}

impl Clone for CpuRepr {
    /// A clone carries the same content.
    fn clone(&self) -> (r: Self)
        ensures
            r@ == self@,
    {
        let xregs = self.xregs.clone();
        proof {
            assert(xregs@ =~= self.xregs@);
        }
        CpuRepr { pc: self.pc, xregs, bus: self.bus.clone() }
    }
}

/// The mathematical content of a `SessionRepr`.
pub ghost struct SessionReprView {
    pub id: Seq<char>,
    pub user: Seq<char>,
    pub name: Seq<char>,
    pub creation: Seq<char>,
    pub modified: Seq<char>,
    pub cpu: CpuReprView,
}

/// A full stored session: the metadata fields together with the embedded
/// machine state. It is serialized wholesale on every sync attempt.
pub struct SessionRepr {
    pub id: String,
    pub user: String,
    pub name: String,
    pub creation: String,
    pub modified: String,
    pub cpu: CpuRepr,
}

impl View for SessionRepr {
    type V = SessionReprView;

    open spec fn view(&self) -> SessionReprView {
        SessionReprView {
            id: self.id@,
            user: self.user@,
            name: self.name@,
            creation: self.creation@,
            modified: self.modified@,
            cpu: self.cpu@,
        }
    }
}

impl Clone for SessionRepr {
    /// A clone carries the same content.
    fn clone(&self) -> (r: Self)
        ensures
            r@ == self@,
    {
        SessionRepr {
            id: self.id.clone(),
            user: self.user.clone(),
            name: self.name.clone(),
            creation: self.creation.clone(),
            modified: self.modified.clone(),
            cpu: self.cpu.clone(),
        }
    }
}

} // verus!
