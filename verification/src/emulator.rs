//! The emulator core: the instruction decoder over the memory image, the
//! editable machine state with its dirty tracking, the periodic scheduler
//! that pushes snapshots of that state to the remote store, and the session
//! list with its in-flight operations.

pub mod decoder;
pub mod emu;

use vstd::prelude::*;
use crate::client::Error;
use crate::emulator::emu::EmulatorPanel;
use crate::login::Account;
use crate::repr::session::{SessionInfo, SessionRepr};
use crate::utils::{Arx, ArxSender};

verus! {

/// The session list: the loaded page of session records, and one slot per
/// kind of store operation the list can have in flight — fetching a page,
/// loading a session, creating one, and removing one (the removal delivers
/// the list index it was started for).
pub struct Sessions {
    pub loaded: bool,
    pub sessions: Vec<SessionInfo>,
    pub pagex: Arx<Result<Vec<SessionInfo>, Error>>,
    pub loadx: Arx<Result<SessionRepr, Error>>,
    pub newx: Arx<Result<SessionRepr, Error>>,
    pub rmx: Arx<Option<usize>>,
}

impl Default for Sessions {
    /// A fresh list: nothing loaded, nothing in flight.
    fn default() -> (r: Self)
        ensures
            !r.loaded,
            r.sessions@ =~= Seq::<SessionInfo>::empty(),
            !r.pagex.is_pending(),
            !r.loadx.is_pending(),
            !r.newx.is_pending(),
            !r.rmx.is_pending(),
    {
        Sessions {
            loaded: false,
            sessions: Vec::new(),
            pagex: Arx::new(),
            loadx: Arx::new(),
            newx: Arx::new(),
            rmx: Arx::new(),
        }
    }
}

impl Sessions {
    /// Start fetching the first page once: the first call marks the list
    /// loaded and dispatches, every later call does nothing.
    pub fn ensure_page_load(&mut self) -> (r: Option<ArxSender<Result<Vec<SessionInfo>, Error>>>)
        ensures
            final(self).loaded,
            !old(self).loaded ==> r is Some && final(self).pagex.is_pending(),
            old(self).loaded ==> r is None && *final(self) == *old(self),
            final(self).sessions == old(self).sessions,
            final(self).loadx == old(self).loadx,
            final(self).newx == old(self).newx,
            final(self).rmx == old(self).rmx,
    {
        if !self.loaded {
            self.loaded = true;
            Some(self.pagex.task())
        } else {
            None
        }
    }

    /// Start creating a session.
    pub fn begin_new(&mut self) -> (s: ArxSender<Result<SessionRepr, Error>>)
        ensures
            final(self).newx.is_pending(),
            final(self).loaded == old(self).loaded,
            final(self).sessions == old(self).sessions,
            final(self).pagex == old(self).pagex,
            final(self).loadx == old(self).loadx,
            final(self).rmx == old(self).rmx,
    {
        self.newx.task()
    }

    /// Start loading a session.
    pub fn begin_load(&mut self) -> (s: ArxSender<Result<SessionRepr, Error>>)
        ensures
            final(self).loadx.is_pending(),
            final(self).loaded == old(self).loaded,
            final(self).sessions == old(self).sessions,
            final(self).pagex == old(self).pagex,
            final(self).newx == old(self).newx,
            final(self).rmx == old(self).rmx,
    {
        self.loadx.task()
    }

    /// Whether a remove may be started: at most one is in flight at a time.
    pub fn can_remove(&self) -> (r: bool)
        ensures
            r == !self.rmx.is_pending(),
    {
        !self.rmx.ready()
    }

    /// Start removing the session at a list index.
    pub fn begin_remove(&mut self) -> (s: ArxSender<Option<usize>>)
        ensures
            final(self).rmx.is_pending(),
            final(self).loaded == old(self).loaded,
            final(self).sessions == old(self).sessions,
            final(self).pagex == old(self).pagex,
            final(self).loadx == old(self).loadx,
            final(self).newx == old(self).newx,
    {
        self.rmx.task()
    }

    /// Absorb a delivered page: its records are appended in order.
    pub fn absorb_page(&mut self, page: Vec<SessionInfo>)
        ensures
            final(self).sessions@ == old(self).sessions@ + page@,
            final(self).loaded == old(self).loaded,
            final(self).pagex == old(self).pagex,
            final(self).loadx == old(self).loadx,
            final(self).newx == old(self).newx,
            final(self).rmx == old(self).rmx,
    {
        let mut page = page;
        self.sessions.append(&mut page);
    }

    /// Absorb a delivered removal: the record at the delivered index leaves
    /// the list, later records move up one place.
    pub fn remove_at(&mut self, idx: usize)
        requires
            idx < old(self).sessions@.len(),
        ensures
            final(self).sessions@ == old(self).sessions@.remove(idx as int),
            final(self).loaded == old(self).loaded,
            final(self).pagex == old(self).pagex,
            final(self).loadx == old(self).loadx,
            final(self).newx == old(self).newx,
            final(self).rmx == old(self).rmx,
    {
        self.sessions.remove(idx);
    }
}

/// Which side of the session flow is shown: the list, or an opened session's
/// emulator.
pub enum SessionPanel {
    Sessions(Sessions),
    Emulator(EmulatorPanel),
}

impl Default for SessionPanel {
    /// The flow starts at the list, with nothing in flight.
    fn default() -> (r: Self)
        ensures
            r matches SessionPanel::Sessions(s) && !s.loaded && !s.pagex.is_pending()
                && !s.loadx.is_pending() && !s.newx.is_pending() && !s.rmx.is_pending(),
    {
        SessionPanel::Sessions(Sessions::default())
    }
}

} // verus!
