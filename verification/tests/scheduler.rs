//! The sync scheduler: one dispatch per elapsed interval, measured from the
//! attempt, with failures forwarded and acknowledgements discarded.

use rain::{Account, Bus, CpuRepr, EmulatorPanel, Error, SessionRepr};

fn account() -> Account {
    Account { access: String::from("token"), name: None, refresh: None }
}

fn repr(dram: Vec<u8>) -> SessionRepr {
    SessionRepr {
        id: String::from("id-1"),
        user: String::from("user-1"),
        name: String::from("first"),
        creation: String::from("c"),
        modified: String::from("m"),
        cpu: CpuRepr { pc: 4, xregs: vec![9, 8, 7], bus: Bus { dram } },
    }
}

#[test]
fn one_dispatch_at_one_second_with_instant_resolution() {
    let mut panel = EmulatorPanel::new(account(), repr(vec![0, 0]), 0);
    let mut dispatches: u32 = 0;

    for now in [0u64, 500, 1000, 1500] {
        let tick = panel.tick(now);
        assert!(tick.notify.is_none());
        if let Some((sender, _snapshot)) = tick.upload {
            dispatches += 1;
            assert_eq!(now, 1000);
            // The upload resolves instantly.
            sender.send(Ok(()));
        }
    }
    assert_eq!(dispatches, 1);
}

#[test]
fn pending_upload_skips_the_interval() {
    let mut panel = EmulatorPanel::new(account(), repr(vec![]), 0);
    let tick = panel.tick(1000);
    let (_sender, _snapshot) = tick.upload.expect("first interval dispatches");
    // The upload never resolves: later due ticks must not dispatch again.
    assert!(panel.tick(2000).upload.is_none());
    assert!(panel.tick(3000).upload.is_none());
}

#[test]
fn delivered_failure_is_forwarded_and_retry_is_unconditional() {
    let mut panel = EmulatorPanel::new(account(), repr(vec![]), 0);
    let tick = panel.tick(1000);
    let (sender, _snapshot) = tick.upload.expect("first interval dispatches");
    sender.send(Err(Error::Client(String::from("rejected"))));
    // The same tick both forwards the failure and, the interval having
    // elapsed, dispatches the next attempt.
    let tick = panel.tick(2000);
    match tick.notify {
        Some(Error::Client(msg)) => assert_eq!(msg, "rejected"),
        _ => panic!("expected the delivered failure"),
    }
    assert!(tick.upload.is_some());
}

#[test]
fn delivered_acknowledgement_is_discarded_silently() {
    let mut panel = EmulatorPanel::new(account(), repr(vec![]), 0);
    let (sender, _snapshot) = panel.tick(1000).upload.expect("dispatches");
    sender.send(Ok(()));
    let tick = panel.tick(1500);
    assert!(tick.notify.is_none());
    // Resolved, but only half the interval has passed: no dispatch.
    assert!(tick.upload.is_none());
}

#[test]
fn snapshot_carries_the_current_state() {
    let mut panel = EmulatorPanel::new(account(), repr(vec![1, 2, 3]), 0);
    panel.panel.state.pc = 42;
    panel.panel.name = String::from("renamed");
    panel.panel.xregs.set_value(1, 77);
    let (_sender, snapshot) = panel.tick(1000).upload.expect("dispatches");
    assert_eq!(snapshot.id, "id-1");
    assert_eq!(snapshot.user, "user-1");
    assert_eq!(snapshot.creation, "c");
    assert_eq!(snapshot.modified, "m");
    assert_eq!(snapshot.name, "renamed");
    assert_eq!(snapshot.cpu.pc, 42);
    assert_eq!(snapshot.cpu.bus.dram, vec![1, 2, 3]);
    assert_eq!(snapshot.cpu.xregs.len(), 32);
    assert_eq!(snapshot.cpu.xregs[0], 9);
    assert_eq!(snapshot.cpu.xregs[1], 77);
    assert_eq!(snapshot.cpu.xregs[2], 7);
    assert_eq!(snapshot.cpu.xregs[3], 0);
}

#[test]
fn store_repr_loads_state_registers_and_listing() {
    let mut panel = EmulatorPanel::new(account(), repr(vec![0x0a, 0x88]), 0);
    assert_eq!(panel.panel.state.pc, 4);
    assert_eq!(panel.panel.state.memory, vec![0x0a, 0x88]);
    assert_eq!(panel.panel.name, "first");
    // Registers beyond the stored three keep their zero default.
    assert_eq!(panel.panel.xregs.regs[0].0, 9);
    assert_eq!(panel.panel.xregs.regs[2].0, 7);
    assert_eq!(panel.panel.xregs.regs[31].0, 0);
    // The listing was recomputed over the loaded memory.
    assert_eq!(panel.panel.listing.records().len(), 1);
    assert!(panel.panel.listing.records()[0].decoded.is_some());
}

#[test]
fn settle_forwards_failures_and_drops_acks() {
    assert!(rain::settle_outcome(Ok(())).is_none());
    match rain::settle_outcome(Err(Error::Internal(String::from("boom")))) {
        Some(Error::Internal(msg)) => assert_eq!(msg, "boom"),
        _ => panic!("expected the failure back"),
    }
}

#[test]
fn snapshot_is_captured_by_value_at_dispatch() {
    let mut panel = EmulatorPanel::new(account(), repr(vec![1]), 0);
    let (_sender, snapshot) = panel.tick(1000).upload.expect("dispatches");
    // Local mutation after the dispatch must not change what the in-flight
    // upload sees.
    panel.panel.state.pc = 99;
    panel.panel.state.memory = vec![9];
    assert_eq!(snapshot.cpu.pc, 4);
    assert_eq!(snapshot.cpu.bus.dram, vec![1]);
}
