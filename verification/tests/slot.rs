//! The async result slot: freshness, single delivery, overwrite on
//! re-dispatch.

use rain::{Arx, Poll};

#[test]
fn fresh_slot_polls_not_in_flight() {
    let mut slot: Arx<u32> = Arx::new();
    assert!(matches!(slot.poll(), Poll::NotInFlight));
    assert!(matches!(slot.poll(), Poll::NotInFlight));
    assert!(!slot.ready());
}

#[test]
fn default_slot_is_idle() {
    let mut slot: Arx<u32> = Arx::default();
    assert!(matches!(slot.poll(), Poll::NotInFlight));
}

#[test]
fn dispatch_then_deliver_is_observed_exactly_once() {
    let mut slot: Arx<u32> = Arx::new();
    let sender = slot.task();
    assert!(slot.ready());
    sender.send(7);
    match slot.poll() {
        Poll::Delivered(v) => assert_eq!(v, 7),
        _ => panic!("expected the delivered value"),
    }
    assert!(matches!(slot.poll(), Poll::NotInFlight));
    assert!(matches!(slot.poll(), Poll::NotInFlight));
}

#[test]
fn pending_slot_reports_still_pending() {
    let mut slot: Arx<u32> = Arx::new();
    let _sender = slot.task();
    assert!(matches!(slot.poll(), Poll::StillPending));
    assert!(matches!(slot.poll(), Poll::StillPending));
    assert!(slot.ready());
}

#[test]
fn redispatch_orphans_the_earlier_delivery() {
    let mut slot: Arx<u32> = Arx::new();
    let sender_a = slot.task();
    let sender_b = slot.task();
    sender_a.send(1);
    // The first handle's channel was dropped by the second dispatch: its
    // delivery must never be observed.
    assert!(matches!(slot.poll(), Poll::StillPending));
    sender_b.send(2);
    match slot.poll() {
        Poll::Delivered(v) => assert_eq!(v, 2),
        _ => panic!("expected the second dispatch's value"),
    }
    assert!(matches!(slot.poll(), Poll::NotInFlight));
}

#[test]
fn redispatch_after_orphaned_delivery_still_yields_new_value() {
    let mut slot: Arx<u32> = Arx::new();
    let sender_a = slot.task();
    sender_a.send(1);
    // Value 1 sits in the orphaned channel; a new dispatch replaces it.
    let sender_b = slot.task();
    assert!(matches!(slot.poll(), Poll::StillPending));
    sender_b.send(2);
    match slot.poll() {
        Poll::Delivered(v) => assert_eq!(v, 2),
        _ => panic!("expected the second dispatch's value"),
    }
}
