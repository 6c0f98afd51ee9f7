use vplace::codec::encode_event;
use vplace::errors::VpError;
use vplace::hub::VpSrv;
use vplace::models::PlaceUpdate;

#[test]
fn event_json_matches_wire_format() {
    let e = PlaceUpdate { loc: (1, 2), color: 5 };
    assert_eq!(encode_event(&e), "{\"loc\":[1,2],\"color\":5}");
}

#[test]
fn event_json_multi_digit_numbers() {
    let e = PlaceUpdate {
        loc: (123, 4560),
        color: 255,
    };
    assert_eq!(encode_event(&e), "{\"loc\":[123,4560],\"color\":255}");
    let e = PlaceUpdate { loc: (0, 10), color: 0 };
    assert_eq!(encode_event(&e), "{\"loc\":[0,10],\"color\":0}");
}

#[test]
fn publish_reaches_every_registered_handle_once() {
    let mut hub = VpSrv::new();
    let e = PlaceUpdate { loc: (1, 2), color: 5 };
    assert_eq!(hub.publish(&e).len(), 0);
    hub.register(7);
    hub.register(8);
    hub.register(9);
    let out = hub.publish(&e);
    assert_eq!(out.len(), 3);
    let handles: Vec<u64> = out.iter().map(|d| d.0).collect();
    assert_eq!(handles, vec![7, 8, 9]);
    for d in &out {
        assert_eq!(d.1 .0, "{\"loc\":[1,2],\"color\":5}");
    }
}

#[test]
fn register_is_idempotent() {
    let mut hub = VpSrv::new();
    hub.register(7);
    hub.register(7);
    let e = PlaceUpdate { loc: (0, 0), color: 1 };
    assert_eq!(hub.publish(&e).len(), 1);
}

#[test]
fn deregistered_handle_receives_nothing() {
    let mut hub = VpSrv::new();
    hub.register(7);
    hub.register(8);
    hub.register(9);
    hub.deregister(8);
    let e = PlaceUpdate { loc: (1, 2), color: 5 };
    let out = hub.publish(&e);
    assert_eq!(out.len(), 2);
    assert!(out.iter().all(|d| d.0 != 8));
    // A re-entrant deregistration of the same or an unknown handle is a
    // no-op.
    hub.deregister(8);
    hub.deregister(100);
    assert_eq!(hub.publish(&e).len(), 2);
}

#[test]
fn error_messages_are_stable() {
    assert_eq!(
        VpError::CanvasSizeMismatch.message(),
        "[Canvas Size Mismatch]: Enter (x,y) < Canvas Dimension"
    );
    assert_eq!(VpError::InvalidUser.message(), "[Invalid User]: Invalid User Id");
    assert_eq!(VpError::NoPixelData.message(), "No pixel data found");
    assert_eq!(VpError::InitCanvasErr.message(), "Unable to initialize canvas");
}
