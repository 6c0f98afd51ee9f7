use vplace::canvas::{CanvasCache, ColorDepth};
use vplace::errors::VpError;
use vplace::hub::VpSrv;
use vplace::models::{AppState, UpdatePixel};
use vplace::service::{
    admin_update_pixel, get_canvas, init_place, pixel_info, reset_canvas, update_pixel,
    update_place, PlaceOutcome,
};
use vplace::store::DurableStore;

struct World {
    state: AppState,
    cache: CanvasCache,
    store: DurableStore,
    hub: VpSrv,
}

fn world(dim: u32, cooldown: usize) -> World {
    let state = AppState::new(
        "secret".to_owned(),
        "vplace_1".to_owned(),
        dim,
        cooldown,
        ColorDepth::Four,
    );
    let mut cache = CanvasCache::new(dim, ColorDepth::Four);
    let store = DurableStore::new(dim);
    init_place(&state, &mut cache).unwrap();
    World {
        state,
        cache,
        store,
        hub: VpSrv::new(),
    }
}

fn req(uid: u128, x: u32, y: u32, color: u8) -> UpdatePixel {
    UpdatePixel {
        uid,
        uname: Some("alice".to_owned()),
        loc: (x, y),
        color,
    }
}

#[test]
fn place_wait_place_scenario() {
    // Dimension 4, 4-bit color, 60 s cooldown.
    let mut w = world(4, 60);
    w.hub.register(1);
    w.hub.register(2);

    // t=0: accepted, broadcast to all viewers, offset 2*4+1 == 9.
    let out = update_pixel(&req(7, 1, 2, 5), &w.state, &mut w.cache, &mut w.store, &w.hub, 0)
        .unwrap();
    match out {
        PlaceOutcome::Accepted(ds) => {
            assert_eq!(ds.len(), 2);
            assert_eq!((ds[0].0, ds[1].0), (1, 2));
            assert_eq!(ds[0].1 .0, "{\"loc\":[1,2],\"color\":5}");
            assert_eq!(ds[1].1 .0, "{\"loc\":[1,2],\"color\":5}");
        }
        PlaceOutcome::WaitRequired(_) => panic!("first placement must be accepted"),
    }
    let bytes = w.cache.read_all().unwrap();
    assert_eq!(bytes[4], 0x05);
    assert_eq!(get_canvas(&w.state, &w.cache).unwrap().canvas, "AAAAAAUAAAA");

    // t=30: the same user must wait 30 more seconds; nothing written.
    let out = update_pixel(&req(7, 0, 0, 9), &w.state, &mut w.cache, &mut w.store, &w.hub, 30)
        .unwrap();
    match out {
        PlaceOutcome::WaitRequired(wt) => assert_eq!(wt.rem_wait, 30),
        PlaceOutcome::Accepted(_) => panic!("cooldown must block the second placement"),
    }
    assert_eq!(w.cache.read_all().unwrap()[0], 0);
    assert_eq!(pixel_info(0, 0, &w.state, &w.store).unwrap_err(), VpError::NoPixelData);

    // t=61: eligible again.
    let out = update_pixel(&req(7, 0, 0, 9), &w.state, &mut w.cache, &mut w.store, &w.hub, 61)
        .unwrap();
    match out {
        PlaceOutcome::Accepted(_) => (),
        PlaceOutcome::WaitRequired(_) => panic!("cooldown has elapsed"),
    }
    assert_eq!(w.cache.read_all().unwrap()[0], 0x90);
}

#[test]
fn out_of_bounds_is_rejected() {
    // x == 4 on a 4x4 canvas: the valid range is [0,3].
    let mut w = world(4, 60);
    let r = update_pixel(&req(7, 4, 0, 5), &w.state, &mut w.cache, &mut w.store, &w.hub, 0);
    assert_eq!(r.unwrap_err(), VpError::CanvasSizeMismatch);
    assert_eq!(w.cache.read_all().unwrap(), vec![0u8; 8]);
}

#[test]
fn color_over_depth_is_rejected() {
    // color 16 at the 4-bit depth (max 15).
    let mut w = world(4, 60);
    let r = update_pixel(&req(7, 1, 2, 16), &w.state, &mut w.cache, &mut w.store, &w.hub, 0);
    assert_eq!(r.unwrap_err(), VpError::ColorSizeMismatch);
}

#[test]
fn color_is_checked_before_bounds() {
    let mut w = world(4, 60);
    let r = update_pixel(&req(7, 9, 9, 16), &w.state, &mut w.cache, &mut w.store, &w.hub, 0);
    assert_eq!(r.unwrap_err(), VpError::ColorSizeMismatch);
}

#[test]
fn missing_identity_is_rejected() {
    let mut w = world(4, 60);
    let anonymous = UpdatePixel {
        uid: 7,
        uname: None,
        loc: (1, 2),
        color: 5,
    };
    let r = update_pixel(&anonymous, &w.state, &mut w.cache, &mut w.store, &w.hub, 0);
    assert_eq!(r.unwrap_err(), VpError::InvalidUser);
}

#[test]
fn admin_reset_clears_canvas_and_history() {
    let mut w = world(4, 60);
    update_place(&req(7, 1, 2, 5), &w.state, &mut w.cache, &mut w.store, &w.hub, 0).unwrap();
    assert!(pixel_info(1, 2, &w.state, &w.store).is_ok());

    let token = "secret".to_owned();
    reset_canvas(&token, &w.state, &mut w.cache, &mut w.store).unwrap();
    assert_eq!(get_canvas(&w.state, &w.cache).unwrap().canvas, "AAAAAAAAAAA");
    assert_eq!(pixel_info(1, 2, &w.state, &w.store).unwrap_err(), VpError::NoPixelData);
}

#[test]
fn reset_with_wrong_token_is_refused() {
    let mut w = world(4, 60);
    update_place(&req(7, 1, 2, 5), &w.state, &mut w.cache, &mut w.store, &w.hub, 0).unwrap();
    let token = "guess".to_owned();
    let r = reset_canvas(&token, &w.state, &mut w.cache, &mut w.store);
    assert_eq!(r.unwrap_err(), VpError::AdminAuthFailure);
    assert!(pixel_info(1, 2, &w.state, &w.store).is_ok());
}

#[test]
fn admin_placement_bypasses_cooldown() {
    let mut w = world(4, 60);
    update_pixel(&req(7, 1, 2, 5), &w.state, &mut w.cache, &mut w.store, &w.hub, 0).unwrap();
    // The ordinary path is still cooling down at t=0, the admin path is
    // not.
    let token = "secret".to_owned();
    admin_update_pixel(&token, &req(7, 0, 0, 3), &w.state, &mut w.cache, &mut w.store, &w.hub, 0)
        .unwrap();
    assert_eq!(w.cache.read_all().unwrap()[0], 0x30);
    let wrong = "guess".to_owned();
    let r = admin_update_pixel(
        &wrong, &req(7, 0, 1, 3), &w.state, &mut w.cache, &mut w.store, &w.hub, 0,
    );
    assert_eq!(r.unwrap_err(), VpError::AdminAuthFailure);
}

#[test]
fn pixel_info_validates_bounds_and_reports_history() {
    let mut w = world(4, 60);
    assert_eq!(pixel_info(4, 0, &w.state, &w.store).unwrap_err(), VpError::CanvasSizeMismatch);
    assert_eq!(pixel_info(1, 2, &w.state, &w.store).unwrap_err(), VpError::NoPixelData);
    update_place(&req(7, 1, 2, 5), &w.state, &mut w.cache, &mut w.store, &w.hub, 42).unwrap();
    let rec = pixel_info(1, 2, &w.state, &w.store).unwrap();
    assert_eq!(rec.uname, "alice");
    assert_eq!(rec.color, 5);
    assert_eq!(rec.last_placed, 42);
}

#[test]
fn init_place_is_idempotent_across_placements() {
    let mut w = world(4, 60);
    update_place(&req(7, 1, 2, 5), &w.state, &mut w.cache, &mut w.store, &w.hub, 0).unwrap();
    let before = w.cache.read_all().unwrap();
    init_place(&w.state, &mut w.cache).unwrap();
    assert_eq!(w.cache.read_all().unwrap(), before);
}

#[test]
fn eight_bit_depth_places_whole_bytes() {
    let state = AppState::new(
        "secret".to_owned(),
        "vplace_1".to_owned(),
        4,
        60,
        ColorDepth::Eight,
    );
    let mut cache = CanvasCache::new(4, ColorDepth::Eight);
    let mut store = DurableStore::new(4);
    let hub = VpSrv::new();
    init_place(&state, &mut cache).unwrap();
    assert_eq!(cache.read_all().unwrap().len(), 16);
    // At the eight-bit depth color 200 is valid and owns byte 9.
    let out = update_pixel(&req(7, 1, 2, 200), &state, &mut cache, &mut store, &hub, 0).unwrap();
    match out {
        PlaceOutcome::Accepted(ds) => assert!(ds.is_empty()),
        PlaceOutcome::WaitRequired(_) => panic!("first placement must be accepted"),
    }
    assert_eq!(cache.read_all().unwrap()[9], 200);
    assert_eq!(pixel_info(1, 2, &state, &store).unwrap().color, 200);
}
