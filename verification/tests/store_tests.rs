use vplace::cooldown::{diff_last_placed, eligible};
use vplace::errors::VpError;
use vplace::models::UpdatePixel;
use vplace::store::{partition, DurableStore, UserDetails};

fn req(uid: u128, uname: &str, x: u32, y: u32, color: u8) -> UpdatePixel {
    UpdatePixel {
        uid,
        uname: Some(uname.to_owned()),
        loc: (x, y),
        color,
    }
}

#[test]
fn partition_resolves_quadrants() {
    // mid == dim / 2 == 2 for a 4x4 canvas.
    assert_eq!(partition(1, 2, 2), 0);
    assert_eq!(partition(0, 3, 2), 1);
    assert_eq!(partition(3, 0, 2), 2);
    assert_eq!(partition(3, 3, 2), 3);
    // The midpoint itself falls in the lower quadrant on each axis.
    assert_eq!(partition(2, 2, 2), 0);
    assert_eq!(partition(2, 3, 2), 1);
}

#[test]
fn pixel_roundtrip_same_coordinate() {
    let mut store = DurableStore::new(4);
    store.update_db(&req(1, "alice", 1, 2, 5), 100).unwrap();
    let rec = store.get_pixel(1, 2).unwrap();
    assert_eq!(rec.uname, "alice");
    assert_eq!(rec.color, 5);
    assert_eq!(rec.last_placed, 100);
    // The transposed coordinate is a different cell.
    assert_eq!(store.get_pixel(2, 1).unwrap_err(), VpError::NoPixelData);
}

#[test]
fn pixel_upsert_keeps_siblings_in_partition() {
    let mut store = DurableStore::new(4);
    // Both cells fall in quadrant 0; the second write must not clobber
    // the first.
    store.update_db(&req(1, "alice", 0, 0, 1), 10).unwrap();
    store.update_db(&req(2, "bob", 1, 1, 2), 20).unwrap();
    assert_eq!(store.get_pixel(0, 0).unwrap().uname, "alice");
    assert_eq!(store.get_pixel(1, 1).unwrap().uname, "bob");
}

#[test]
fn pixel_overwrite_same_cell() {
    let mut store = DurableStore::new(4);
    store.update_db(&req(1, "alice", 1, 2, 5), 100).unwrap();
    store.update_db(&req(2, "bob", 1, 2, 9), 200).unwrap();
    let rec = store.get_pixel(1, 2).unwrap();
    assert_eq!(rec.uname, "bob");
    assert_eq!(rec.color, 9);
    assert_eq!(rec.last_placed, 200);
}

#[test]
fn user_record_is_overwritten_per_user() {
    let mut store = DurableStore::new(4);
    assert_eq!(store.get_user(1).unwrap_err(), VpError::InvalidUser);
    store.update_db(&req(1, "alice", 1, 2, 5), 100).unwrap();
    let u = store.get_user(1).unwrap();
    assert_eq!(u.id, 1);
    assert_eq!(u.uname, "alice");
    assert_eq!((u.x, u.y), (1, 2));
    assert_eq!(u.color, 5);
    assert_eq!(u.last_placed, 100);
    store.update_db(&req(1, "alice", 3, 3, 7), 160).unwrap();
    let u = store.get_user(1).unwrap();
    assert_eq!((u.x, u.y), (3, 3));
    assert_eq!(u.last_placed, 160);
}

#[test]
fn missing_identity_is_rejected_before_writes() {
    let mut store = DurableStore::new(4);
    let anonymous = UpdatePixel {
        uid: 9,
        uname: None,
        loc: (1, 2),
        color: 5,
    };
    assert_eq!(store.update_db(&anonymous, 100).unwrap_err(), VpError::InvalidUser);
    assert_eq!(store.get_user(9).unwrap_err(), VpError::InvalidUser);
    assert_eq!(store.get_pixel(1, 2).unwrap_err(), VpError::NoPixelData);
}

#[test]
fn reset_clears_both_tables() {
    let mut store = DurableStore::new(4);
    store.update_db(&req(1, "alice", 1, 2, 5), 100).unwrap();
    store.reset_db();
    assert_eq!(store.get_user(1).unwrap_err(), VpError::InvalidUser);
    assert_eq!(store.get_pixel(1, 2).unwrap_err(), VpError::NoPixelData);
}

fn user_last_placed(last_placed: i64) -> UserDetails {
    UserDetails {
        id: 1,
        uname: "alice".to_owned(),
        x: 0,
        y: 0,
        color: 1,
        last_placed,
    }
}

#[test]
fn first_placement_is_never_blocked() {
    assert_eq!(eligible(None, 60, 1000), (true, 0));
}

#[test]
fn cooldown_boundaries() {
    let now = 1000i64;
    // Placed cooldown-1 seconds ago: one more second owed.
    let u = user_last_placed(now - 59);
    assert_eq!(eligible(Some(&u), 60, now), (false, 1));
    // Placed exactly cooldown seconds ago: eligible again.
    let u = user_last_placed(now - 60);
    assert_eq!(eligible(Some(&u), 60, now), (true, 0));
    // Placed just now: the full cooldown is owed.
    let u = user_last_placed(now);
    assert_eq!(eligible(Some(&u), 60, now), (false, 60));
}

#[test]
fn diff_defaults_to_cooldown_for_unknown_user() {
    let store = DurableStore::new(4);
    assert_eq!(diff_last_placed(&store, 1, 60, 1000).unwrap(), 60);
}

#[test]
fn diff_is_elapsed_seconds_for_known_user() {
    let mut store = DurableStore::new(4);
    store.update_db(&req(1, "alice", 1, 2, 5), 30).unwrap();
    assert_eq!(diff_last_placed(&store, 1, 60, 100).unwrap(), 70);
}
