//! The durable store model: two logical tables behind one partition-aware
//! service.
//!
//! The player table keeps one record per user (overwritten on every
//! accepted placement) and serves only the cooldown check. The canvas
//! table keeps one record per cell, bucketed into four fixed spatial
//! quadrants so that no single partition outgrows a quarter of the canvas:
//!
//! ```text
//!       ---------------
//!       |      |      |
//!       |   0  |  1   |
//!       |------|------|
//!       |   2  |  3   |
//!       |      |      |
//!       ---------------
//! ```
//!
//! The quadrant of a cell is a pure function of its coordinates, used
//! identically on the write path and the read path — otherwise reads would
//! silently miss freshly written data.

use std::collections::HashMap;

use vstd::prelude::*;

use crate::errors::VpError;
use crate::models::UpdatePixel;

verus! {

broadcast use vstd::std_specs::hash::group_hash_axioms;

/// A user's last accepted placement, keyed by user id and overwritten (not
/// appended) on every accepted placement; read only for the cooldown.
#[derive(Clone, Debug, PartialEq, Eq)]
pub struct UserDetails {
    pub id: u128,
    pub uname: String,
    pub x: u32,
    pub y: u32,
    pub color: u8,
    pub last_placed: i64,
}

/// One cell's latest placement, keyed by cell coordinate inside its
/// quadrant's partition.
#[derive(Clone, Debug, PartialEq, Eq)]
pub struct PixelData {
    pub uname: String,
    pub color: u8,
    pub last_placed: i64,
}

/// The quadrant holding cell `(x, y)`, for `mid == dim / 2`: a pure
/// function of both coordinates, shared by the write and the read path.
pub open spec fn spec_partition(x: u32, y: u32, mid: u32) -> int {
    if x <= mid {
        if y <= mid {
            0
        } else {
            1
        }
    } else {
        if y <= mid {
            2
        } else {
            3
        }
    }
}

pub fn partition(x: u32, y: u32, mid: u32) -> (p: usize)
    ensures
        p == spec_partition(x, y, mid),
{
    match (x <= mid, y <= mid) {
        (true, true) => 0,
        (true, false) => 1,
        (false, true) => 2,
        (false, false) => 3,
    }
}

/// The partition-local key of cell `(x, y)`: the two coordinates packed
/// into one integer, so that distinct cells get distinct keys.
pub open spec fn spec_cell_key(x: u32, y: u32) -> u64 {
    (x * 0x1_0000_0000 + y) as u64
}

pub proof fn lemma_cell_key_injective(x1: u32, y1: u32, x2: u32, y2: u32)
    requires
        spec_cell_key(x1, y1) == spec_cell_key(x2, y2),
    ensures
        x1 == x2 && y1 == y2,
{
    assert(x1 == x2 && y1 == y2) by (nonlinear_arith)
        requires
            x1 * 0x1_0000_0000 + y1 == x2 * 0x1_0000_0000 + y2,
            x1 <= 0xFFFF_FFFF,
            y1 <= 0xFFFF_FFFF,
            x2 <= 0xFFFF_FFFF,
            y2 <= 0xFFFF_FFFF,
    ;
}

pub fn cell_key(x: u32, y: u32) -> (k: u64)
    ensures
        k == spec_cell_key(x, y),
{
    (x as u64) * 0x1_0000_0000 + (y as u64)
}

/// The record found for cell `(x, y)` across the four partition maps, if
/// any: resolve the quadrant, then look the cell key up in that map alone.
pub open spec fn pixel_lookup(
    parts: Seq<Map<u64, PixelData>>,
    x: u32,
    y: u32,
    mid: u32,
) -> Option<PixelData>
    recommends
        parts.len() == 4,
{
    let m = parts[spec_partition(x, y, mid)];
    if m.contains_key(spec_cell_key(x, y)) {
        Some(m[spec_cell_key(x, y)])
    } else {
        None
    }
}

/// The four partition maps after writing `rec` for cell `(x, y)`: a
/// map-field update of the resolved quadrant, never a row overwrite.
pub open spec fn pixel_upsert(
    parts: Seq<Map<u64, PixelData>>,
    x: u32,
    y: u32,
    mid: u32,
    rec: PixelData,
) -> Seq<Map<u64, PixelData>>
    recommends
        parts.len() == 4,
{
    let p = spec_partition(x, y, mid);
    parts.update(p, parts[p].insert(spec_cell_key(x, y), rec))
}

/// Partition agreement: writing a cell record and then reading the same
/// coordinate always finds the record, and no other cell's record is
/// created, changed or lost by the write.
pub proof fn lemma_pixel_upsert_lookup(
    parts: Seq<Map<u64, PixelData>>,
    x: u32,
    y: u32,
    mid: u32,
    rec: PixelData,
)
    requires
        parts.len() == 4,
    ensures
        pixel_lookup(pixel_upsert(parts, x, y, mid, rec), x, y, mid) == Some(rec),
        forall|x2: u32, y2: u32|
            !(x2 == x && y2 == y) ==> pixel_lookup(pixel_upsert(parts, x, y, mid, rec), x2, y2, mid)
                == pixel_lookup(parts, x2, y2, mid),
{
    let out = pixel_upsert(parts, x, y, mid, rec);
    assert forall|x2: u32, y2: u32| !(x2 == x && y2 == y) implies pixel_lookup(out, x2, y2, mid)
        == pixel_lookup(parts, x2, y2, mid) by {
        if spec_partition(x2, y2, mid) == spec_partition(x, y, mid) {
            if spec_cell_key(x2, y2) == spec_cell_key(x, y) {
                lemma_cell_key_injective(x2, y2, x, y);
            }
        }
    }
}

/// The in-memory model of the durable store: the player table and the four
/// pixel partitions, with the quadrant midpoint fixed at construction.
pub struct DurableStore {
    dim_mid: u32,
    users: HashMap<u128, UserDetails>,
    part0: HashMap<u64, PixelData>,
    part1: HashMap<u64, PixelData>,
    part2: HashMap<u64, PixelData>,
    part3: HashMap<u64, PixelData>,
}

impl DurableStore {
    pub closed spec fn spec_dim_mid(self) -> u32 {
        self.dim_mid
    }

    /// The player table: user id to last accepted placement.
    pub closed spec fn users_view(self) -> Map<u128, UserDetails> {
        self.users@
    }

    /// The four pixel partitions, quadrant by quadrant.
    pub closed spec fn parts_view(self) -> Seq<Map<u64, PixelData>> {
        seq![self.part0@, self.part1@, self.part2@, self.part3@]
    }

    /// The record the store holds for cell `(x, y)`, if any.
    pub open spec fn spec_pixel_at(self, x: u32, y: u32) -> Option<PixelData> {
        pixel_lookup(self.parts_view(), x, y, self.spec_dim_mid())
    }

    /// The last placement time the store holds for `uid`, if any.
    pub open spec fn spec_last_placed(self, uid: u128) -> Option<i64> {
        if self.users_view().contains_key(uid) {
            Some(self.users_view()[uid].last_placed)
        } else {
            None
        }
    }

    /// Every stored record carries its own key and a non-negative
    /// timestamp.
    pub open spec fn wf(self) -> bool {
        forall|uid: u128| #[trigger]
            self.users_view().contains_key(uid) ==> self.users_view()[uid].id == uid && 0
                <= self.users_view()[uid].last_placed
    }

    /// An empty store for a canvas of side `canvas_dim`; the quadrant
    /// midpoint is fixed here for the store's lifetime.
    pub fn new(canvas_dim: u32) -> (s: Self)
        ensures
            s.wf(),
            s.spec_dim_mid() == canvas_dim / 2,
            s.users_view() == Map::<u128, UserDetails>::empty(),
            s.parts_view() =~= seq![
                Map::<u64, PixelData>::empty(),
                Map::<u64, PixelData>::empty(),
                Map::<u64, PixelData>::empty(),
                Map::<u64, PixelData>::empty(),
            ],
    {
        DurableStore {
            dim_mid: canvas_dim / 2,
            users: HashMap::new(),
            part0: HashMap::new(),
            part1: HashMap::new(),
            part2: HashMap::new(),
            part3: HashMap::new(),
        }
    }

    /// The player record for `uid`, or `InvalidUser` if the user has never
    /// placed.
    pub fn get_user(&self, uid: u128) -> (r: Result<UserDetails, VpError>)
        ensures
            match r {
                Ok(u) => self.users_view().contains_key(uid) && u == self.users_view()[uid],
                Err(e) => !self.users_view().contains_key(uid) && e == VpError::InvalidUser,
            },
    {
        match self.users.get(&uid) {
            Some(u) => Ok(
                UserDetails {
                    id: u.id,
                    uname: u.uname.clone(),
                    x: u.x,
                    y: u.y,
                    color: u.color,
                    last_placed: u.last_placed,
                },
            ),
            None => Err(VpError::InvalidUser),
        }
    }

    /// Records an accepted placement: overwrites the user's player record
    /// and upserts the cell's record into its quadrant partition. A
    /// request without a display name carries no valid user identity; it
    /// is rejected before either table is touched.
    pub fn update_db(&mut self, req: &UpdatePixel, now: i64) -> (r: Result<(), VpError>)
        requires
            old(self).wf(),
            now >= 0,
        ensures
            final(self).wf(),
            final(self).spec_dim_mid() == old(self).spec_dim_mid(),
            match r {
                Ok(()) => {
                    &&& req.uname is Some
                    &&& final(self).users_view() == old(self).users_view().insert(
                        req.uid,
                        UserDetails {
                            id: req.uid,
                            uname: req.uname->Some_0,
                            x: req.loc.0,
                            y: req.loc.1,
                            color: req.color,
                            last_placed: now,
                        },
                    )
                    &&& final(self).parts_view() == pixel_upsert(
                        old(self).parts_view(),
                        req.loc.0,
                        req.loc.1,
                        old(self).spec_dim_mid(),
                        PixelData {
                            uname: req.uname->Some_0,
                            color: req.color,
                            last_placed: now,
                        },
                    )
                },
                Err(e) => {
                    &&& req.uname is None
                    &&& e == VpError::InvalidUser
                    &&& final(self).users_view() == old(self).users_view()
                    &&& final(self).parts_view() == old(self).parts_view()
                },
            },
    {
        let uname = match &req.uname {
            Some(n) => n.clone(),
            None => {
                return Err(VpError::InvalidUser);
            },
        };
        let user_rec = UserDetails {
            id: req.uid,
            uname: uname.clone(),
            x: req.loc.0,
            y: req.loc.1,
            color: req.color,
            last_placed: now,
        };
        self.users.insert(req.uid, user_rec);
        let pixel_rec = PixelData { uname, color: req.color, last_placed: now };
        let key = cell_key(req.loc.0, req.loc.1);
        let p = partition(req.loc.0, req.loc.1, self.dim_mid);
        match p {
            0 => {
                self.part0.insert(key, pixel_rec);
            },
            1 => {
                self.part1.insert(key, pixel_rec);
            },
            2 => {
                self.part2.insert(key, pixel_rec);
            },
            _ => {
                self.part3.insert(key, pixel_rec);
            },
        }
        proof {
            assert(self.parts_view() =~= pixel_upsert(
                old(self).parts_view(),
                req.loc.0,
                req.loc.1,
                old(self).spec_dim_mid(),
                PixelData { uname: req.uname->Some_0, color: req.color, last_placed: now },
            ));
            assert forall|uid: u128| #[trigger]
                self.users_view().contains_key(uid) implies self.users_view()[uid].id == uid && 0
                <= self.users_view()[uid].last_placed by {
                if uid != req.uid {
                    assert(old(self).users_view().contains_key(uid));
                }
            }
        }
        Ok(())
    }

    /// The cell record for `(x, y)`, resolved through the same quadrant
    /// function the write path uses, or `NoPixelData` if the cell has
    /// never been placed.
    pub fn get_pixel(&self, x: u32, y: u32) -> (r: Result<PixelData, VpError>)
        ensures
            match r {
                Ok(rec) => self.spec_pixel_at(x, y) == Some(rec),
                Err(e) => self.spec_pixel_at(x, y) is None && e == VpError::NoPixelData,
            },
    {
        let key = cell_key(x, y);
        let p = partition(x, y, self.dim_mid);
        let found = match p {
            0 => self.part0.get(&key),
            1 => self.part1.get(&key),
            2 => self.part2.get(&key),
            _ => self.part3.get(&key),
        };
        match found {
            Some(rec) => Ok(
                PixelData {
                    uname: rec.uname.clone(),
                    color: rec.color,
                    last_placed: rec.last_placed,
                },
            ),
            None => Err(VpError::NoPixelData),
        }
    }

    /// Clears both logical tables (admin only); the partition scheme
    /// itself survives.
    pub fn reset_db(&mut self)
        requires
            old(self).wf(),
        ensures
            final(self).wf(),
            final(self).spec_dim_mid() == old(self).spec_dim_mid(),
            final(self).users_view() == Map::<u128, UserDetails>::empty(),
            final(self).parts_view() =~= seq![
                Map::<u64, PixelData>::empty(),
                Map::<u64, PixelData>::empty(),
                Map::<u64, PixelData>::empty(),
                Map::<u64, PixelData>::empty(),
            ],
    {
        self.users.clear();
        self.part0.clear();
        self.part1.clear();
        self.part2.clear();
        self.part3.clear();
    }
}

} // verus!
