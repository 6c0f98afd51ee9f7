//! Request, response and configuration types of the placement pipeline.

use vstd::prelude::*;

use crate::canvas::{spec_bitmap_len, ColorDepth, MAX_DIM};

verus! {

/// A placement request: the unit of work entering the coordinator. The
/// user identity is an opaque 128-bit id; a request without a display name
/// carries no valid user identity and is rejected.
#[derive(Debug)]
pub struct UpdatePixel {
    pub uid: u128,
    pub uname: Option<String>,
    /// coordinates : (x,y)
    pub loc: (u32, u32),
    pub color: u8,
}

/// The anonymized broadcast event: the subset of an accepted placement
/// that is fanned out to every viewer. User identity is deliberately
/// stripped before broadcast.
#[derive(Clone, Copy, Debug, PartialEq, Eq)]
pub struct PlaceUpdate {
    /// coordinates : (x,y)
    pub loc: (u32, u32),
    pub color: u8,
}

/// The canvas snapshot handed to a newly connecting client: the packed
/// bitmap as text, plus the configuration the client needs.
#[derive(Clone, Debug)]
pub struct CanvasResponse {
    pub id: String,
    pub dim: u32,
    pub canvas: String,
    pub cooldown: usize,
}

/// The seconds a user must still wait before the next accepted placement.
#[derive(Clone, Copy, Debug, PartialEq, Eq, Structural)]
pub struct WaitTime {
    pub rem_wait: i64,
}

/// One serialized broadcast payload, ready to be written to a viewer's
/// channel verbatim.
#[derive(Clone, Debug)]
pub struct VpRes(pub String);

/// The service configuration: one canvas, its side length, color depth,
/// cooldown and the admin bearer token.
pub struct AppState {
    pub canvas_id: String,
    /// admin Id
    pub admin_token: String,
    /// canvas_dim * canvas_dim is the real dimension of canvas
    pub canvas_dim: u32,
    pub cooldown: usize,
    pub depth: ColorDepth,
}

impl AppState {
    /// Machine bounds on the configuration: every cell offset, the bitmap
    /// byte length and its text encoding fit `usize` on every platform,
    /// and the cooldown fits the signed seconds arithmetic.
    pub open spec fn wf(self) -> bool {
        &&& self.canvas_dim <= MAX_DIM
        &&& spec_bitmap_len(self.canvas_dim, self.depth) <= 0x7FFF_FFFF
        &&& self.cooldown <= i64::MAX
    }

    pub fn new(
        admin_token: String,
        canvas_id: String,
        canvas_dim: u32,
        cooldown: usize,
        depth: ColorDepth,
    ) -> (s: Self)
        requires
            canvas_dim <= MAX_DIM,
            spec_bitmap_len(canvas_dim, depth) <= 0x7FFF_FFFF,
            cooldown <= i64::MAX,
        ensures
            s.wf(),
            s.admin_token == admin_token,
            s.canvas_id == canvas_id,
            s.canvas_dim == canvas_dim,
            s.cooldown == cooldown,
            s.depth == depth,
    {
        Self { admin_token, canvas_id, canvas_dim, cooldown, depth }
    }
}

} // verus!
