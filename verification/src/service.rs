//! The placement pipeline: validation, cooldown, the dual write against
//! the canvas cache and the durable store, and the broadcast of every
//! accepted placement, plus the snapshot, history and administrative
//! operations built on the same state.

use vstd::prelude::*;

use crate::canvas::{
    cell_offset, lemma_cell_round_trip, lemma_offset_in_range, spec_bitmap_len, spec_cell,
    spec_initialize, spec_offset, spec_set_cell, spec_zero_bitmap, CanvasCache, ColorDepth,
};
use crate::codec::{b64_of, encode_base64, spec_event_json};
use crate::cooldown::{diff_last_placed, opt_int, spec_allowed, spec_remaining};
use crate::errors::VpError;
use crate::hub::VpSrv;
use crate::models::{AppState, CanvasResponse, PlaceUpdate, UpdatePixel, VpRes, WaitTime};
use crate::store::{pixel_upsert, DurableStore, PixelData, UserDetails};

verus! {

/// The outcome of a placement attempt that passed validation: either the
/// placement was accepted and fanned out to the registered viewers, or
/// the user must still wait.
#[derive(Debug)]
pub enum PlaceOutcome {
    Accepted(Vec<(u64, VpRes)>),
    WaitRequired(WaitTime),
}

/// The requested color fits the configured depth.
pub open spec fn color_ok(req: UpdatePixel, state: AppState) -> bool {
    req.color <= state.depth.spec_max_color()
}

/// The requested cell lies on the canvas.
pub open spec fn bounds_ok(req: UpdatePixel, state: AppState) -> bool {
    req.loc.0 < state.canvas_dim && req.loc.1 < state.canvas_dim
}

/// The request carries a user identity.
pub open spec fn ident_ok(req: UpdatePixel) -> bool {
    req.uname is Some
}

pub open spec fn req_valid(req: UpdatePixel, state: AppState) -> bool {
    color_ok(req, state) && bounds_ok(req, state) && ident_ok(req)
}

/// The specific rejection for an invalid request: color first, then
/// bounds, then identity.
pub open spec fn spec_validation_error(req: UpdatePixel, state: AppState) -> VpError {
    if !color_ok(req, state) {
        VpError::ColorSizeMismatch
    } else if !bounds_ok(req, state) {
        VpError::CanvasSizeMismatch
    } else {
        VpError::InvalidUser
    }
}

/// The player record an accepted placement writes.
pub open spec fn placed_user_record(req: UpdatePixel, now: i64) -> UserDetails {
    UserDetails {
        id: req.uid,
        uname: req.uname->Some_0,
        x: req.loc.0,
        y: req.loc.1,
        color: req.color,
        last_placed: now,
    }
}

/// The cell record an accepted placement writes.
pub open spec fn placed_pixel_record(req: UpdatePixel, now: i64) -> PixelData {
    PixelData { uname: req.uname->Some_0, color: req.color, last_placed: now }
}

/// The configuration, cache and store belong to the same canvas.
pub open spec fn configured(state: AppState, cache: CanvasCache, store: DurableStore) -> bool {
    &&& state.wf()
    &&& cache.wf()
    &&& cache.spec_dim() == state.canvas_dim
    &&& cache.spec_depth() == state.depth
    &&& store.wf()
    &&& store.spec_dim_mid() == state.canvas_dim / 2
}

/// Neither the bitmap nor either store table changed.
pub open spec fn pipeline_unchanged(
    c0: CanvasCache,
    c1: CanvasCache,
    s0: DurableStore,
    s1: DurableStore,
) -> bool {
    &&& c1.data() == c0.data()
    &&& s1.users_view() == s0.users_view()
    &&& s1.parts_view() == s0.parts_view()
}

/// The effect of one accepted placement: the cell's packed field holds
/// the new color, the user's player record is overwritten, and the cell's
/// history record is upserted into its quadrant.
pub open spec fn spec_placed(
    req: UpdatePixel,
    state: AppState,
    c0: CanvasCache,
    c1: CanvasCache,
    s0: DurableStore,
    s1: DurableStore,
    now: i64,
) -> bool {
    &&& c1.data() == Some(
        spec_set_cell(
            c0.data()->Some_0,
            spec_offset(req.loc.0, req.loc.1, state.canvas_dim),
            req.color,
            state.depth,
        ),
    )
    &&& s1.users_view() == s0.users_view().insert(req.uid, placed_user_record(req, now))
    &&& s1.parts_view() == pixel_upsert(
        s0.parts_view(),
        req.loc.0,
        req.loc.1,
        state.canvas_dim / 2,
        placed_pixel_record(req, now),
    )
}

/// One delivery of the event's payload to each registered handle, in
/// registration order.
pub open spec fn spec_deliveries(out: Seq<(u64, VpRes)>, hub: VpSrv, req: UpdatePixel) -> bool {
    &&& out.len() == hub.listeners_view().len()
    &&& forall|i: int|
        0 <= i < out.len() ==> out[i].0 == hub.listeners_view()[i] && out[i].1.0@
            == spec_event_json(req.loc.0, req.loc.1, req.color)
}

/// Validates a placement request before any write: color depth first,
/// then bounds, then user identity, with the specific rejection.
pub fn validate_request(u_req: &UpdatePixel, app_data: &AppState) -> (r: Result<(), VpError>)
    ensures
        req_valid(*u_req, *app_data) ==> r is Ok,
        !req_valid(*u_req, *app_data) ==> r is Err && r->Err_0 == spec_validation_error(
            *u_req,
            *app_data,
        ),
{
    if u_req.color > app_data.depth.max_color() {
        return Err(VpError::ColorSizeMismatch);
    }
    if !(u_req.loc.0 < app_data.canvas_dim && u_req.loc.1 < app_data.canvas_dim) {
        return Err(VpError::CanvasSizeMismatch);
    }
    if u_req.uname.is_none() {
        return Err(VpError::InvalidUser);
    }
    Ok(())
}

/// Placement round trip: after an accepted placement the snapshot bitmap
/// decodes to the placed color at the cell's packed offset `y * dim + x`,
/// and every other cell of the canvas decodes exactly as before.
pub proof fn lemma_place_round_trip(
    req: UpdatePixel,
    state: AppState,
    c0: CanvasCache,
    c1: CanvasCache,
    s0: DurableStore,
    s1: DurableStore,
    now: i64,
)
    requires
        state.wf(),
        c0.wf(),
        c0.spec_dim() == state.canvas_dim,
        c0.spec_depth() == state.depth,
        c0.data() is Some,
        req_valid(req, state),
        spec_placed(req, state, c0, c1, s0, s1, now),
    ensures
        c1.data() is Some,
        spec_cell(
            c1.data()->Some_0,
            spec_offset(req.loc.0, req.loc.1, state.canvas_dim),
            state.depth,
        ) == req.color,
        forall|off2: int|
            0 <= off2 < state.canvas_dim * state.canvas_dim && off2 != spec_offset(
                req.loc.0,
                req.loc.1,
                state.canvas_dim,
            ) ==> spec_cell(c1.data()->Some_0, off2, state.depth) == spec_cell(
                c0.data()->Some_0,
                off2,
                state.depth,
            ),
{
    let bm = c0.data()->Some_0;
    let off = spec_offset(req.loc.0, req.loc.1, state.canvas_dim);
    let dim = state.canvas_dim;
    lemma_offset_in_range(req.loc.0, req.loc.1, dim);
    if state.depth == ColorDepth::Four {
        // dim * dim <= 2 * ceil(dim * dim / 2) == 2 * bitmap length
        assert(2 * ((dim * dim + 1) / 2) >= dim * dim) by {
            vstd::arithmetic::div_mod::lemma_fundamental_div_mod(dim * dim + 1, 2);
        }
    }
    lemma_cell_round_trip(bm, off, req.color, state.depth);
}

/// Ensures the canvas bitmap exists: allocates it zeroed on first start,
/// and leaves an existing bitmap untouched.
pub fn init_place(app_state: &AppState, cache: &mut CanvasCache) -> (r: Result<(), VpError>)
    requires
        app_state.wf(),
        old(cache).wf(),
        old(cache).spec_dim() == app_state.canvas_dim,
        old(cache).spec_depth() == app_state.depth,
    ensures
        r is Ok,
        final(cache).wf(),
        final(cache).spec_dim() == app_state.canvas_dim,
        final(cache).spec_depth() == app_state.depth,
        final(cache).data() == spec_initialize(
            old(cache).data(),
            app_state.canvas_dim,
            app_state.depth,
        ),
        final(cache).initialized(),
{
    cache.initialize();
    Ok(())
}

/// Zeroes the canvas bitmap and clears both store tables (admin only).
pub fn reset_place(app_state: &AppState, cache: &mut CanvasCache, store: &mut DurableStore) -> (r:
    Result<(), VpError>)
    requires
        configured(*app_state, *old(cache), *old(store)),
    ensures
        r is Ok,
        configured(*app_state, *final(cache), *final(store)),
        final(cache).spec_dim() == old(cache).spec_dim(),
        final(cache).spec_depth() == old(cache).spec_depth(),
        final(cache).data() == Some(
            spec_zero_bitmap(spec_bitmap_len(app_state.canvas_dim, app_state.depth)),
        ),
        final(store).users_view() == Map::<u128, UserDetails>::empty(),
        final(store).parts_view() =~= seq![
            Map::<u64, PixelData>::empty(),
            Map::<u64, PixelData>::empty(),
            Map::<u64, PixelData>::empty(),
            Map::<u64, PixelData>::empty(),
        ],
{
    cache.reset();
    store.reset_db();
    Ok(())
}

/// The placement dual write: validates the request, writes the cell's
/// packed field and both store records, and hands the anonymized event to
/// every registered viewer. The cooldown is the caller's concern: the
/// ordinary path checks it first, the administrative path skips it.
pub fn update_place(
    u_req: &UpdatePixel,
    app_data: &AppState,
    cache: &mut CanvasCache,
    store: &mut DurableStore,
    pu_srv: &VpSrv,
    now: i64,
) -> (r: Result<Vec<(u64, VpRes)>, VpError>)
    requires
        configured(*app_data, *old(cache), *old(store)),
        old(cache).initialized(),
        pu_srv.wf(),
        now >= 0,
    ensures
        configured(*app_data, *final(cache), *final(store)),
        final(cache).initialized(),
        !req_valid(*u_req, *app_data) ==> r is Err && r->Err_0 == spec_validation_error(
            *u_req,
            *app_data,
        ) && pipeline_unchanged(*old(cache), *final(cache), *old(store), *final(store)),
        req_valid(*u_req, *app_data) ==> r is Ok && spec_placed(
            *u_req,
            *app_data,
            *old(cache),
            *final(cache),
            *old(store),
            *final(store),
            now,
        ) && spec_deliveries(r->Ok_0@, *pu_srv, *u_req),
{
    match validate_request(u_req, app_data) {
        Ok(()) => (),
        Err(e) => {
            return Err(e);
        },
    }
    let offset = cell_offset(u_req.loc.0, u_req.loc.1, app_data.canvas_dim);
    cache.set_cell(offset, u_req.color);
    match store.update_db(u_req, now) {
        Ok(()) => (),
        Err(e) => {
            return Err(e);
        },
    }
    let out = pu_srv.publish(&PlaceUpdate { loc: u_req.loc, color: u_req.color });
    proof {
        assert(spec_placed(*u_req, *app_data, *old(cache), *cache, *old(store), *store, now));
        assert(spec_deliveries(out@, *pu_srv, *u_req));
    }
    Ok(out)
}

/// The full placement submission: validation, then the cooldown, then
/// the dual write and broadcast. An ineligible user gets the remaining
/// wait, and nothing is written.
pub fn update_pixel(
    u_req: &UpdatePixel,
    app_data: &AppState,
    cache: &mut CanvasCache,
    store: &mut DurableStore,
    pu_srv: &VpSrv,
    now: i64,
) -> (r: Result<PlaceOutcome, VpError>)
    requires
        configured(*app_data, *old(cache), *old(store)),
        old(cache).initialized(),
        pu_srv.wf(),
        now >= 0,
        forall|uid: u128| #[trigger]
            old(store).users_view().contains_key(uid) ==> old(
                store,
            ).users_view()[uid].last_placed <= now,
    ensures
        configured(*app_data, *final(cache), *final(store)),
        final(cache).initialized(),
        !req_valid(*u_req, *app_data) ==> r is Err && r->Err_0 == spec_validation_error(
            *u_req,
            *app_data,
        ) && pipeline_unchanged(*old(cache), *final(cache), *old(store), *final(store)),
        req_valid(*u_req, *app_data) && !spec_allowed(
            opt_int(old(store).spec_last_placed(u_req.uid)),
            app_data.cooldown as int,
            now as int,
        ) ==> r is Ok && r->Ok_0 is WaitRequired && r->Ok_0->WaitRequired_0.rem_wait
            == spec_remaining(
            opt_int(old(store).spec_last_placed(u_req.uid)),
            app_data.cooldown as int,
            now as int,
        ) && pipeline_unchanged(*old(cache), *final(cache), *old(store), *final(store)),
        req_valid(*u_req, *app_data) && spec_allowed(
            opt_int(old(store).spec_last_placed(u_req.uid)),
            app_data.cooldown as int,
            now as int,
        ) ==> r is Ok && r->Ok_0 is Accepted && spec_placed(
            *u_req,
            *app_data,
            *old(cache),
            *final(cache),
            *old(store),
            *final(store),
            now,
        ) && spec_deliveries(r->Ok_0->Accepted_0@, *pu_srv, *u_req),
{
    match validate_request(u_req, app_data) {
        Ok(()) => (),
        Err(e) => {
            return Err(e);
        },
    }
    let cooldown = app_data.cooldown as i64;
    let time_diff = match diff_last_placed(store, u_req.uid, app_data.cooldown, now) {
        Ok(d) => d,
        Err(e) => {
            return Err(e);
        },
    };
    if time_diff >= cooldown {
        match update_place(u_req, app_data, cache, store, pu_srv, now) {
            Ok(out) => Ok(PlaceOutcome::Accepted(out)),
            Err(e) => Err(e),
        }
    } else {
        Ok(PlaceOutcome::WaitRequired(WaitTime { rem_wait: cooldown - time_diff }))
    }
}

/// The administrative placement: same dual write and broadcast, but the
/// cooldown is bypassed; reachable only with the admin bearer token.
pub fn admin_update_pixel(
    token: &String,
    u_req: &UpdatePixel,
    app_data: &AppState,
    cache: &mut CanvasCache,
    store: &mut DurableStore,
    pu_srv: &VpSrv,
    now: i64,
) -> (r: Result<Vec<(u64, VpRes)>, VpError>)
    requires
        configured(*app_data, *old(cache), *old(store)),
        old(cache).initialized(),
        pu_srv.wf(),
        now >= 0,
    ensures
        configured(*app_data, *final(cache), *final(store)),
        final(cache).initialized(),
        token@ != app_data.admin_token@ ==> r is Err && r->Err_0 == VpError::AdminAuthFailure
            && pipeline_unchanged(*old(cache), *final(cache), *old(store), *final(store)),
        token@ == app_data.admin_token@ && !req_valid(*u_req, *app_data) ==> r is Err && r->Err_0
            == spec_validation_error(*u_req, *app_data) && pipeline_unchanged(
            *old(cache),
            *final(cache),
            *old(store),
            *final(store),
        ),
        token@ == app_data.admin_token@ && req_valid(*u_req, *app_data) ==> r is Ok && spec_placed(
            *u_req,
            *app_data,
            *old(cache),
            *final(cache),
            *old(store),
            *final(store),
            now,
        ) && spec_deliveries(r->Ok_0@, *pu_srv, *u_req),
{
    if !token.eq(&app_data.admin_token) {
        return Err(VpError::AdminAuthFailure);
    }
    update_place(u_req, app_data, cache, store, pu_srv, now)
}

/// The administrative reset: zeroes the bitmap and clears both tables,
/// but only with the admin bearer token.
pub fn reset_canvas(
    token: &String,
    app_data: &AppState,
    cache: &mut CanvasCache,
    store: &mut DurableStore,
) -> (r: Result<(), VpError>)
    requires
        configured(*app_data, *old(cache), *old(store)),
    ensures
        configured(*app_data, *final(cache), *final(store)),
        token@ != app_data.admin_token@ ==> r is Err && r->Err_0 == VpError::AdminAuthFailure
            && pipeline_unchanged(*old(cache), *final(cache), *old(store), *final(store)),
        token@ == app_data.admin_token@ ==> r is Ok && final(cache).data() == Some(
            spec_zero_bitmap(spec_bitmap_len(app_data.canvas_dim, app_data.depth)),
        ) && final(store).users_view() == Map::<u128, UserDetails>::empty() && final(store).parts_view() =~= seq![
            Map::<u64, PixelData>::empty(),
            Map::<u64, PixelData>::empty(),
            Map::<u64, PixelData>::empty(),
            Map::<u64, PixelData>::empty(),
        ],
{
    if !token.eq(&app_data.admin_token) {
        return Err(VpError::AdminAuthFailure);
    }
    reset_place(app_data, cache, store)
}

/// The canvas snapshot for a newly connecting client: the packed bitmap
/// as base64 text, with the configuration the client needs to decode it.
pub fn get_canvas(app_data: &AppState, cache: &CanvasCache) -> (r: Result<CanvasResponse, VpError>)
    requires
        app_data.wf(),
        cache.wf(),
        cache.spec_dim() == app_data.canvas_dim,
        cache.spec_depth() == app_data.depth,
    ensures
        match r {
            Ok(resp) => {
                &&& cache.data() is Some
                &&& resp.id == app_data.canvas_id
                &&& resp.dim == app_data.canvas_dim
                &&& resp.cooldown == app_data.cooldown
                &&& resp.canvas@ == b64_of(cache.data()->Some_0)
            },
            Err(e) => cache.data() is None && e == VpError::CacheUnavailable,
        },
{
    let bytes = match cache.read_all() {
        Ok(b) => b,
        Err(e) => {
            return Err(e);
        },
    };
    let canvas = encode_base64(&bytes);
    Ok(
        CanvasResponse {
            id: app_data.canvas_id.clone(),
            dim: app_data.canvas_dim,
            canvas,
            cooldown: app_data.cooldown,
        },
    )
}

/// The per-cell history read: the cell's latest record, `NoPixelData` if
/// the cell was never placed, or an out-of-bounds error.
pub fn pixel_info(x: u32, y: u32, app_data: &AppState, store: &DurableStore) -> (r: Result<
    PixelData,
    VpError,
>)
    ensures
        !(x < app_data.canvas_dim && y < app_data.canvas_dim) ==> r is Err && r->Err_0
            == VpError::CanvasSizeMismatch,
        x < app_data.canvas_dim && y < app_data.canvas_dim ==> match store.spec_pixel_at(x, y) {
            Some(rec) => r is Ok && r->Ok_0 == rec,
            None => r is Err && r->Err_0 == VpError::NoPixelData,
        },
{
    if x < app_data.canvas_dim && y < app_data.canvas_dim {
        store.get_pixel(x, y)
    } else {
        Err(VpError::CanvasSizeMismatch)
    }
}

} // verus!
