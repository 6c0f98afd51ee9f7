//! The cooldown authority: decides whether a user may place now, from the
//! durable store's per-user record and the current wall-clock time. It
//! performs no writes.

use vstd::prelude::*;

use crate::errors::VpError;
use crate::store::{DurableStore, UserDetails};

verus! {

/// Seconds the user must still wait: zero for a user with no prior record
/// (a first-ever placement is never blocked) and zero once
/// `now - last_placed` has reached the cooldown; otherwise the shortfall,
/// which is always positive.
pub open spec fn spec_remaining(last: Option<int>, cooldown: int, now: int) -> int {
    match last {
        None => 0,
        Some(t) => if now - t >= cooldown {
            0
        } else {
            cooldown - (now - t)
        },
    }
}

/// A user may place now exactly when no wait is owed.
pub open spec fn spec_allowed(last: Option<int>, cooldown: int, now: int) -> bool {
    spec_remaining(last, cooldown, now) == 0
}

pub open spec fn opt_int(o: Option<i64>) -> Option<int> {
    match o {
        Some(t) => Some(t as int),
        None => None,
    }
}

/// The last placement time carried by an optional user record.
pub open spec fn spec_last_of(rec: Option<&UserDetails>) -> Option<int> {
    match rec {
        Some(u) => Some(u.last_placed as int),
        None => None,
    }
}

/// Cooldown boundary law: a user with no prior record is always eligible;
/// one who placed `cooldown - 1` seconds ago owes exactly one more second;
/// one who placed exactly `cooldown` seconds ago is eligible again.
pub proof fn lemma_cooldown_boundary(cooldown: int, now: int)
    requires
        cooldown >= 1,
    ensures
        spec_allowed(None, cooldown, now),
        spec_remaining(None, cooldown, now) == 0,
        !spec_allowed(Some(now - cooldown + 1), cooldown, now),
        spec_remaining(Some(now - cooldown + 1), cooldown, now) == 1,
        spec_allowed(Some(now - cooldown), cooldown, now),
        spec_remaining(Some(now - cooldown), cooldown, now) == 0,
{
}

/// Whether the user of `rec` may place at `now`, and the seconds still
/// owed if not. Pure: a function of the record and the clock alone.
pub fn eligible(rec: Option<&UserDetails>, cooldown_seconds: usize, now: i64) -> (r: (bool, i64))
    requires
        cooldown_seconds <= i64::MAX,
        now >= 0,
        match rec {
            Some(u) => 0 <= u.last_placed <= now,
            None => true,
        },
    ensures
        r.0 == spec_allowed(spec_last_of(rec), cooldown_seconds as int, now as int),
        r.1 == spec_remaining(spec_last_of(rec), cooldown_seconds as int, now as int),
        !r.0 ==> r.1 > 0,
{
    match rec {
        None => (true, 0),
        Some(u) => {
            let cd = cooldown_seconds as i64;
            let elapsed = now - u.last_placed;
            if elapsed >= cd {
                (true, 0)
            } else {
                (false, cd - elapsed)
            }
        },
    }
}

/// Seconds elapsed since the user's last accepted placement, or the full
/// cooldown for a user who has never placed, so that a first placement is
/// never blocked.
pub fn diff_last_placed(store: &DurableStore, uid: u128, cooldown: usize, now: i64) -> (r: Result<
    i64,
    VpError,
>)
    requires
        store.wf(),
        cooldown <= i64::MAX,
        now >= 0,
    ensures
        r is Ok,
        match store.spec_last_placed(uid) {
            Some(t) => r->Ok_0 == now - t,
            None => r->Ok_0 == cooldown,
        },
{
    match store.get_user(uid) {
        Ok(user) => Ok(now - user.last_placed),
        Err(_) => Ok(cooldown as i64),
    }
}

} // verus!
