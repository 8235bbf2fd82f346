//! Ageing of one-shot sounds.

use vstd::prelude::*;
use crate::components::lifetime::OneShotLifetime;

verus! {

/// Ages a one-shot sound by `dt` seconds and says whether it has lived out
/// its duration and is to be removed.
pub fn oneshot_lifetime_system(lifetime: &mut OneShotLifetime, dt: i64) -> (despawn: bool)
    requires
        i64::MIN <= old(lifetime).elapsed + dt <= i64::MAX,
    ensures
        final(lifetime).elapsed == old(lifetime).elapsed + dt,
        final(lifetime).duration == old(lifetime).duration,
        despawn == final(lifetime).expired(),
{
    lifetime.elapsed = lifetime.elapsed + dt;
    lifetime.elapsed >= lifetime.duration
}

/// A sound that has lived out its duration has still done so after any
/// further step that is not negative.
pub proof fn lemma_expired_stays_expired(lifetime: OneShotLifetime, dt: i64)
    requires
        lifetime.expired(),
        dt >= 0,
        lifetime.elapsed + dt <= i64::MAX,
    ensures
        (OneShotLifetime { elapsed: (lifetime.elapsed + dt) as i64, ..lifetime }).expired(),
{
}

} // verus!
