use vstd::prelude::*;

use crate::block::{Link, Mpd, Probe, Step, status_text};
use crate::fields::clamp_volume;
use crate::status::{RemoteStatus, RemoteTrack};

verus! {

/// The volume after `n` steps up from `v`.
pub open spec fn raised(v: int, n: nat) -> int
    decreases n,
{
    if n == 0 {
        v
    } else {
        clamp_volume(raised(v, (n - 1) as nat) + 5)
    }
}

/// The volume after `n` steps down from `v`.
pub open spec fn lowered(v: int, n: nat) -> int
    decreases n,
{
    if n == 0 {
        v
    } else {
        clamp_volume(lowered(v, (n - 1) as nat) - 5)
    }
}

/// However many steps the wheel takes the volume up or down, it stays within
/// `0..=100`, and a single step already brings any volume into that range.
pub proof fn lemma_volume_stays_in_range(v: int, n: nat)
    ensures
        n > 0 || 0 <= v <= 100 ==> 0 <= raised(v, n) <= 100 && 0 <= lowered(v, n) <= 100,
    decreases n,
{
    if n > 0 {
        lemma_volume_stays_in_range(v, (n - 1) as nat);
    }
}

/// After a reconnect that succeeded, the next update that fetches a status
/// renders it in full through the usable link.
pub proof fn lemma_render_after_reconnect(
    m0: Mpd,
    m1: Mpd,
    m2: Mpd,
    status: RemoteStatus,
    track: Option<RemoteTrack>,
    step: Step,
)
    requires
        m0.reconnect_outcome(true, m1),
        m1.updated(Probe::Fetched { status, track }, m2, step),
    ensures
        m1.link_view() == Link::Usable,
        m2.text_view() == status_text(m0.format_view(), status, track),
        m2.link_view() == Link::Usable,
        step == Step::Sleep(m0.interval_view()),
{
}

/// Two updates in a row that observe the same probe show the same text and
/// ask for the same step.
pub proof fn lemma_update_idempotent(m0: Mpd, m1: Mpd, m2: Mpd, probe: Probe, s1: Step, s2: Step)
    requires
        m0.updated(probe, m1, s1),
        m1.updated(probe, m2, s2),
    ensures
        m2.text_view() == m1.text_view(),
        m2.link_view() == m1.link_view(),
        s2 == s1,
{
}

} // verus!
