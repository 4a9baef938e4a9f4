//! Permission health checks for SAF mounts.
//!
//! Persisted URI permissions can lapse (reboot, OS update) or be revoked (the user
//! turned access off, the provider was uninstalled). The check itself is behind
//! [`PermissionProbe`], implemented by the platform; this module runs it over every
//! mount and decides what the UI should say.

use vstd::prelude::*;

use crate::text::owned;
use crate::vfs::mount::{MountPoint, MountTable};
use crate::vfs::path::path_components;

verus! {

/// The health of a single mount's permission grant.
#[derive(Debug, Clone, Copy, PartialEq, Eq, Structural)]
pub enum PermissionState {
    /// Permission is valid; no action needed.
    Valid,
    /// Permission appears to have lapsed; usually recoverable by refreshing it
    /// without re-selecting the folder.
    Stale,
    /// Permission was revoked; the user must choose the folder again.
    Revoked,
    /// The mount has no permission concept (internal storage), or the check could
    /// not be completed.
    NotApplicable,
}

/// The suggested action for a state.
pub open spec fn action_text(s: PermissionState) -> Option<Seq<char>> {
    match s {
        PermissionState::Stale => Some(
            "Access to this storage may have lapsed. Tap to refresh — this usually doesn't require re-selecting the folder."@,
        ),
        PermissionState::Revoked => Some("Access to this storage was revoked. Tap to choose the folder again."@),
        _ => None,
    }
}

pub open spec fn static_text(a: Option<&'static str>) -> Option<Seq<char>> {
    match a {
        Some(s) => Some(s@),
        None => None,
    }
}

pub open spec fn state_needs_attention(s: PermissionState) -> bool {
    s == PermissionState::Stale || s == PermissionState::Revoked
}

impl PermissionState {
    /// Whether this state should prompt the user: stale or revoked.
    pub fn needs_attention(&self) -> (r: bool)
        ensures
            r == state_needs_attention(*self),
    {
        match self {
            PermissionState::Stale | PermissionState::Revoked => true,
            _ => false,
        }
    }

    /// The user-facing suggested action, or `None` when nothing needs doing.
    pub fn suggested_action(&self) -> (a: Option<&'static str>)
        ensures
            static_text(a) == action_text(*self),
    {
        match self {
            PermissionState::Stale => Some(
                "Access to this storage may have lapsed. Tap to refresh — this usually doesn't require re-selecting the folder.",
            ),
            PermissionState::Revoked => Some("Access to this storage was revoked. Tap to choose the folder again."),
            PermissionState::Valid | PermissionState::NotApplicable => None,
        }
    }
}

/// The platform's check of a mount's permission grant.
///
/// What a probe may answer for a mount is its own relation, `answers`; a probe
/// that does not define it allows any answer.
pub trait PermissionProbe: Send + Sync {
    /// The probe may answer `s` for `mount` (any state, unless the probe says more).
    open spec fn answers(&self, mount: MountPoint, s: PermissionState) -> bool {
        true
    }

    /// The current permission state of `mount`.
    fn check(&self, mount: &MountPoint) -> (s: PermissionState)
        ensures
            self.answers(*mount, s),
    ;
}

/// A probe that reports every mount as valid, for platforms or mounts with no
/// permission concept.
pub struct AlwaysValidProbe;

impl PermissionProbe for AlwaysValidProbe {
    open spec fn answers(&self, mount: MountPoint, s: PermissionState) -> bool {
        s == PermissionState::Valid
    }

    fn check(&self, mount: &MountPoint) -> (s: PermissionState) {
        PermissionState::Valid
    }
}

/// The health report of one mount.
#[derive(Debug, Clone)]
pub struct MountHealth {
    pub virtual_path: String,
    pub display_name: String,
    pub state: PermissionState,
    pub suggested_action: Option<&'static str>,
}

/// `h` reports on `m`: its path and name, and the action that goes with its state.
pub open spec fn reports_on(h: MountHealth, m: MountPoint) -> bool {
    &&& h.virtual_path@ == m.virtual_path@
    &&& h.display_name@ == m.display_name@
    &&& static_text(h.suggested_action) == action_text(h.state)
}

/// `r` reports on every mount of `t` once, in some order.
pub open spec fn scan_ok(t: Map<Seq<Seq<char>>, MountPoint>, r: Seq<MountHealth>) -> bool {
    &&& r.len() == t.dom().len()
    &&& forall|i: int| 0 <= i < r.len() ==> t.dom().contains(path_components(r[i].virtual_path@))
        && reports_on(#[trigger] r[i], t[path_components(r[i].virtual_path@)])
    &&& forall|k: Seq<Seq<char>>| #[trigger] t.dom().contains(k) ==> exists|i: int| 0 <= i < r.len() && reports_on(r[i], t[k])
}

/// The reports that need attention, in order.
pub open spec fn attention_only(r: Seq<MountHealth>) -> Seq<MountHealth> {
    r.filter(|h: MountHealth| state_needs_attention(h.state))
}

/// The reports of `all` that need the user's attention, in order.
pub fn needing_attention(all: Vec<MountHealth>) -> (r: Vec<MountHealth>)
    ensures
        r@ == attention_only(all@),
{
    let ghost src = all@;
    let mut rest = all;
    let mut kept: Vec<MountHealth> = Vec::new();
    let n = rest.len();
    let mut i: usize = 0;
    proof {
        assert(src.subrange(0, n as int) =~= src);
        assert(src.subrange(0, 0) =~= Seq::<MountHealth>::empty());
        assert(attention_only(src.subrange(0, 0)) =~= Seq::<MountHealth>::empty());
    }
    while i < n
        invariant
            n == src.len(),
            i <= n,
            rest@ == src.subrange(i as int, n as int),
            kept@ == attention_only(src.subrange(0, i as int)),
        decreases n - i,
    {
        let h = rest.remove(0);
        assert(h == src[i as int]);
        assert(rest@ =~= src.subrange(i + 1, n as int));
        proof {
            let pre = src.subrange(0, i as int);
            assert(src.subrange(0, i + 1) =~= pre.push(h));
            pre.lemma_filter_push(h, |x: MountHealth| state_needs_attention(x.state));
        }
        if h.state.needs_attention() {
            kept.push(h);
        }
        i = i + 1;
    }
    proof {
        assert(src.subrange(0, n as int) =~= src);
    }
    kept
}

/// The health reports for mounts with the states found for them, in order: each
/// report carries its mount's path and name, its state and that state's suggested
/// action.
pub fn reports_from(answers: &Vec<(&MountPoint, PermissionState)>) -> (r: Vec<MountHealth>)
    ensures
        r@.len() == answers@.len(),
        forall|i: int| 0 <= i < r@.len() ==> reports_on(#[trigger] r@[i], *answers@[i].0) && r@[i].state
            == answers@[i].1,
{
    let mut r: Vec<MountHealth> = Vec::new();
    let mut i: usize = 0;
    while i < answers.len()
        invariant
            i <= answers@.len(),
            r@.len() == i,
            forall|j: int| 0 <= j < i ==> reports_on(#[trigger] r@[j], *answers@[j].0) && r@[j].state == answers@[j].1,
        decreases answers@.len() - i,
    {
        let (mount, state) = answers[i];
        r.push(
            MountHealth {
                virtual_path: owned(mount.virtual_path.as_str()),
                display_name: owned(mount.display_name.as_str()),
                suggested_action: state.suggested_action(),
                state,
            },
        );
        i = i + 1;
    }
    r
}

/// Where a monitor's permission states come from.
enum ProbeChoice {
    /// The platform's probe.
    Platform(Box<dyn PermissionProbe>),
    /// No permission model: every mount is valid.
    AllValid,
}

/// What `c` may report for `mount`.
spec fn choice_answers(c: ProbeChoice, mount: MountPoint, s: PermissionState) -> bool {
    match c {
        ProbeChoice::Platform(p) => p.answers(mount, s),
        ProbeChoice::AllValid => s == PermissionState::Valid,
    }
}

/// Runs a permission probe over a mount table.
pub struct HealthMonitor {
    probe: ProbeChoice,
}

impl HealthMonitor {
    /// Whether the monitor asks `probe` for each mount's state.
    pub closed spec fn asks(&self, probe: Box<dyn PermissionProbe>) -> bool {
        self.probe matches ProbeChoice::Platform(p) && p == probe
    }

    /// Whether the monitor reports every mount valid, asking no probe.
    pub closed spec fn all_valid(&self) -> bool {
        self.probe is AllValid
    }

    /// What the monitor may report for `mount`: what the probe it asks may answer
    /// (`PermissionProbe::answers`), or `Valid` when it asks none.
    pub closed spec fn answered(&self, mount: MountPoint, s: PermissionState) -> bool {
        choice_answers(self.probe, mount, s)
    }

    /// A monitor asking `probe`.
    pub fn new(probe: Box<dyn PermissionProbe>) -> (m: Self)
        ensures
            m.asks(probe),
            !m.all_valid(),
    {
        HealthMonitor { probe: ProbeChoice::Platform(probe) }
    }

    /// A monitor for contexts with no permission model: every mount is valid.
    pub fn always_valid() -> (m: Self)
        ensures
            m.all_valid(),
            forall|mount: MountPoint, s: PermissionState| #[trigger] m.answered(mount, s) == (s == PermissionState::Valid),
    {
        HealthMonitor { probe: ProbeChoice::AllValid }
    }

    /// The health of every mount of the table, each reported once with the state
    /// the probe gave and the matching suggested action.
    pub fn scan(&self, table: &MountTable) -> (r: Vec<MountHealth>)
        requires
            table.wf(),
        ensures
            scan_ok(table@, r@),
            forall|i: int| 0 <= i < r@.len() ==> self.answered(table@[path_components(r@[i].virtual_path@)], (#[trigger] r@[i]).state),
            self.all_valid() ==> forall|i: int| 0 <= i < r@.len() ==> (#[trigger] r@[i]).state == PermissionState::Valid,
    {
        let mounts = table.list_mounts();
        let mut answers: Vec<(&MountPoint, PermissionState)> = Vec::new();
        let mut i: usize = 0;
        while i < mounts.len()
            invariant
                i <= mounts@.len(),
                answers@.len() == i,
                forall|j: int| 0 <= j < i ==> (#[trigger] answers@[j]).0 == mounts@[j],
                forall|j: int| 0 <= j < i ==> self.answered(*mounts@[j], (#[trigger] answers@[j]).1),
                self.all_valid() ==> forall|j: int| 0 <= j < i ==> (#[trigger] answers@[j]).1 == PermissionState::Valid,
            decreases mounts@.len() - i,
        {
            let mount = mounts[i];
            let state = match &self.probe {
                ProbeChoice::Platform(p) => p.check(mount),
                ProbeChoice::AllValid => AlwaysValidProbe.check(mount),
            };
            answers.push((mount, state));
            i = i + 1;
        }
        let r = reports_from(&answers);
        proof {
            assert forall|j: int| 0 <= j < r@.len() implies reports_on(#[trigger] r@[j], *mounts@[j]) by {
                assert(answers@[j].0 == mounts@[j]);
            }
            assert forall|j: int| 0 <= j < r@.len() implies self.answered(
                table@[path_components(r@[j].virtual_path@)],
                (#[trigger] r@[j]).state,
            ) by {
                assert(self.answered(*mounts@[j], answers@[j].1));
                assert(*mounts@[j] == table@[path_components(mounts@[j].virtual_path@)]);
                assert(reports_on(r@[j], *answers@[j].0));
            }
            if self.all_valid() {
                assert forall|j: int| 0 <= j < r@.len() implies (#[trigger] r@[j]).state == PermissionState::Valid by {
                    assert(answers@[j].1 == PermissionState::Valid);
                }
            }
        }
        proof {
            assert forall|i: int| 0 <= i < r@.len() implies table@.dom().contains(path_components(r@[i].virtual_path@))
                && reports_on(#[trigger] r@[i], table@[path_components(r@[i].virtual_path@)]) by {
                assert(reports_on(r@[i], *mounts@[i]));
                assert(*mounts@[i] == table@[path_components(mounts@[i].virtual_path@)]);
            }
            assert forall|k: Seq<Seq<char>>| #[trigger] table@.dom().contains(k) implies exists|i: int| 0 <= i < r@.len() && reports_on(r@[i], table@[k]) by {
                let i = choose|i: int| 0 <= i < mounts@.len() && *mounts@[i] == table@[k];
                assert(reports_on(r@[i], *mounts@[i]));
            }
        }
        r
    }

    /// Only the mounts that need the user's attention, from a fresh scan.
    pub fn scan_needs_attention(&self, table: &MountTable) -> (r: Vec<MountHealth>)
        requires
            table.wf(),
        ensures
            exists|all: Seq<MountHealth>| {
                &&& scan_ok(table@, all)
                &&& forall|i: int| 0 <= i < all.len() ==> self.answered(table@[path_components(all[i].virtual_path@)], (#[trigger] all[i]).state)
                &&& r@ == attention_only(all)
            },
            self.all_valid() ==> r@.len() == 0,
    {
        let all = self.scan(table);
        let ghost a = all@;
        let r = needing_attention(all);
        proof {
            if self.all_valid() {
                let pred = |h: MountHealth| state_needs_attention(h.state);
                assert(a.all(|x: MountHealth| !pred(x))) by {
                    assert forall|i: int| 0 <= i < a.len() implies (|x: MountHealth| !pred(x))(#[trigger] a[i]) by {
                        assert(a[i].state == PermissionState::Valid);
                    }
                }
                a.lemma_all_neg_filter_empty(pred);
            }
        }
        r
    }
}

} // verus!
