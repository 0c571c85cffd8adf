//! Provider health tracking and the routing of model requests to providers.

use vstd::prelude::*;
use crate::ai::{resolve_spec, supports_spec, AnyProvider, PolicyMode, Provider, ProviderRegistry, TaskKind};
use crate::base::{AppError, ProviderHealth, ProviderHealthSnapshot, ProviderKind, Timestamp};

verus! {

/// A request to route a task to a provider. The cost ceiling is in millionths of a US dollar.
#[derive(Debug, Clone)]
pub struct RouteRequest {
    pub task: TaskKind,
    pub preferred_provider: Option<ProviderKind>,
    pub policy: PolicyMode,
    pub prompt: String,
    pub cost_ceiling_micro_usd: Option<i64>,
    pub require_online: bool,
    pub created_at: Timestamp,
}

/// The provider chosen for a request, with the routing confidence (a score out of 100).
#[derive(Debug, Clone)]
pub struct RouteResult {
    pub provider: ProviderKind,
    pub provider_kind_str: String,
    pub task: TaskKind,
    pub confidence: u32,
    pub policy: PolicyMode,
}

// ---------------------------------------------------------------------------------------
// Names
// ---------------------------------------------------------------------------------------

/// The name of a provider kind, as its variant is written.
pub open spec fn kind_name_spec(k: ProviderKind) -> Seq<char> {
    match k {
        ProviderKind::HuggingFace => "HuggingFace"@,
        ProviderKind::Local => "Local"@,
        ProviderKind::ComfyUi => "ComfyUi"@,
        ProviderKind::Groq => "Groq"@,
        ProviderKind::Cerebras => "Cerebras"@,
        ProviderKind::Together => "Together"@,
        ProviderKind::Fireworks => "Fireworks"@,
        ProviderKind::DeepInfra => "DeepInfra"@,
        ProviderKind::Fal => "Fal"@,
        ProviderKind::Replicate => "Replicate"@,
        ProviderKind::OpenRouter => "OpenRouter"@,
        ProviderKind::Custom => "Custom"@,
    }
}

/// The name of a provider kind, as its variant is written.
pub fn kind_name(k: ProviderKind) -> (s: &'static str)
    ensures
        s@ == kind_name_spec(k),
{
    match k {
        ProviderKind::HuggingFace => "HuggingFace",
        ProviderKind::Local => "Local",
        ProviderKind::ComfyUi => "ComfyUi",
        ProviderKind::Groq => "Groq",
        ProviderKind::Cerebras => "Cerebras",
        ProviderKind::Together => "Together",
        ProviderKind::Fireworks => "Fireworks",
        ProviderKind::DeepInfra => "DeepInfra",
        ProviderKind::Fal => "Fal",
        ProviderKind::Replicate => "Replicate",
        ProviderKind::OpenRouter => "OpenRouter",
        ProviderKind::Custom => "Custom",
    }
}

/// The name of a task kind, as its variant is written.
pub open spec fn task_name_spec(t: TaskKind) -> Seq<char> {
    match t {
        TaskKind::Text => "Text"@,
        TaskKind::Image => "Image"@,
        TaskKind::Video => "Video"@,
        TaskKind::Tts => "Tts"@,
        TaskKind::Stt => "Stt"@,
        TaskKind::Embedding => "Embedding"@,
        TaskKind::Vision => "Vision"@,
        TaskKind::Music => "Music"@,
    }
}

/// The name of a task kind, as its variant is written.
pub fn task_name(t: TaskKind) -> (s: &'static str)
    ensures
        s@ == task_name_spec(t),
{
    match t {
        TaskKind::Text => "Text",
        TaskKind::Image => "Image",
        TaskKind::Video => "Video",
        TaskKind::Tts => "Tts",
        TaskKind::Stt => "Stt",
        TaskKind::Embedding => "Embedding",
        TaskKind::Vision => "Vision",
        TaskKind::Music => "Music",
    }
}

// ---------------------------------------------------------------------------------------
// The health registry
// ---------------------------------------------------------------------------------------

/// The index of the first snapshot of provider `k` in `s`.
pub open spec fn position_of(s: Seq<ProviderHealthSnapshot>, k: ProviderKind) -> Option<int>
    decreases s.len(),
{
    if s.len() == 0 {
        None
    } else {
        match position_of(s.drop_last(), k) {
            Some(i) => Some(i),
            None => if s.last().provider == k {
                Some(s.len() - 1)
            } else {
                None
            },
        }
    }
}

/// The first snapshot of provider `k` in `s`.
pub open spec fn lookup(s: Seq<ProviderHealthSnapshot>, k: ProviderKind) -> Option<ProviderHealthSnapshot> {
    match position_of(s, k) {
        Some(i) => Some(s[i]),
        None => None,
    }
}

/// The providers whose snapshot in `s` is healthy, in the order of the snapshots.
pub open spec fn healthy_kinds(s: Seq<ProviderHealthSnapshot>) -> Seq<ProviderKind>
    decreases s.len(),
{
    if s.len() == 0 {
        Seq::empty()
    } else if s.last().health == ProviderHealth::Healthy {
        healthy_kinds(s.drop_last()).push(s.last().provider)
    } else {
        healthy_kinds(s.drop_last())
    }
}

/// `position_of` finds the first index whose snapshot is of provider `k`.
pub proof fn lemma_position_of(s: Seq<ProviderHealthSnapshot>, k: ProviderKind)
    ensures
        match position_of(s, k) {
            Some(i) => 0 <= i < s.len() && s[i].provider == k && forall|j: int|
                0 <= j < i ==> (#[trigger] s[j]).provider != k,
            None => forall|j: int| 0 <= j < s.len() ==> (#[trigger] s[j]).provider != k,
        },
    decreases s.len(),
{
    if s.len() > 0 {
        lemma_position_of(s.drop_last(), k);
        match position_of(s.drop_last(), k) {
            Some(i) => {
                assert forall|j: int| 0 <= j < i implies (#[trigger] s[j]).provider != k by {
                    assert(s[j] == s.drop_last()[j]);
                }
            },
            None => {
                assert forall|j: int| 0 <= j < s.len() - 1 implies (#[trigger] s[j]).provider != k by {
                    assert(s[j] == s.drop_last()[j]);
                }
            },
        }
    }
}

/// A first index of provider `k` is what `position_of` gives.
pub proof fn lemma_position_of_unique(s: Seq<ProviderHealthSnapshot>, k: ProviderKind, i: int)
    requires
        0 <= i < s.len(),
        s[i].provider == k,
        forall|j: int| 0 <= j < i ==> (#[trigger] s[j]).provider != k,
    ensures
        position_of(s, k) == Some(i),
{
    lemma_position_of(s, k);
    match position_of(s, k) {
        Some(p) => {
            if p < i {
                assert(s[p].provider != k);
            } else if p > i {
                assert(s[i].provider != k);
            }
        },
        None => {
            assert(s[i].provider != k);
        },
    }
}

/// The latest health snapshot of each provider.
pub struct ProviderHealthRegistry {
    snapshots: Vec<ProviderHealthSnapshot>,
}

impl View for ProviderHealthRegistry {
    type V = Seq<ProviderHealthSnapshot>;

    closed spec fn view(&self) -> Seq<ProviderHealthSnapshot> {
        self.snapshots@
    }
}

/// The snapshots after `snapshot` is recorded in `s`: it replaces the first snapshot of its
/// provider, or is appended when there is none.
pub open spec fn updated_snapshots(s: Seq<ProviderHealthSnapshot>, snapshot: ProviderHealthSnapshot) -> Seq<ProviderHealthSnapshot> {
    match position_of(s, snapshot.provider) {
        Some(i) => s.update(i, snapshot),
        None => s.push(snapshot),
    }
}

impl ProviderHealthRegistry {
    /// A registry without snapshots.
    pub fn new() -> (r: Self)
        ensures
            r@ == Seq::<ProviderHealthSnapshot>::empty(),
    {
        ProviderHealthRegistry { snapshots: Vec::new() }
    }

    /// A registry holding `snapshots`, in that order.
    pub fn with_snapshots(snapshots: Vec<ProviderHealthSnapshot>) -> (r: Self)
        ensures
            r@ == snapshots@,
    {
        ProviderHealthRegistry { snapshots }
    }

    /// The index of the first snapshot of provider `k`.
    fn find_index(&self, k: ProviderKind) -> (r: Option<usize>)
        ensures
            r matches Some(i) ==> position_of(self@, k) == Some(i as int) && i < self@.len(),
            r is None ==> position_of(self@, k) is None,
    {
        let n = self.snapshots.len();
        let mut i: usize = 0;
        while i < n
            invariant
                n == self@.len(),
                0 <= i <= n,
                forall|j: int| 0 <= j < i ==> (#[trigger] self@[j]).provider != k,
            decreases n - i,
        {
            if self.snapshots[i].provider == k {
                proof { lemma_position_of_unique(self@, k, i as int); }
                return Some(i);
            }
            i = i + 1;
        }
        proof {
            lemma_position_of(self@, k);
            if let Some(p) = position_of(self@, k) {
                assert(self@[p].provider != k);
            }
        }
        None
    }

    /// Records `snapshot`: it replaces the first snapshot of the same provider, or is added
    /// at the end when the registry holds none of that provider.
    pub fn update_snapshot(&mut self, snapshot: ProviderHealthSnapshot)
        ensures
            final(self)@ == updated_snapshots(old(self)@, snapshot),
    {
        match self.find_index(snapshot.provider) {
            Some(i) => {
                self.snapshots.set(i, snapshot);
            },
            None => {
                self.snapshots.push(snapshot);
            },
        }
    }

    /// The first snapshot of provider `k`, if the registry holds one.
    pub fn get_snapshot(&self, k: ProviderKind) -> (r: Option<ProviderHealthSnapshot>)
        ensures
            r == lookup(self@, k),
    {
        match self.find_index(k) {
            Some(i) => Some(self.snapshots[i]),
            None => None,
        }
    }

    /// The providers whose snapshot is healthy, in the order of the snapshots.
    pub fn healthy_providers(&self) -> (r: Vec<ProviderKind>)
        ensures
            r@ == healthy_kinds(self@),
    {
        let mut r: Vec<ProviderKind> = Vec::new();
        let n = self.snapshots.len();
        let mut i: usize = 0;
        while i < n
            invariant
                n == self@.len(),
                0 <= i <= n,
                r@ == healthy_kinds(self@.take(i as int)),
            decreases n - i,
        {
            assert(self@.take(i as int + 1).drop_last() == self@.take(i as int));
            if self.snapshots[i].health == ProviderHealth::Healthy {
                r.push(self.snapshots[i].provider);
            }
            i = i + 1;
        }
        assert(self@.take(n as int) == self@);
        r
    }
}

/// Reading a provider's snapshot gives back the snapshot last recorded for it.
pub proof fn law_update_then_get(s: Seq<ProviderHealthSnapshot>, snapshot: ProviderHealthSnapshot)
    ensures
        lookup(updated_snapshots(s, snapshot), snapshot.provider) == Some(snapshot),
{
    let k = snapshot.provider;
    let t = updated_snapshots(s, snapshot);
    lemma_position_of(s, k);
    match position_of(s, k) {
        Some(i) => {
            assert forall|j: int| 0 <= j < i implies (#[trigger] t[j]).provider != k by {
                assert(t[j] == s[j]);
            }
            lemma_position_of_unique(t, k, i);
        },
        None => {
            assert forall|j: int| 0 <= j < s.len() implies (#[trigger] t[j]).provider != k by {
                assert(t[j] == s[j]);
            }
            lemma_position_of_unique(t, k, s.len() as int);
        },
    }
}

/// Recording a snapshot leaves what is read for every other provider unchanged.
pub proof fn law_update_keeps_others(
    s: Seq<ProviderHealthSnapshot>,
    snapshot: ProviderHealthSnapshot,
    other: ProviderKind,
)
    requires
        other != snapshot.provider,
    ensures
        lookup(updated_snapshots(s, snapshot), other) == lookup(s, other),
{
    let t = updated_snapshots(s, snapshot);
    lemma_position_of(s, snapshot.provider);
    lemma_position_of(s, other);
    lemma_position_of(t, other);
    match position_of(s, snapshot.provider) {
        Some(i) => {
            assert(t.len() == s.len());
            assert forall|j: int| 0 <= j < s.len() && j != i implies #[trigger] t[j] == s[j] by {}
            assert(t[i].provider != other);
            match position_of(s, other) {
                Some(p) => {
                    assert(s[i].provider != other);
                    assert forall|j: int| 0 <= j < p implies (#[trigger] t[j]).provider != other by {
                        if j != i {
                            assert(t[j] == s[j]);
                        }
                    }
                    lemma_position_of_unique(t, other, p);
                },
                None => {
                    match position_of(t, other) {
                        Some(p) => {
                            if p != i {
                                assert(t[p] == s[p]);
                            }
                        },
                        None => {},
                    }
                },
            }
        },
        None => {
            assert(t.len() == s.len() + 1);
            assert forall|j: int| 0 <= j < s.len() implies #[trigger] t[j] == s[j] by {}
            match position_of(s, other) {
                Some(p) => {
                    assert forall|j: int| 0 <= j < p implies (#[trigger] t[j]).provider != other by {
                        assert(t[j] == s[j]);
                    }
                    lemma_position_of_unique(t, other, p);
                },
                None => {
                    match position_of(t, other) {
                        Some(p) => {
                            if p < s.len() {
                                assert(t[p] == s[p]);
                            }
                        },
                        None => {},
                    }
                },
            }
        },
    }
}


/// Whether `s` holds at most one snapshot of each provider.
pub open spec fn one_per_provider(s: Seq<ProviderHealthSnapshot>) -> bool {
    forall|i: int, j: int|
        0 <= i < s.len() && 0 <= j < s.len() && i != j ==> (#[trigger] s[i]).provider
            != (#[trigger] s[j]).provider
}

/// A provider is among the healthy kinds exactly when some snapshot of it is healthy.
pub proof fn lemma_healthy_kinds(s: Seq<ProviderHealthSnapshot>, k: ProviderKind)
    ensures
        healthy_kinds(s).contains(k) <==> exists|i: int|
            0 <= i < s.len() && (#[trigger] s[i]).provider == k && s[i].health
                == ProviderHealth::Healthy,
    decreases s.len(),
{
    if s.len() > 0 {
        let front = s.drop_last();
        lemma_healthy_kinds(front, k);
        let h = healthy_kinds(front);
        if healthy_kinds(s).contains(k) {
            if h.contains(k) {
                let i = choose|i: int|
                    0 <= i < front.len() && (#[trigger] front[i]).provider == k && front[i].health
                        == ProviderHealth::Healthy;
                assert(s[i] == front[i]);
            } else {
                let x = choose|x: int| 0 <= x < healthy_kinds(s).len() && healthy_kinds(s)[x] == k;
                if s.last().health == ProviderHealth::Healthy {
                    if x < h.len() {
                        assert(h[x] == k);
                    }
                    assert(s[s.len() - 1].provider == k);
                } else {
                    assert(h[x] == k);
                }
            }
        }
        if exists|i: int|
            0 <= i < s.len() && (#[trigger] s[i]).provider == k && s[i].health
                == ProviderHealth::Healthy {
            let i = choose|i: int|
                0 <= i < s.len() && (#[trigger] s[i]).provider == k && s[i].health
                    == ProviderHealth::Healthy;
            if i < s.len() - 1 {
                assert(front[i] == s[i]);
                let x = choose|x: int| 0 <= x < h.len() && h[x] == k;
                if s.last().health == ProviderHealth::Healthy {
                    assert(healthy_kinds(s)[x] == k);
                } else {
                    assert(healthy_kinds(s)[x] == k);
                }
            } else {
                assert(healthy_kinds(s)[h.len() as int] == k);
            }
        }
    }
}

/// Recording a snapshot keeps at most one snapshot per provider, since it replaces the one
/// already held; and the recorded provider is then among the healthy providers exactly when
/// the recorded snapshot is healthy.
pub proof fn law_update_one_per_provider(
    s: Seq<ProviderHealthSnapshot>,
    snapshot: ProviderHealthSnapshot,
)
    requires
        one_per_provider(s),
    ensures
        one_per_provider(updated_snapshots(s, snapshot)),
        healthy_kinds(updated_snapshots(s, snapshot)).contains(snapshot.provider) <==> snapshot.health
            == ProviderHealth::Healthy,
{
    let k = snapshot.provider;
    let t = updated_snapshots(s, snapshot);
    lemma_position_of(s, k);
    let p: int = match position_of(s, k) {
        Some(i) => i,
        None => s.len() as int,
    };
    assert(t[p] == snapshot);
    assert forall|j: int| 0 <= j < t.len() && j != p implies #[trigger] t[j] == s[j] by {}
    assert forall|j: int| 0 <= j < t.len() && j != p implies (#[trigger] t[j]).provider != k by {
        if position_of(s, k) is Some {
            assert(s[p].provider == k);
        }
    }
    assert forall|i: int, j: int|
        0 <= i < t.len() && 0 <= j < t.len() && i != j implies (#[trigger] t[i]).provider
            != (#[trigger] t[j]).provider by {
        if i != p && j != p {
            assert(t[i] == s[i] && t[j] == s[j]);
        }
    }
    lemma_healthy_kinds(t, k);
    if snapshot.health == ProviderHealth::Healthy {
        assert(t[p].provider == k && t[p].health == ProviderHealth::Healthy);
    }
}

// ---------------------------------------------------------------------------------------
// Routing
// ---------------------------------------------------------------------------------------

/// Whether the snapshots let provider `k` be tried: not when its snapshot says it is
/// unavailable or its authentication failed.
pub open spec fn passes_health(s: Seq<ProviderHealthSnapshot>, k: ProviderKind) -> bool {
    match lookup(s, k) {
        Some(snap) => !(snap.health is Unavailable) && !(snap.health is AuthenticationFailed),
        None => true,
    }
}

/// Whether provider kind `k` can take `task`: the built-in provider that stands for it supports
/// the task and `k` passes the health check.
pub open spec fn admits(s: Seq<ProviderHealthSnapshot>, k: ProviderKind, task: TaskKind) -> bool {
    supports_spec(resolve_spec(Some(k)), task) && passes_health(s, k)
}

/// The order in which provider kinds are tried.
pub open spec fn search_order_spec() -> Seq<ProviderKind> {
    seq![
        ProviderKind::Local,
        ProviderKind::HuggingFace,
        ProviderKind::OpenRouter,
        ProviderKind::ComfyUi,
        ProviderKind::Groq,
        ProviderKind::Cerebras,
        ProviderKind::Together,
        ProviderKind::Fireworks,
        ProviderKind::DeepInfra,
        ProviderKind::Fal,
        ProviderKind::Replicate,
        ProviderKind::Custom,
    ]
}

/// The built-in providers (by kind) that stand for the kinds of `kinds` that are admitted for
/// `task`, leaving out the kind `skip`, in the order of `kinds`.
pub open spec fn admitted(
    s: Seq<ProviderHealthSnapshot>,
    task: TaskKind,
    kinds: Seq<ProviderKind>,
    skip: Option<ProviderKind>,
) -> Seq<ProviderKind>
    decreases kinds.len(),
{
    if kinds.len() == 0 {
        Seq::empty()
    } else {
        let rest = admitted(s, task, kinds.drop_last(), skip);
        if skip != Some(kinds.last()) && admits(s, kinds.last(), task) {
            rest.push(resolve_spec(Some(kinds.last())))
        } else {
            rest
        }
    }
}

/// The candidate providers for a task: the preferred kind alone when it is admitted, else
/// every other admitted kind in the search order.
pub open spec fn candidate_kinds(
    s: Seq<ProviderHealthSnapshot>,
    task: TaskKind,
    preferred: Option<ProviderKind>,
) -> Seq<ProviderKind> {
    match preferred {
        Some(p) => if admits(s, p, task) {
            seq![resolve_spec(Some(p))]
        } else {
            admitted(s, task, search_order_spec(), Some(p))
        },
        None => admitted(s, task, search_order_spec(), None),
    }
}

/// What a provider's health adds to its score.
pub open spec fn health_points(h: ProviderHealth) -> int {
    match h {
        ProviderHealth::Healthy => 20,
        ProviderHealth::Degraded => 5,
        ProviderHealth::RateLimited => -20,
        _ => -10,
    }
}

/// What a provider's remaining quota adds to its score.
pub open spec fn quota_points(q: Option<u64>) -> int {
    match q {
        Some(q) => if q == 0 {
            -30
        } else if q < 100 {
            -10
        } else {
            0
        },
        None => 0,
    }
}

/// What a p95 latency adds under the `Fastest` policy: `500 - latency`, kept within ±20.
pub open spec fn latency_points(latency: u64) -> int {
    if latency <= 480 {
        20
    } else if latency >= 520 {
        -20
    } else {
        500 - latency
    }
}

/// What the routing policy adds to the score of provider kind `k`.
pub open spec fn policy_points(s: Seq<ProviderHealthSnapshot>, k: ProviderKind, r: RouteRequest) -> int {
    match r.policy {
        PolicyMode::LocalFirst => if k == ProviderKind::Local {
            30
        } else {
            -20
        },
        PolicyMode::Cheapest => if k == ProviderKind::Local {
            25
        } else if k == ProviderKind::HuggingFace {
            10
        } else {
            0
        },
        PolicyMode::Fastest => match lookup(s, k) {
            Some(snap) => match snap.p95_latency_ms {
                Some(l) => latency_points(l),
                None => 0,
            },
            None => 0,
        },
        PolicyMode::QualityFirst => if k == ProviderKind::ComfyUi || k == ProviderKind::HuggingFace {
            15
        } else {
            0
        },
        PolicyMode::Balanced => 5,
        PolicyMode::UserSelected => if k == (match r.preferred_provider {
            Some(p) => p,
            None => ProviderKind::Local,
        }) {
            40
        } else {
            0
        },
        PolicyMode::FreeFirst => if k == ProviderKind::Local || k == ProviderKind::HuggingFace {
            20
        } else {
            0
        },
    }
}

/// What a cost ceiling below one cent takes from a provider that is not local.
pub open spec fn budget_points(k: ProviderKind, r: RouteRequest) -> int {
    match r.cost_ceiling_micro_usd {
        Some(c) => if c < 10_000 && k != ProviderKind::Local {
            -25
        } else {
            0
        },
        None => 0,
    }
}

/// The routing score of provider kind `k` for request `r`: 50, plus what its health, quota,
/// the policy and the budget add.
pub open spec fn score_spec(s: Seq<ProviderHealthSnapshot>, k: ProviderKind, r: RouteRequest) -> int {
    50 + match lookup(s, k) {
        Some(snap) => health_points(snap.health) + quota_points(snap.quota_remaining),
        None => 0,
    } + policy_points(s, k, r) + budget_points(k, r)
}

/// Under the `Fastest` policy the latency bonus is `500 - p95`, held within 20 either way: a
/// p95 of 480 ms or less earns 20, one of 520 ms or more loses 20.
pub proof fn law_latency_points_clamped(latency: u64)
    ensures
        latency <= 480 ==> latency_points(latency) == 20,
        latency >= 520 ==> latency_points(latency) == -20,
        -20 <= latency_points(latency) <= 20,
        -20 < 500 - latency < 20 ==> latency_points(latency) == 500 - latency,
{
}

/// A faster provider never earns a smaller latency bonus than a slower one.
pub proof fn law_latency_points_never_rise(faster: u64, slower: u64)
    requires
        faster <= slower,
    ensures
        latency_points(faster) >= latency_points(slower),
{
}

/// Under the `Fastest` policy, of two states of the same provider that differ at most in its
/// measured latency, the faster one scores at least as high.
pub proof fn law_fastest_prefers_lower_latency(
    s1: Seq<ProviderHealthSnapshot>,
    s2: Seq<ProviderHealthSnapshot>,
    k: ProviderKind,
    r: RouteRequest,
    faster: u64,
    slower: u64,
)
    requires
        r.policy is Fastest,
        faster <= slower,
        lookup(s1, k) matches Some(a) && a.p95_latency_ms == Some(faster),
        lookup(s2, k) matches Some(b) && b.p95_latency_ms == Some(slower),
        lookup(s1, k)->Some_0.health == lookup(s2, k)->Some_0.health,
        lookup(s1, k)->Some_0.quota_remaining == lookup(s2, k)->Some_0.quota_remaining,
    ensures
        score_spec(s1, k, r) >= score_spec(s2, k, r),
        faster <= 480 && slower >= 520 ==> score_spec(s1, k, r) == score_spec(s2, k, r) + 40,
{
    law_latency_points_never_rise(faster, slower);
}

/// Every routing score lies between -45 and 110.
pub proof fn law_score_range(s: Seq<ProviderHealthSnapshot>, k: ProviderKind, r: RouteRequest)
    ensures
        -45 <= score_spec(s, k, r) <= 110,
{
}

/// The lowest score is reached: a provider other than the local one, rate limited with no quota
/// left, under the `LocalFirst` policy with a cost ceiling below one cent, scores -45.
pub proof fn law_score_lowest(s: Seq<ProviderHealthSnapshot>, k: ProviderKind, r: RouteRequest)
    requires
        k != ProviderKind::Local,
        lookup(s, k) matches Some(snap) && snap.health is RateLimited
            && snap.quota_remaining == Some(0u64),
        r.policy is LocalFirst,
        r.cost_ceiling_micro_usd matches Some(c) && c < 10_000,
    ensures
        score_spec(s, k, r) == -45,
{
}

/// The highest score is reached: a healthy provider with no low quota, chosen by the user under
/// the `UserSelected` policy and not held back by a cost ceiling, scores 110.
pub proof fn law_score_highest(s: Seq<ProviderHealthSnapshot>, k: ProviderKind, r: RouteRequest)
    requires
        lookup(s, k) matches Some(snap) && snap.health is Healthy
            && (snap.quota_remaining matches Some(q) ==> q >= 100),
        r.policy is UserSelected,
        r.preferred_provider == Some(k),
        r.cost_ceiling_micro_usd is None,
    ensures
        score_spec(s, k, r) == 110,
{
}

/// A score depends on the request only through its policy, its preferred provider and its cost
/// ceiling: two requests that agree on these give every provider the same score.
pub proof fn law_score_request_fields(
    s: Seq<ProviderHealthSnapshot>,
    k: ProviderKind,
    r1: RouteRequest,
    r2: RouteRequest,
)
    requires
        r1.policy == r2.policy,
        r1.preferred_provider == r2.preferred_provider,
        r1.cost_ceiling_micro_usd == r2.cost_ceiling_micro_usd,
    ensures
        score_spec(s, k, r1) == score_spec(s, k, r2),
{
}

/// The kinds of `kinds` whose score is positive, in order.
pub open spec fn positive_kinds(
    s: Seq<ProviderHealthSnapshot>,
    r: RouteRequest,
    kinds: Seq<ProviderKind>,
) -> Seq<ProviderKind>
    decreases kinds.len(),
{
    if kinds.len() == 0 {
        Seq::empty()
    } else if score_spec(s, kinds.last(), r) > 0 {
        positive_kinds(s, r, kinds.drop_last()).push(kinds.last())
    } else {
        positive_kinds(s, r, kinds.drop_last())
    }
}

/// The last of `kinds` with the highest score.
pub open spec fn best_kind(s: Seq<ProviderHealthSnapshot>, r: RouteRequest, kinds: Seq<ProviderKind>) -> ProviderKind
    decreases kinds.len(),
{
    if kinds.len() <= 1 {
        kinds[0]
    } else {
        let b = best_kind(s, r, kinds.drop_last());
        if score_spec(s, kinds.last(), r) >= score_spec(s, b, r) {
            kinds.last()
        } else {
            b
        }
    }
}

/// A routing score as a confidence out of 100.
pub open spec fn confidence_of(score: int) -> int {
    if score < 0 {
        0
    } else if score > 100 {
        100
    } else {
        score
    }
}

pub proof fn lemma_admitted_supports(
    s: Seq<ProviderHealthSnapshot>,
    task: TaskKind,
    kinds: Seq<ProviderKind>,
    skip: Option<ProviderKind>,
)
    ensures
        forall|i: int| 0 <= i < admitted(s, task, kinds, skip).len()
            ==> supports_spec(#[trigger] admitted(s, task, kinds, skip)[i], task),
    decreases kinds.len(),
{
    if kinds.len() > 0 {
        lemma_admitted_supports(s, task, kinds.drop_last(), skip);
        let a = admitted(s, task, kinds, skip);
        let rest = admitted(s, task, kinds.drop_last(), skip);
        assert forall|i: int| 0 <= i < a.len() implies supports_spec(#[trigger] a[i], task) by {
            if i < rest.len() {
                assert(a[i] == rest[i]);
            }
        }
    }
}

/// Every candidate stands for an admitted kind other than the skipped one.
pub open spec fn stands_for_admitted(
    s: Seq<ProviderHealthSnapshot>,
    task: TaskKind,
    provider: ProviderKind,
    skip: Option<ProviderKind>,
) -> bool {
    exists|k: ProviderKind| #[trigger] admits(s, k, task) && skip != Some(k) && resolve_spec(Some(k)) == provider
}

pub proof fn lemma_admitted_sources(
    s: Seq<ProviderHealthSnapshot>,
    task: TaskKind,
    kinds: Seq<ProviderKind>,
    skip: Option<ProviderKind>,
)
    ensures
        forall|i: int| 0 <= i < admitted(s, task, kinds, skip).len()
            ==> stands_for_admitted(s, task, #[trigger] admitted(s, task, kinds, skip)[i], skip),
    decreases kinds.len(),
{
    if kinds.len() > 0 {
        lemma_admitted_sources(s, task, kinds.drop_last(), skip);
        let a = admitted(s, task, kinds, skip);
        let rest = admitted(s, task, kinds.drop_last(), skip);
        assert forall|i: int| 0 <= i < a.len() implies stands_for_admitted(s, task, #[trigger] a[i], skip) by {
            if i < rest.len() {
                assert(a[i] == rest[i]);
            } else {
                let k = kinds.last();
                assert(admits(s, k, task));
            }
        }
    }
}

pub proof fn lemma_admitted_empty(
    s: Seq<ProviderHealthSnapshot>,
    task: TaskKind,
    kinds: Seq<ProviderKind>,
    skip: Option<ProviderKind>,
)
    requires
        forall|k: ProviderKind| !passes_health(s, k),
    ensures
        admitted(s, task, kinds, skip).len() == 0,
    decreases kinds.len(),
{
    if kinds.len() > 0 {
        lemma_admitted_empty(s, task, kinds.drop_last(), skip);
        assert(!passes_health(s, kinds.last()));
    }
}

pub proof fn lemma_positive_kinds(s: Seq<ProviderHealthSnapshot>, r: RouteRequest, kinds: Seq<ProviderKind>)
    ensures
        forall|i: int| 0 <= i < positive_kinds(s, r, kinds).len() ==> {
            &&& score_spec(s, #[trigger] positive_kinds(s, r, kinds)[i], r) > 0
            &&& kinds.contains(positive_kinds(s, r, kinds)[i])
        },
    decreases kinds.len(),
{
    if kinds.len() > 0 {
        lemma_positive_kinds(s, r, kinds.drop_last());
        let p = positive_kinds(s, r, kinds);
        let q = positive_kinds(s, r, kinds.drop_last());
        assert forall|i: int| 0 <= i < p.len() implies {
            &&& score_spec(s, #[trigger] p[i], r) > 0
            &&& kinds.contains(p[i])
        } by {
            if i < q.len() {
                assert(p[i] == q[i]);
                let j = choose|j: int| 0 <= j < kinds.drop_last().len() && kinds.drop_last()[j] == q[i];
                assert(kinds[j] == q[i]);
            } else {
                assert(p[i] == kinds[kinds.len() - 1]);
            }
        }
    }
}

pub proof fn lemma_best_kind_member(s: Seq<ProviderHealthSnapshot>, r: RouteRequest, kinds: Seq<ProviderKind>)
    requires
        kinds.len() > 0,
    ensures
        kinds.contains(best_kind(s, r, kinds)),
    decreases kinds.len(),
{
    if kinds.len() > 1 {
        lemma_best_kind_member(s, r, kinds.drop_last());
        let b = best_kind(s, r, kinds.drop_last());
        let j = choose|j: int| 0 <= j < kinds.drop_last().len() && kinds.drop_last()[j] == b;
        assert(kinds[j] == b);
        assert(kinds[kinds.len() - 1] == kinds.last());
    } else {
        assert(kinds[0] == best_kind(s, r, kinds));
    }
}

/// The kinds in the order in which they are tried.
fn search_order() -> (v: Vec<ProviderKind>)
    ensures
        v@ == search_order_spec(),
{
    let v = vec![
        ProviderKind::Local,
        ProviderKind::HuggingFace,
        ProviderKind::OpenRouter,
        ProviderKind::ComfyUi,
        ProviderKind::Groq,
        ProviderKind::Cerebras,
        ProviderKind::Together,
        ProviderKind::Fireworks,
        ProviderKind::DeepInfra,
        ProviderKind::Fal,
        ProviderKind::Replicate,
        ProviderKind::Custom,
    ];
    assert(v@ =~= search_order_spec());
    v
}

/// Routes requests to the built-in providers, taking their health into account.
pub struct AiRouter {
    registry: ProviderRegistry,
    health: ProviderHealthRegistry,
}

impl AiRouter {
    /// The health snapshots that the router consults.
    pub closed spec fn health_spec(&self) -> Seq<ProviderHealthSnapshot> {
        self.health@
    }

    /// A router over the built-in providers with no health snapshots.
    pub fn new() -> (r: Self)
        ensures
            r.health_spec() == Seq::<ProviderHealthSnapshot>::empty(),
    {
        AiRouter { registry: ProviderRegistry::default(), health: ProviderHealthRegistry::new() }
    }

    /// The providers that the router resolves kinds to.
    pub closed spec fn registry_spec(&self) -> ProviderRegistry {
        self.registry
    }

    /// A router over `registry` that consults `health`.
    pub fn with_health(registry: ProviderRegistry, health: ProviderHealthRegistry) -> (r: Self)
        ensures
            r.registry_spec() == registry,
            r.health_spec() == health@,
    {
        AiRouter { registry, health }
    }

    /// The providers.
    pub fn registry(&self) -> (r: &ProviderRegistry)
        ensures
            *r == self.registry_spec(),
    {
        &self.registry
    }

    /// The health snapshots.
    pub fn health(&self) -> (h: &ProviderHealthRegistry)
        ensures
            h@ == self.health_spec(),
    {
        &self.health
    }

    /// The built-in provider that serves `preferred` (`Local` when there is no preference).
    pub fn resolve(&self, preferred: Option<ProviderKind>) -> (p: AnyProvider)
        ensures
            p.kind_spec() == resolve_spec(preferred),
    {
        self.registry.resolve(preferred)
    }

    /// The provider that stands for `kind` when it can take `task`.
    fn try_resolve_with_health(&self, kind: ProviderKind, task: TaskKind) -> (r: Option<AnyProvider>)
        ensures
            match r {
                Some(p) => admits(self.health@, kind, task) && p.kind_spec() == resolve_spec(Some(kind)),
                None => !admits(self.health@, kind, task),
            },
    {
        let provider = self.registry.resolve(Some(kind));
        if !provider.supports(task) {
            return None;
        }
        if let Some(snap) = self.health.get_snapshot(kind) {
            if snap.health == ProviderHealth::Unavailable
                || snap.health == ProviderHealth::AuthenticationFailed {
                return None;
            }
        }
        Some(provider)
    }

    /// The candidate providers for `task`, as `candidate_kinds` orders them.
    fn find_candidates(&self, task: TaskKind, preferred: Option<ProviderKind>) -> (v: Vec<AnyProvider>)
        ensures
            v@.len() == candidate_kinds(self.health@, task, preferred).len(),
            forall|i: int| 0 <= i < v@.len()
                ==> (#[trigger] v@[i]).kind_spec() == candidate_kinds(self.health@, task, preferred)[i],
    {
        let mut candidates: Vec<AnyProvider> = Vec::new();
        if let Some(p) = preferred {
            if let Some(provider) = self.try_resolve_with_health(p, task) {
                candidates.push(provider);
                proof {
                    assert(candidate_kinds(self.health@, task, preferred) =~= seq![resolve_spec(Some(p))]);
                }
                return candidates;
            }
        }
        let order = search_order();
        let n = order.len();
        let mut i: usize = 0;
        while i < n
            invariant
                order@ == search_order_spec(),
                n == order@.len(),
                0 <= i <= n,
                candidates@.len() == admitted(self.health@, task, order@.take(i as int), preferred).len(),
                forall|j: int| 0 <= j < candidates@.len()
                    ==> (#[trigger] candidates@[j]).kind_spec()
                        == admitted(self.health@, task, order@.take(i as int), preferred)[j],
            decreases n - i,
        {
            let kind = order[i];
            assert(order@.take(i as int + 1).drop_last() =~= order@.take(i as int));
            assert(order@.take(i as int + 1).last() == kind);
            let skip = match preferred {
                Some(p) => p == kind,
                None => false,
            };
            if !skip {
                if let Some(provider) = self.try_resolve_with_health(kind, task) {
                    candidates.push(provider);
                }
            }
            i = i + 1;
        }
        assert(order@.take(n as int) =~= order@);
        candidates
    }

    /// The routing score of `provider` for `request`: 50, plus what the provider's health and
    /// quota, the policy and the budget add; always between -45 and 110.
    pub fn score_provider(&self, provider: &AnyProvider, request: &RouteRequest) -> (score: i64)
        ensures
            score == score_spec(self.health_spec(), provider.kind_spec(), *request),
            -45 <= score <= 110,
    {
        let mut score: i64 = 50;
        let kind = provider.provider_kind();
        let snapshot = self.health.get_snapshot(kind);
        if let Some(snap) = snapshot {
            match snap.health {
                ProviderHealth::Healthy => score = score + 20,
                ProviderHealth::Degraded => score = score + 5,
                ProviderHealth::RateLimited => score = score - 20,
                _ => score = score - 10,
            }
            if let Some(quota) = snap.quota_remaining {
                if quota == 0 {
                    score = score - 30;
                } else if quota < 100 {
                    score = score - 10;
                }
            }
        }
        match request.policy {
            PolicyMode::LocalFirst => {
                if kind == ProviderKind::Local {
                    score = score + 30;
                } else {
                    score = score - 20;
                }
            },
            PolicyMode::Cheapest => {
                if kind == ProviderKind::Local {
                    score = score + 25;
                }
                if kind == ProviderKind::HuggingFace {
                    score = score + 10;
                }
            },
            PolicyMode::Fastest => {
                if let Some(snap) = self.health.get_snapshot(kind) {
                    if let Some(latency) = snap.p95_latency_ms {
                        if latency <= 480 {
                            score = score + 20;
                        } else if latency >= 520 {
                            score = score - 20;
                        } else {
                            score = score + (500 - latency as i64);
                        }
                    }
                }
            },
            PolicyMode::QualityFirst => {
                if kind == ProviderKind::ComfyUi || kind == ProviderKind::HuggingFace {
                    score = score + 15;
                }
            },
            PolicyMode::Balanced => {
                score = score + 5;
            },
            PolicyMode::UserSelected => {
                let selected = match request.preferred_provider {
                    Some(p) => p,
                    None => ProviderKind::Local,
                };
                if kind == selected {
                    score = score + 40;
                }
            },
            PolicyMode::FreeFirst => {
                if kind == ProviderKind::Local || kind == ProviderKind::HuggingFace {
                    score = score + 20;
                }
            },
        }
        if let Some(ceiling) = request.cost_ceiling_micro_usd {
            if ceiling < 10_000 {
                if kind != ProviderKind::Local {
                    score = score - 25;
                }
            }
        }
        score
    }

    /// Routes `request` to the best candidate provider.
    ///
    /// The candidates are those of `candidate_kinds`; those with a positive score compete, and
    /// the last one with the highest score wins. The error `no_provider` comes when there is
    /// no candidate, or when no candidate has a positive score.
    pub fn route(&self, request: &RouteRequest) -> (r: Result<RouteResult, AppError>)
        ensures
            ({
                let s = self.health_spec();
                let cands = candidate_kinds(s, request.task, request.preferred_provider);
                let positives = positive_kinds(s, *request, cands);
                match r {
                    Ok(res) => {
                        &&& cands.len() > 0
                        &&& positives.len() > 0
                        &&& res.provider == best_kind(s, *request, positives)
                        &&& res.confidence == confidence_of(score_spec(s, res.provider, *request))
                        &&& res.provider_kind_str@ == kind_name_spec(res.provider)
                        &&& res.task == request.task
                        &&& res.policy == request.policy
                    },
                    Err(e) => {
                        &&& cands.len() == 0 || positives.len() == 0
                        &&& e.code@ == "no_provider"@
                        &&& e.message@ == if cands.len() == 0 {
                            "no provider supports task: "@ + task_name_spec(request.task)
                        } else {
                            "no provider passes constraints for task: "@ + task_name_spec(request.task)
                        }
                        &&& e.source is None
                    },
                }
            }),
            // The chosen provider supports the task, with a confidence in (0, 100].
            r matches Ok(res) ==> supports_spec(res.provider, request.task) && 0 < res.confidence <= 100,
            // A preferred provider that can take the task is the one chosen.
            r matches Ok(res) ==> (request.preferred_provider matches Some(p) ==> (admits(
                self.health_spec(),
                p,
                request.task,
            ) ==> res.provider == resolve_spec(Some(p)))),
            // The chosen provider stands for a kind that takes the task and passes the health
            // check; when the preferred kind does not, it stands for another kind.
            r matches Ok(res) ==> stands_for_admitted(
                self.health_spec(),
                request.task,
                res.provider,
                match request.preferred_provider {
                    Some(p) => if admits(self.health_spec(), p, request.task) {
                        None
                    } else {
                        Some(p)
                    },
                    None => None,
                },
            ),
            // When every provider fails the health check, routing fails.
            (forall|k: ProviderKind| !passes_health(self.health_spec(), k)) ==> r is Err,
    {
        let ghost s = self.health@;
        let ghost cands = candidate_kinds(s, request.task, request.preferred_provider);
        let candidates = self.find_candidates(request.task, request.preferred_provider);
        if candidates.len() == 0 {
            let mut message = "no provider supports task: ".to_string();
            message.append(task_name(request.task));
            return Err(AppError::new("no_provider", message.as_str()));
        }
        let ghost cands_seq = Seq::new(candidates@.len(), |j: int| candidates@[j].kind_spec());
        assert(cands_seq =~= cands);
        let n = candidates.len();
        let mut best: Option<(AnyProvider, i64)> = None;
        let mut i: usize = 0;
        while i < n
            invariant
                n == candidates@.len(),
                0 <= i <= n,
                cands == candidate_kinds(s, request.task, request.preferred_provider),
                s == self.health@,
                cands.len() == n,
                forall|j: int| 0 <= j < n ==> (#[trigger] candidates@[j]).kind_spec() == cands[j],
                match best {
                    None => positive_kinds(s, *request, cands.take(i as int)).len() == 0,
                    Some((p, sc)) => {
                        &&& positive_kinds(s, *request, cands.take(i as int)).len() > 0
                        &&& p.kind_spec() == best_kind(s, *request, positive_kinds(s, *request, cands.take(i as int)))
                        &&& sc == score_spec(s, p.kind_spec(), *request)
                    },
                },
            decreases n - i,
        {
            let provider = candidates[i];
            let score = self.score_provider(&provider, request);
            let ghost prev = positive_kinds(s, *request, cands.take(i as int));
            assert(cands.take(i as int + 1).drop_last() =~= cands.take(i as int));
            assert(cands.take(i as int + 1).last() == provider.kind_spec());
            if score > 0 {
                let ghost next = prev.push(provider.kind_spec());
                assert(next.drop_last() =~= prev);
                match best {
                    None => {
                        best = Some((provider, score));
                    },
                    Some((_, best_score)) => {
                        if score >= best_score {
                            best = Some((provider, score));
                        }
                    },
                }
            }
            i = i + 1;
        }
        assert(cands.take(n as int) =~= cands);
        match best {
            None => {
                let mut message = "no provider passes constraints for task: ".to_string();
                message.append(task_name(request.task));
                Err(AppError::new("no_provider", message.as_str()))
            },
            Some((provider, score)) => {
                let kind = provider.provider_kind();
                let confidence: u32 = if score > 100 {
                    100
                } else {
                    score as u32
                };
                proof {
                    let positives = positive_kinds(s, *request, cands);
                    lemma_best_kind_member(s, *request, positives);
                    lemma_positive_kinds(s, *request, cands);
                    let j = choose|j: int| 0 <= j < positives.len() && positives[j] == kind;
                    assert(score_spec(s, positives[j], *request) > 0);
                    assert(cands.contains(kind));
                    let c = choose|c: int| 0 <= c < cands.len() && cands[c] == kind;
                    match request.preferred_provider {
                        Some(p) => {
                            if admits(s, p, request.task) {
                                assert(cands[c] == resolve_spec(Some(p)));
                                assert(admits(s, p, request.task) && None::<ProviderKind> != Some(p));
                            } else {
                                lemma_admitted_supports(s, request.task, search_order_spec(), Some(p));
                                lemma_admitted_sources(s, request.task, search_order_spec(), Some(p));
                            }
                        },
                        None => {
                            lemma_admitted_supports(s, request.task, search_order_spec(), None);
                            lemma_admitted_sources(s, request.task, search_order_spec(), None);
                        },
                    }
                    assert(supports_spec(cands[c], request.task));
                    if forall|k: ProviderKind| !passes_health(s, k) {
                        match request.preferred_provider {
                            Some(p) => {
                                lemma_admitted_empty(s, request.task, search_order_spec(), Some(p));
                            },
                            None => {
                                lemma_admitted_empty(s, request.task, search_order_spec(), None);
                            },
                        }
                    }
                }
                Ok(RouteResult {
                    provider: kind,
                    provider_kind_str: kind_name(kind).to_string(),
                    task: request.task,
                    confidence,
                    policy: request.policy,
                })
            },
        }
    }
}

} // verus!
