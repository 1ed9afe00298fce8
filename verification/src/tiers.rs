//! Membership, preference and selection over tier, surface and mode lists.
use crate::kinds::{
    ApiSurface, HardwareExecutionModeV1, IntegrityTier, MinerTrustTierV1, Modality, PrivacyTier,
};
use vstd::prelude::*;

verus! {

pub fn has_integrity(v: &Vec<IntegrityTier>, t: IntegrityTier) -> (r: bool)
    ensures
        r == v@.contains(t),
{
    let mut i: usize = 0;
    while i < v.len()
        invariant
            i <= v.len(),
            forall|j: int| 0 <= j < i ==> v@[j] != t,
        decreases v.len() - i,
    {
        if v[i] == t {
            return true;
        }
        i = i + 1;
    }
    false
}

pub fn has_privacy(v: &Vec<PrivacyTier>, t: PrivacyTier) -> (r: bool)
    ensures
        r == v@.contains(t),
{
    let mut i: usize = 0;
    while i < v.len()
        invariant
            i <= v.len(),
            forall|j: int| 0 <= j < i ==> v@[j] != t,
        decreases v.len() - i,
    {
        if v[i] == t {
            return true;
        }
        i = i + 1;
    }
    false
}

pub fn has_modality(v: &Vec<Modality>, t: Modality) -> (r: bool)
    ensures
        r == v@.contains(t),
{
    let mut i: usize = 0;
    while i < v.len()
        invariant
            i <= v.len(),
            forall|j: int| 0 <= j < i ==> v@[j] != t,
        decreases v.len() - i,
    {
        if v[i] == t {
            return true;
        }
        i = i + 1;
    }
    false
}

pub fn has_api(v: &Vec<ApiSurface>, t: ApiSurface) -> (r: bool)
    ensures
        r == v@.contains(t),
{
    let mut i: usize = 0;
    while i < v.len()
        invariant
            i <= v.len(),
            forall|j: int| 0 <= j < i ==> v@[j] != t,
        decreases v.len() - i,
    {
        if v[i] == t {
            return true;
        }
        i = i + 1;
    }
    false
}

pub fn has_mode(v: &Vec<HardwareExecutionModeV1>, t: HardwareExecutionModeV1) -> (r: bool)
    ensures
        r == v@.contains(t),
{
    let mut i: usize = 0;
    while i < v.len()
        invariant
            i <= v.len(),
            forall|j: int| 0 <= j < i ==> v@[j] != t,
        decreases v.len() - i,
    {
        if v[i] == t {
            return true;
        }
        i = i + 1;
    }
    false
}

// ---------------------------------------------------------------------------
// Integrity tiers
// ---------------------------------------------------------------------------

/// Integrity tiers from strongest to weakest, the order a runner's tiers are
/// preferred in.
pub open spec fn integrity_order() -> Seq<IntegrityTier> {
    seq![
        IntegrityTier::ZkProofWhenSupported,
        IntegrityTier::TeeAttested,
        IntegrityTier::DeterministicReplay,
        IntegrityTier::RedundantExecution,
        IntegrityTier::ValidatorSpotCheck,
        IntegrityTier::ReceiptOnly,
    ]
}

pub fn preferred_runner_offer_integrity_order() -> (r: Vec<IntegrityTier>)
    ensures
        r@ == integrity_order(),
{
    let r = vec![
        IntegrityTier::ZkProofWhenSupported,
        IntegrityTier::TeeAttested,
        IntegrityTier::DeterministicReplay,
        IntegrityTier::RedundantExecution,
        IntegrityTier::ValidatorSpotCheck,
        IntegrityTier::ReceiptOnly,
    ];
    assert(r@ =~= integrity_order());
    r
}

/// An offered integrity tier meets a requirement when it is that tier, and
/// any tier meets a receipt-only requirement.
pub open spec fn integrity_satisfies(available: IntegrityTier, required: IntegrityTier) -> bool {
    available == required || required == IntegrityTier::ReceiptOnly
}

pub fn runner_offer_integrity_tier_satisfies(
    available: IntegrityTier,
    required: IntegrityTier,
) -> (r: bool)
    ensures
        r == integrity_satisfies(available, required),
{
    available == required || required == IntegrityTier::ReceiptOnly
}

/// The first of the first `n` tiers of the preference order that is offered
/// and, when a requirement is given, meets it.
pub open spec fn first_integrity(
    available: Seq<IntegrityTier>,
    required: Option<IntegrityTier>,
    n: nat,
) -> Option<IntegrityTier>
    decreases n,
{
    if n == 0 {
        None
    } else {
        match first_integrity(available, required, (n - 1) as nat) {
            Some(t) => Some(t),
            None => {
                let t = integrity_order()[n - 1];
                if available.contains(t) && (match required {
                    Some(q) => integrity_satisfies(t, q),
                    None => true,
                }) {
                    Some(t)
                } else {
                    None
                }
            },
        }
    }
}

pub open spec fn select_integrity(
    available: Seq<IntegrityTier>,
    required: Option<IntegrityTier>,
) -> Option<IntegrityTier> {
    first_integrity(available, required, 6)
}

proof fn lemma_first_integrity(
    available: Seq<IntegrityTier>,
    required: Option<IntegrityTier>,
    n: nat,
)
    requires
        n <= 6,
    ensures
        first_integrity(available, required, n) matches Some(t) ==> available.contains(t) && (
        match required {
            Some(q) => integrity_satisfies(t, q),
            None => true,
        }),
        first_integrity(available, required, n) is None ==> forall|k: int|
            0 <= k < n ==> !(available.contains(integrity_order()[k]) && (match required {
                Some(q) => integrity_satisfies(integrity_order()[k], q),
                None => true,
            })),
    decreases n,
{
    if n > 0 {
        lemma_first_integrity(available, required, (n - 1) as nat);
    }
}

proof fn lemma_first_integrity_stable(
    available: Seq<IntegrityTier>,
    required: Option<IntegrityTier>,
    m: nat,
    n: nat,
)
    requires
        m <= n,
        first_integrity(available, required, m) is Some,
    ensures
        first_integrity(available, required, n) == first_integrity(available, required, m),
    decreases n - m,
{
    if m < n {
        lemma_first_integrity_stable(available, required, m, (n - 1) as nat);
    }
}

/// Selection law: a selected tier is offered and meets the requirement; no
/// tier is selected exactly when no offered tier meets it.
pub proof fn lemma_select_integrity_sound(
    available: Seq<IntegrityTier>,
    required: Option<IntegrityTier>,
)
    ensures
        select_integrity(available, required) matches Some(t) ==> available.contains(t) && (
        match required {
            Some(q) => integrity_satisfies(t, q),
            None => true,
        }),
        select_integrity(available, required) is None <==> forall|t: IntegrityTier|
            available.contains(t) ==> !(match required {
                Some(q) => integrity_satisfies(t, q),
                None => true,
            }),
{
    lemma_first_integrity(available, required, 6);
    if select_integrity(available, required) is None {
        assert forall|t: IntegrityTier| available.contains(t) implies !(match required {
            Some(q) => integrity_satisfies(t, q),
            None => true,
        }) by {
            let k: int = match t {
                IntegrityTier::ZkProofWhenSupported => 0,
                IntegrityTier::TeeAttested => 1,
                IntegrityTier::DeterministicReplay => 2,
                IntegrityTier::RedundantExecution => 3,
                IntegrityTier::ValidatorSpotCheck => 4,
                IntegrityTier::ReceiptOnly => 5,
            };
            assert(integrity_order()[k] == t);
        }
    }
}

fn select_integrity_tier(available: &Vec<IntegrityTier>, required: Option<IntegrityTier>) -> (r:
    Option<IntegrityTier>)
    ensures
        r == select_integrity(available@, required),
{
    let order = preferred_runner_offer_integrity_order();
    let mut i: usize = 0;
    while i < order.len()
        invariant
            order@ == integrity_order(),
            i <= 6,
            first_integrity(available@, required, i as nat) is None,
        decreases 6 - i,
    {
        let t = order[i];
        let meets = match required {
            Some(q) => runner_offer_integrity_tier_satisfies(t, q),
            None => true,
        };
        if has_integrity(available, t) && meets {
            assert(first_integrity(available@, required, (i + 1) as nat) == Some(t));
            proof {
                lemma_first_integrity_stable(available@, required, (i + 1) as nat, 6);
            }
            return Some(t);
        }
        i = i + 1;
    }
    None
}

/// The strongest offered integrity tier that meets `required`.
pub fn select_runner_offer_integrity_tier(
    available: &Vec<IntegrityTier>,
    required: IntegrityTier,
) -> (r: Option<IntegrityTier>)
    ensures
        r == select_integrity(available@, Some(required)),
{
    select_integrity_tier(available, Some(required))
}

/// The strongest offered integrity tier.
pub fn preferred_runner_offer_integrity_tier(available: &Vec<IntegrityTier>) -> (r: Option<
    IntegrityTier,
>)
    ensures
        r == select_integrity(available@, None),
{
    select_integrity_tier(available, None)
}

// ---------------------------------------------------------------------------
// Execution modes and trust tiers
// ---------------------------------------------------------------------------

/// A list without its later repetitions: each element's first occurrence, in order.
pub open spec fn dedup_modes(s: Seq<HardwareExecutionModeV1>) -> Seq<HardwareExecutionModeV1>
    decreases s.len(),
{
    if s.len() == 0 {
        seq![]
    } else {
        let d = dedup_modes(s.drop_last());
        if d.contains(s.last()) {
            d
        } else {
            d.push(s.last())
        }
    }
}

/// Deduplication law: the result holds each element of the input exactly once.
pub proof fn lemma_dedup_modes(s: Seq<HardwareExecutionModeV1>)
    ensures
        dedup_modes(s).no_duplicates(),
        forall|x: HardwareExecutionModeV1| dedup_modes(s).contains(x) <==> s.contains(x),
    decreases s.len(),
{
    if s.len() > 0 {
        let t = s.drop_last();
        lemma_dedup_modes(t);
        let d = dedup_modes(t);
        assert forall|x: HardwareExecutionModeV1| dedup_modes(s).contains(x) <==> s.contains(x) by {
            assert(d.contains(x) <==> t.contains(x));
            if t.contains(x) {
                let k = choose|k: int| 0 <= k < t.len() && t[k] == x;
                assert(s[k] == x);
            }
            if s.contains(x) {
                let k = choose|k: int| 0 <= k < s.len() && s[k] == x;
                if k < s.len() - 1 {
                    assert(t[k] == x);
                }
            }
            if !d.contains(s.last()) {
                assert(d.push(s.last())[d.len() as int] == s.last());
                if d.push(s.last()).contains(x) && x != s.last() {
                    let k = choose|k: int| 0 <= k < d.len() + 1 && d.push(s.last())[k] == x;
                    assert(d[k] == x);
                }
                if d.contains(x) {
                    let k = choose|k: int| 0 <= k < d.len() && d[k] == x;
                    assert(d.push(s.last())[k] == x);
                }
            }
        }
        if !d.contains(s.last()) {
            let e = d.push(s.last());
            assert forall|i: int, j: int| 0 <= i < e.len() && 0 <= j < e.len() && i != j implies e[i]
                != e[j] by {
                if i < d.len() && j < d.len() {
                    assert(e[i] == d[i] && e[j] == d[j]);
                } else if i < d.len() {
                    assert(e[i] == d[i]);
                } else if j < d.len() {
                    assert(e[j] == d[j]);
                }
            }
        }
    }
}

pub fn dedup_execution_modes(values: Vec<HardwareExecutionModeV1>) -> (r: Vec<
    HardwareExecutionModeV1,
>)
    ensures
        r@ == dedup_modes(values@),
{
    let mut deduped: Vec<HardwareExecutionModeV1> = Vec::new();
    let mut i: usize = 0;
    while i < values.len()
        invariant
            i <= values.len(),
            deduped@ == dedup_modes(values@.subrange(0, i as int)),
        decreases values.len() - i,
    {
        let v = values[i];
        assert(values@.subrange(0, i + 1).drop_last() =~= values@.subrange(0, i as int));
        if !has_mode(&deduped, v) {
            deduped.push(v);
        }
        i = i + 1;
    }
    assert(values@.subrange(0, values.len() as int) =~= values@);
    deduped
}

/// Execution modes a capability supports, before deduplication: package
/// inference always; embedding and batch inference for embedding runners;
/// batch inference, small fine-tunes and evaluation runs for their APIs.
pub open spec fn raw_execution_modes(
    modalities: Seq<Modality>,
    apis: Seq<ApiSurface>,
) -> Seq<HardwareExecutionModeV1> {
    let m = seq![HardwareExecutionModeV1::PackageInference];
    let m = if modalities.contains(Modality::Embedding) {
        m.push(HardwareExecutionModeV1::EmbeddingBatch).push(HardwareExecutionModeV1::BatchInference)
    } else {
        m
    };
    let m = if apis.contains(ApiSurface::Batch) {
        m.push(HardwareExecutionModeV1::BatchInference)
    } else {
        m
    };
    let m = if apis.contains(ApiSurface::FineTune) {
        m.push(HardwareExecutionModeV1::FineTuneSmall)
    } else {
        m
    };
    if apis.contains(ApiSurface::EvalRun) {
        m.push(HardwareExecutionModeV1::EvaluationRun)
    } else {
        m
    }
}

/// The execution modes of a capability with the given modalities and APIs.
pub fn execution_modes_from_capability(
    modalities: &Vec<Modality>,
    apis: &Vec<ApiSurface>,
) -> (r: Vec<HardwareExecutionModeV1>)
    ensures
        r@ == dedup_modes(raw_execution_modes(modalities@, apis@)),
{
    let mut modes = vec![HardwareExecutionModeV1::PackageInference];
    if has_modality(modalities, Modality::Embedding) {
        modes.push(HardwareExecutionModeV1::EmbeddingBatch);
        modes.push(HardwareExecutionModeV1::BatchInference);
    }
    if has_api(apis, ApiSurface::Batch) {
        modes.push(HardwareExecutionModeV1::BatchInference);
    }
    if has_api(apis, ApiSurface::FineTune) {
        modes.push(HardwareExecutionModeV1::FineTuneSmall);
    }
    if has_api(apis, ApiSurface::EvalRun) {
        modes.push(HardwareExecutionModeV1::EvaluationRun);
    }
    assert(modes@ =~= raw_execution_modes(modalities@, apis@));
    dedup_execution_modes(modes)
}

/// The trust tier of a miner from its verification and privacy tiers:
/// cryptographic tiers first, then confidential, then verified, else open.
pub open spec fn trust_tier(
    verification: Seq<IntegrityTier>,
    privacy: Seq<PrivacyTier>,
) -> MinerTrustTierV1 {
    if verification.contains(IntegrityTier::ZkProofWhenSupported) || privacy.contains(
        PrivacyTier::FheEncrypted,
    ) || privacy.contains(PrivacyTier::FheEncryptedInference) || privacy.contains(
        PrivacyTier::ZkVerifiedInference,
    ) || privacy.contains(PrivacyTier::SplitTrustRedundant) || privacy.contains(
        PrivacyTier::MpcExperimental,
    ) {
        MinerTrustTierV1::Cryptographic
    } else if verification.contains(IntegrityTier::TeeAttested) || privacy.contains(
        PrivacyTier::TeeConfidential,
    ) {
        MinerTrustTierV1::Confidential
    } else if verification.contains(IntegrityTier::ValidatorSpotCheck) || verification.contains(
        IntegrityTier::DeterministicReplay,
    ) {
        MinerTrustTierV1::Verified
    } else {
        MinerTrustTierV1::Open
    }
}

pub fn miner_trust_tier_for_capability(
    verification: &Vec<IntegrityTier>,
    privacy: &Vec<PrivacyTier>,
) -> (r: MinerTrustTierV1)
    ensures
        r == trust_tier(verification@, privacy@),
{
    if has_integrity(verification, IntegrityTier::ZkProofWhenSupported) || has_privacy(
        privacy,
        PrivacyTier::FheEncrypted,
    ) || has_privacy(privacy, PrivacyTier::FheEncryptedInference) || has_privacy(
        privacy,
        PrivacyTier::ZkVerifiedInference,
    ) || has_privacy(privacy, PrivacyTier::SplitTrustRedundant) || has_privacy(
        privacy,
        PrivacyTier::MpcExperimental,
    ) {
        MinerTrustTierV1::Cryptographic
    } else if has_integrity(verification, IntegrityTier::TeeAttested) || has_privacy(
        privacy,
        PrivacyTier::TeeConfidential,
    ) {
        MinerTrustTierV1::Confidential
    } else if has_integrity(verification, IntegrityTier::ValidatorSpotCheck) || has_integrity(
        verification,
        IntegrityTier::DeterministicReplay,
    ) {
        MinerTrustTierV1::Verified
    } else {
        MinerTrustTierV1::Open
    }
}

} // verus!
