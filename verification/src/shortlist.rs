//! Shortlisting runner offers for a request: which offers may serve it, why
//! the others may not, and which privacy and verification tiers an eligible
//! offer would run under. Scores are floating point and computed by callers.
use crate::clock::Instant;
use crate::ieee::{gt, is_nan, magnitude, sign_set};
use crate::store_order::{key_less, key_lt, sort_entries, sorted_by_key, texts_lt, EntryKey, StoreEntry};
use crate::findings::{issues_view, SignedContent};
use crate::kinds::{
    modality_from_task, privacy_tier_for_receipt, privacy_tier_from_execution_privacy, task_modality,
    ApiSurface, IntegrityTier, Modality, PolicyMode, PrivacyTier, RunnerType,
};
use crate::offers::{runner_offer_report, verify_runner_offer, RunnerOfferV1, RunnerOfferVerificationV1};
use crate::quote::{has_warmed_claim, warmed_claim, QuoteRequestFacts};
use crate::text::{contains_text, text_eq};
use crate::tiers::{has_api, has_modality, select_integrity, select_runner_offer_integrity_tier, preferred_runner_offer_integrity_tier};
use vstd::prelude::*;

verus! {

pub const MARKETPLACE_SHORTLIST_REQUEST_SCHEMA_VERSION: &'static str =
    "hivemind.marketplace_shortlist_request.v1";

pub const LEGACY_MARKETPLACE_SHORTLIST_REQUEST_SCHEMA_VERSION: &'static str =
    "swarm-ai.marketplace-shortlist-request.v1";

pub const LEGACY_DOTTED_SHORTLIST_REQUEST_SCHEMA_VERSION: &'static str =
    "swarm-ai.marketplace.shortlist-request.v1";

/// The number of results a shortlist keeps when the request names none.
pub const DEFAULT_SHORTLIST_MAX_RESULTS: usize = 5;

/// A request for a shortlist of runner offers.
#[derive(Debug, Clone)]
pub struct MarketplaceShortlistRequestV1 {
    pub schema_version: String,
    pub package_ref: String,
    pub task: String,
    pub api_surface: Option<ApiSurface>,
    pub modality: Option<Modality>,
    pub estimated_input_tokens: u64,
    pub estimated_output_tokens: u64,
    pub required_privacy_tier: Option<PrivacyTier>,
    pub required_verification_tier: Option<IntegrityTier>,
    pub policy_mode: PolicyMode,
    pub max_results: usize,
    pub include_rejected: bool,
}

/// Why an offer cannot serve a shortlist request.
#[derive(Debug, Clone, Copy, PartialEq, Eq, Structural)]
pub enum ShortlistRejection {
    UnsupportedRequestSchema,
    OfferDoesNotVerify,
    PackageNotSupported,
    TaskNotSupported,
    ApiSurfaceNotSupported(ApiSurface),
    ModalityNotSupported(Modality),
    PrivacyTierNotSatisfied(PrivacyTier),
    VerificationTierNotSatisfied(IntegrityTier),
    PrivacyFirstAvoidsRemote,
}

/// Whether and how a runner offer can serve a shortlist request.
#[derive(Debug, Clone)]
pub struct RunnerOfferEligibilityV1 {
    pub eligible: bool,
    pub rejections: Vec<ShortlistRejection>,
    pub api_matches: bool,
    pub modality_matches: bool,
    pub selected_privacy_tier: Option<PrivacyTier>,
    pub selected_verification_tier: Option<IntegrityTier>,
    pub cache_hit_claim: bool,
    pub verification: RunnerOfferVerificationV1,
}

/// The number of results a shortlist keeps when the request names none.
pub fn default_shortlist_max_results() -> (r: usize)
    ensures
        r == DEFAULT_SHORTLIST_MAX_RESULTS,
{
    DEFAULT_SHORTLIST_MAX_RESULTS
}

/// The shortlist request schemas that are understood.
pub open spec fn shortlist_schema_supported(v: Seq<char>) -> bool {
    v == MARKETPLACE_SHORTLIST_REQUEST_SCHEMA_VERSION@ || v == LEGACY_MARKETPLACE_SHORTLIST_REQUEST_SCHEMA_VERSION@
        || v == LEGACY_DOTTED_SHORTLIST_REQUEST_SCHEMA_VERSION@
}

/// The offer supports the requested API surface, or none is requested.
pub open spec fn api_matches(q: MarketplaceShortlistRequestV1, o: RunnerOfferV1) -> bool {
    match q.api_surface {
        Some(a) => o.supported_apis@.contains(a),
        None => true,
    }
}

/// The offer supports the requested modality, or none is requested.
pub open spec fn modality_matches(q: MarketplaceShortlistRequestV1, o: RunnerOfferV1) -> bool {
    match q.modality {
        Some(m) => o.supported_modalities@.contains(m),
        None => true,
    }
}

/// The verification tier an offer would run under: its strongest tier that
/// meets the required one, or its strongest tier when none is required.
pub open spec fn selected_verification(q: MarketplaceShortlistRequestV1, o: RunnerOfferV1) -> Option<IntegrityTier> {
    select_integrity(o.verification_tiers@, q.required_verification_tier)
}

/// Runner types that execute remotely through the marketplace.
pub open spec fn remote_runner(t: RunnerType) -> bool {
    t == RunnerType::RemoteGpu || t == RunnerType::Marketplace
}

/// The reasons an offer cannot serve a request, in the order the rules are
/// applied. `offer_valid` is whether the offer passes its own checks;
/// `selected_privacy` is the offer's privacy tier selected for the request.
pub open spec fn rejections(
    q: MarketplaceShortlistRequestV1,
    o: RunnerOfferV1,
    offer_valid: bool,
    selected_privacy: Option<PrivacyTier>,
) -> Seq<ShortlistRejection> {
    let s = Seq::<ShortlistRejection>::empty();
    let s = if !shortlist_schema_supported(q.schema_version@) {
        s.push(ShortlistRejection::UnsupportedRequestSchema)
    } else {
        s
    };
    let s = if !offer_valid {
        s.push(ShortlistRejection::OfferDoesNotVerify)
    } else {
        s
    };
    let s = if o.supported_package_refs@.len() > 0 && !o.supported_package_refs.deep_view().contains(
        q.package_ref@,
    ) {
        s.push(ShortlistRejection::PackageNotSupported)
    } else {
        s
    };
    let s = if !o.supported_capabilities.deep_view().contains(q.task@) {
        s.push(ShortlistRejection::TaskNotSupported)
    } else {
        s
    };
    let s = match q.api_surface {
        Some(a) => if !o.supported_apis@.contains(a) {
            s.push(ShortlistRejection::ApiSurfaceNotSupported(a))
        } else {
            s
        },
        None => s,
    };
    let s = match q.modality {
        Some(m) => if !o.supported_modalities@.contains(m) {
            s.push(ShortlistRejection::ModalityNotSupported(m))
        } else {
            s
        },
        None => s,
    };
    let s = match q.required_privacy_tier {
        Some(p) => if selected_privacy is None {
            s.push(ShortlistRejection::PrivacyTierNotSatisfied(p))
        } else {
            s
        },
        None => s,
    };
    let s = match q.required_verification_tier {
        Some(v) => if selected_verification(q, o) is None {
            s.push(ShortlistRejection::VerificationTierNotSatisfied(v))
        } else {
            s
        },
        None => s,
    };
    if q.policy_mode == PolicyMode::PrivacyFirst && remote_runner(o.runner_type) {
        s.push(ShortlistRejection::PrivacyFirstAvoidsRemote)
    } else {
        s
    }
}

fn tier_selection(request: &MarketplaceShortlistRequestV1, offer: &RunnerOfferV1) -> (r: Option<IntegrityTier>)
    ensures
        r == selected_verification(*request, *offer),
{
    match request.required_verification_tier {
        Some(t) => select_runner_offer_integrity_tier(&offer.verification_tiers, t),
        None => preferred_runner_offer_integrity_tier(&offer.verification_tiers),
    }
}

fn schema_supported(v: &str) -> (r: bool)
    ensures
        r == shortlist_schema_supported(v@),
{
    text_eq(v, MARKETPLACE_SHORTLIST_REQUEST_SCHEMA_VERSION) || text_eq(
        v,
        LEGACY_MARKETPLACE_SHORTLIST_REQUEST_SCHEMA_VERSION,
    ) || text_eq(v, LEGACY_DOTTED_SHORTLIST_REQUEST_SCHEMA_VERSION)
}

fn collect_rejections(
    request: &MarketplaceShortlistRequestV1,
    offer: &RunnerOfferV1,
    offer_valid: bool,
    selected_privacy: Option<PrivacyTier>,
    selected_tier: Option<IntegrityTier>,
) -> (r: Vec<ShortlistRejection>)
    requires
        selected_tier == selected_verification(*request, *offer),
    ensures
        r@ == rejections(*request, *offer, offer_valid, selected_privacy),
{
    let q = request;
    let o = offer;
    let mut r: Vec<ShortlistRejection> = Vec::new();
    if !schema_supported(q.schema_version.as_str()) {
        r.push(ShortlistRejection::UnsupportedRequestSchema);
    }
    if !offer_valid {
        r.push(ShortlistRejection::OfferDoesNotVerify);
    }
    if o.supported_package_refs.len() > 0 && !contains_text(&o.supported_package_refs, q.package_ref.as_str()) {
        r.push(ShortlistRejection::PackageNotSupported);
    }
    if !contains_text(&o.supported_capabilities, q.task.as_str()) {
        r.push(ShortlistRejection::TaskNotSupported);
    }
    match q.api_surface {
        Some(a) => if !has_api(&o.supported_apis, a) {
            r.push(ShortlistRejection::ApiSurfaceNotSupported(a));
        },
        None => {},
    }
    match q.modality {
        Some(m) => if !has_modality(&o.supported_modalities, m) {
            r.push(ShortlistRejection::ModalityNotSupported(m));
        },
        None => {},
    }
    match q.required_privacy_tier {
        Some(p) => if selected_privacy.is_none() {
            r.push(ShortlistRejection::PrivacyTierNotSatisfied(p));
        },
        None => {},
    }
    match q.required_verification_tier {
        Some(v) => if selected_tier.is_none() {
            r.push(ShortlistRejection::VerificationTierNotSatisfied(v));
        },
        None => {},
    }
    let remote = match o.runner_type {
        RunnerType::RemoteGpu | RunnerType::Marketplace => true,
        RunnerType::Local => false,
    };
    if q.policy_mode == PolicyMode::PrivacyFirst && remote {
        r.push(ShortlistRejection::PrivacyFirstAvoidsRemote);
    }
    r
}

/// Whether and how a runner offer can serve a shortlist request: the offer
/// is checked (with its signed-content facts, at `now`), and it is eligible
/// exactly when no rule rejects it. `selected_privacy` is the offer's privacy
/// tier selected for the request: the best of its tiers that satisfies the
/// required tier, or its preferred tier when none is required; the
/// verification tier is selected here the same way. `cache_hit_claim` is
/// whether the offer claims the requested package warm in its cache.
pub fn runner_offer_eligibility(
    request: &MarketplaceShortlistRequestV1,
    offer: &RunnerOfferV1,
    offer_content: &SignedContent,
    selected_privacy: Option<PrivacyTier>,
    now: Instant,
    verified_at: String,
) -> (r: RunnerOfferEligibilityV1)
    ensures
        r.verification.valid == runner_offer_report(*offer, *offer_content, now).valid(),
        issues_view(r.verification.issues@) == runner_offer_report(*offer, *offer_content, now).issues,
        issues_view(r.verification.warnings@) == runner_offer_report(*offer, *offer_content, now).warnings,
        r.verification.offer_id@ == offer.offer_id@,
        r.verification.verified_at@ == verified_at@,
        r.rejections@ == rejections(
            *request,
            *offer,
            runner_offer_report(*offer, *offer_content, now).valid(),
            selected_privacy,
        ),
        r.eligible == (r.rejections@.len() == 0),
        r.api_matches == api_matches(*request, *offer),
        r.modality_matches == modality_matches(*request, *offer),
        r.selected_privacy_tier == selected_privacy,
        r.selected_verification_tier == selected_verification(*request, *offer),
        r.cache_hit_claim == warmed_claim(offer.cache_claims@, request.package_ref@),
{
    let verification = verify_runner_offer(offer, offer_content, now, verified_at);
    let selected_tier = tier_selection(request, offer);
    let rejections = collect_rejections(request, offer, verification.valid, selected_privacy, selected_tier);
    let api = match request.api_surface {
        Some(a) => has_api(&offer.supported_apis, a),
        None => true,
    };
    let modality = match request.modality {
        Some(m) => has_modality(&offer.supported_modalities, m),
        None => true,
    };
    let cache_hit_claim = has_warmed_claim(&offer.cache_claims, request.package_ref.as_str());
    RunnerOfferEligibilityV1 {
        eligible: rejections.len() == 0,
        rejections,
        api_matches: api,
        modality_matches: modality,
        selected_privacy_tier: selected_privacy,
        selected_verification_tier: selected_tier,
        cache_hit_claim,
        verification,
    }
}

/// An offer that does not verify is always rejected, and under a
/// privacy-first policy an offer of a remote runner is always rejected.
pub proof fn lemma_unverified_offer_is_rejected(
    q: MarketplaceShortlistRequestV1,
    o: RunnerOfferV1,
    selected_privacy: Option<PrivacyTier>,
)
    ensures
        rejections(q, o, false, selected_privacy).contains(ShortlistRejection::OfferDoesNotVerify),
        q.policy_mode == PolicyMode::PrivacyFirst && remote_runner(o.runner_type) ==> rejections(
            q,
            o,
            true,
            selected_privacy,
        ).len() > 0,
{
    let s0 = Seq::<ShortlistRejection>::empty();
    let s1 = if !shortlist_schema_supported(q.schema_version@) {
        s0.push(ShortlistRejection::UnsupportedRequestSchema)
    } else {
        s0
    };
    let s2 = s1.push(ShortlistRejection::OfferDoesNotVerify);
    assert(s2[s2.len() - 1] == ShortlistRejection::OfferDoesNotVerify);
    lemma_rejections_keep(q, o, false, selected_privacy, s2);
}

/// Later rules only add rejections: the ones found by the first two rules
/// stay.
proof fn lemma_rejections_keep(
    q: MarketplaceShortlistRequestV1,
    o: RunnerOfferV1,
    offer_valid: bool,
    selected_privacy: Option<PrivacyTier>,
    prefix: Seq<ShortlistRejection>,
)
    requires
        prefix == (if !shortlist_schema_supported(q.schema_version@) {
            Seq::<ShortlistRejection>::empty().push(ShortlistRejection::UnsupportedRequestSchema)
        } else {
            Seq::<ShortlistRejection>::empty()
        }).push(ShortlistRejection::OfferDoesNotVerify),
        !offer_valid,
    ensures
        rejections(q, o, offer_valid, selected_privacy).contains(ShortlistRejection::OfferDoesNotVerify),
{
    let r = rejections(q, o, offer_valid, selected_privacy);
    let k = prefix.len() - 1;
    assert(prefix[k] == ShortlistRejection::OfferDoesNotVerify);
    assert(r.len() >= prefix.len());
    assert(r.subrange(0, prefix.len() as int) =~= prefix);
    assert(r[k] == ShortlistRejection::OfferDoesNotVerify);
}


/// The shortlist request for an execution request: the request's package
/// and task on the native API, the modality of its task, its input token
/// estimate for input and output, the privacy tier its receipt mode asks
/// for, receipts-only verification, the given policy and result limit, and
/// only eligible offers.
pub fn shortlist_request_from_execution(
    request: &QuoteRequestFacts,
    policy_mode: PolicyMode,
    max_results: usize,
) -> (r: MarketplaceShortlistRequestV1)
    ensures
        r.schema_version@ == MARKETPLACE_SHORTLIST_REQUEST_SCHEMA_VERSION@,
        r.package_ref@ == request.package_ref@,
        r.task@ == request.task@,
        r.api_surface == Some(ApiSurface::HivemindNative),
        r.modality == task_modality(request.task@),
        r.estimated_input_tokens == request.estimated_input_tokens,
        r.estimated_output_tokens == request.estimated_input_tokens,
        r.required_privacy_tier == Some(privacy_tier_for_receipt(request.receipt_mode)),
        r.required_verification_tier == Some(IntegrityTier::ReceiptOnly),
        r.policy_mode == policy_mode,
        r.max_results == max_results,
        !r.include_rejected,
{
    MarketplaceShortlistRequestV1 {
        schema_version: String::from_str(MARKETPLACE_SHORTLIST_REQUEST_SCHEMA_VERSION),
        package_ref: request.package_ref.clone(),
        task: request.task.clone(),
        api_surface: Some(ApiSurface::HivemindNative),
        modality: modality_from_task(request.task.as_str()),
        estimated_input_tokens: request.estimated_input_tokens,
        estimated_output_tokens: request.estimated_input_tokens,
        required_privacy_tier: Some(privacy_tier_from_execution_privacy(request.receipt_mode)),
        required_verification_tier: Some(IntegrityTier::ReceiptOnly),
        policy_mode,
        max_results,
        include_rejected: false,
    }
}


/// An offer is eligible for a request (no rejection) exactly when the
/// request's schema is supported, the offer verifies, the offer supports the
/// package (or lists no packages), the task, the requested API surface and
/// modality, a tier can be selected for each required tier, and a
/// privacy-first request does not go to a remote runner.
pub proof fn lemma_eligible_exactly_when(
    q: MarketplaceShortlistRequestV1,
    o: RunnerOfferV1,
    offer_valid: bool,
    selected_privacy: Option<PrivacyTier>,
)
    ensures
        rejections(q, o, offer_valid, selected_privacy).len() == 0 <==> {
            &&& shortlist_schema_supported(q.schema_version@)
            &&& offer_valid
            &&& (o.supported_package_refs@.len() == 0 || o.supported_package_refs.deep_view().contains(
                q.package_ref@,
            ))
            &&& o.supported_capabilities.deep_view().contains(q.task@)
            &&& (q.api_surface matches Some(a) ==> o.supported_apis@.contains(a))
            &&& (q.modality matches Some(m) ==> o.supported_modalities@.contains(m))
            &&& (q.required_privacy_tier is Some ==> selected_privacy is Some)
            &&& (q.required_verification_tier is Some ==> selected_verification(q, o) is Some)
            &&& !(q.policy_mode == PolicyMode::PrivacyFirst && remote_runner(o.runner_type))
        },
{
}


/// The order of a score's value: its magnitude, negated when the sign is set,
/// so that two non-NaN scores compare as the numbers they encode (the two
/// zeros are both 0).
pub open spec fn score_order(b: u64) -> int {
    if sign_set(b) {
        -(magnitude(b) as int)
    } else {
        magnitude(b) as int
    }
}

/// For scores that are not NaN, `a > b` exactly when `a` orders after `b`.
pub proof fn lemma_score_order(a: u64, b: u64)
    requires
        !is_nan(a),
        !is_nan(b),
    ensures
        gt(a, b) == (score_order(a) > score_order(b)),
{
    assert(!sign_set(a) ==> magnitude(a) == a) by (bit_vector);
    assert(!sign_set(b) ==> magnitude(b) == b) by (bit_vector);
}

fn score_key(b: u64) -> (r: i128)
    ensures
        r == score_order(b),
{
    let mag = b & 0x7FFF_FFFF_FFFF_FFFFu64;
    if (b >> 63u64) == 1u64 {
        0 - mag as i128
    } else {
        mag as i128
    }
}

/// A scored offer to be ranked: where it stands among the scored offers, its
/// ids, whether it is eligible and its score (an IEEE 754 bit pattern).
#[derive(Debug, Clone)]
pub struct RankedOfferV1 {
    pub index: usize,
    pub offer_id: String,
    pub runner_id: String,
    pub eligible: bool,
    pub score: u64,
}

impl StoreEntry for RankedOfferV1 {
    /// Offers rank by score, highest first, then by runner id, then by offer
    /// id.
    open spec fn sort_key(&self) -> EntryKey {
        (-score_order(self.score), self.runner_id@, self.offer_id@, Seq::empty())
    }

    open spec fn is_valid(&self) -> bool {
        self.eligible
    }

    fn valid(&self) -> (r: bool) {
        self.eligible
    }

    fn sorts_before(&self, other: &Self) -> (r: bool) {
        proof {
            reveal_strlit("");
        }
        let a = score_key(self.score);
        let b = score_key(other.score);
        if a > b {
            return true;
        }
        if a < b {
            return false;
        }
        let t = key_less(self.runner_id.as_str(), self.offer_id.as_str(), "", other.runner_id.as_str(), other.offer_id.as_str(), "");
        assert(texts_lt(self.sort_key(), other.sort_key()) == texts_lt(
            (0, self.runner_id@, self.offer_id@, ""@),
            (0, other.runner_id@, other.offer_id@, ""@),
        ));
        t
    }
}

/// The offers a shortlist ranks: every one when rejected offers are
/// included, otherwise the eligible ones, in the order given.
pub open spec fn rankable(offers: Seq<RankedOfferV1>, include_rejected: bool) -> Seq<RankedOfferV1> {
    offers.filter(|o: RankedOfferV1| include_rejected || o.eligible)
}

/// How many offers a shortlist keeps: `max_results`, at least one.
pub open spec fn result_limit(max_results: usize) -> nat {
    if max_results == 0 { 1 } else { max_results as nat }
}

/// The offers of a ranking, in rank order.
pub open spec fn ranked_offers(r: Seq<(u32, RankedOfferV1)>) -> Seq<RankedOfferV1> {
    r.map_values(|p: (u32, RankedOfferV1)| p.1)
}

/// `kept` and `dropped` together are the offers of `all`, and none of the
/// dropped offers ranks before a kept one.
pub open spec fn ranking_split(kept: Seq<RankedOfferV1>, dropped: Seq<RankedOfferV1>, all: Seq<RankedOfferV1>) -> bool {
    &&& (kept + dropped).to_multiset() == all.to_multiset()
    &&& forall|i: int, j: int|
        0 <= i < kept.len() && 0 <= j < dropped.len() ==> !key_lt(
            #[trigger] dropped[j].sort_key(),
            #[trigger] kept[i].sort_key(),
        )
}

/// Ranks scored offers: keeps the eligible ones (all of them when
/// `include_rejected`), orders them by score, highest first, then by runner
/// id and offer id, keeps the first `max_results` (at least one) and numbers
/// them from 1. The offers dropped for the limit rank no higher than those
/// kept. Scores must not be NaN: they are numbers to order.
pub fn rank_offers(include_rejected: bool, max_results: usize, offers: Vec<RankedOfferV1>) -> (r: Vec<
    (u32, RankedOfferV1),
>)
    requires
        forall|i: int| 0 <= i < offers.len() ==> !is_nan(#[trigger] offers@[i].score),
        offers.len() < u32::MAX,
    ensures
        r.len() == if rankable(offers@, include_rejected).len() < result_limit(max_results) {
            rankable(offers@, include_rejected).len()
        } else {
            result_limit(max_results)
        },
        forall|i: int| 0 <= i < r.len() ==> (#[trigger] r@[i]).0 == i + 1,
        sorted_by_key(ranked_offers(r@)),
        exists|dropped: Seq<RankedOfferV1>|
            #[trigger] ranking_split(
                ranked_offers(r@),
                dropped,
                rankable(offers@, include_rejected),
            ),
{
    let ghost pred = |o: RankedOfferV1| include_rejected || o.eligible;
    let mut kept: Vec<RankedOfferV1> = Vec::new();
    let mut rest = offers;
    let ghost original = rest@;
    let mut i: usize = 0;
    assert(original.skip(0) =~= original);
    while rest.len() > 0
        invariant
            pred == (|o: RankedOfferV1| include_rejected || o.eligible),
            rest@ == original.skip(i as int),
            i <= original.len(),
            original.len() < u32::MAX,
            rest.len() == original.len() - i,
            kept@ == original.take(i as int).filter(pred),
        decreases rest.len(),
    {
        let o = rest.remove(0);
        proof {
            assert(original.take(i + 1).drop_last() =~= original.take(i as int));
            assert(original.take(i + 1).last() == o);
            assert(rest@ =~= original.skip(i + 1));
            reveal(Seq::filter);
        }
        if include_rejected || o.eligible {
            kept.push(o);
        }
        i = i + 1;
    }
    assert(original.take(i as int) =~= original);
    proof {
        original.lemma_filter_len(pred);
    }
    let sorted = sort_entries(kept);
    let limit = if max_results == 0 {
        1
    } else {
        max_results
    };
    let ghost s = sorted@;
    let mut out: Vec<(u32, RankedOfferV1)> = Vec::new();
    let mut k: usize = 0;
    let mut source = sorted;
    assert(s.skip(0) =~= s);
    while k < limit && source.len() > 0
        invariant
            source@ == s.skip(k as int),
            k <= limit,
            limit as nat == result_limit(max_results),
            s.len() <= original.len(),
            original.len() < u32::MAX,
            k <= s.len(),
            out.len() == k,
            forall|j: int| 0 <= j < k ==> (#[trigger] out@[j]) == ((j + 1) as u32, s[j]),
        decreases source.len(),
    {
        let o = source.remove(0);
        assert(o == s[k as int]);
        assert(source@ =~= s.skip(k + 1));
        out.push(((k + 1) as u32, o));
        k = k + 1;
    }
    assert(s.len() == rankable(offers@, include_rejected).len());
    proof {
        let firsts = ranked_offers(out@);
        let dropped = s.skip(k as int);
        assert(firsts =~= s.take(k as int));
        assert(firsts + dropped =~= s);
        assert(rankable(offers@, include_rejected) == original.filter(pred));
        assert forall|i: int, j: int|
            0 <= i < firsts.len() && 0 <= j < dropped.len() implies !key_lt(
                #[trigger] dropped[j].sort_key(),
                #[trigger] firsts[i].sort_key(),
            ) by {
            assert(dropped[j] == s[k + j]);
            assert(firsts[i] == s[i]);
        }
        assert(ranking_split(firsts, dropped, rankable(offers@, include_rejected)));
        assert forall|i: int| 0 <= i < out.len() implies (#[trigger] out@[i]).0 == i + 1 by {
            assert(out@[i] == ((i + 1) as u32, s[i]));
        }
        assert(sorted_by_key(firsts));
    }
    out
}


/// Under a privacy-first policy an offer from a remote GPU runner or a
/// marketplace runner is never eligible: its rejections name the rule that
/// privacy-first requests avoid remote execution. An offer from a local
/// runner is never rejected by that rule.
pub proof fn lemma_privacy_first_rejects_remote_runners(
    q: MarketplaceShortlistRequestV1,
    o: RunnerOfferV1,
    offer_valid: bool,
    selected_privacy: Option<PrivacyTier>,
)
    ensures
        q.policy_mode == PolicyMode::PrivacyFirst && (o.runner_type == RunnerType::RemoteGpu
            || o.runner_type == RunnerType::Marketplace) ==> rejections(
            q,
            o,
            offer_valid,
            selected_privacy,
        ).contains(ShortlistRejection::PrivacyFirstAvoidsRemote) && rejections(
            q,
            o,
            offer_valid,
            selected_privacy,
        ).len() > 0,
        o.runner_type == RunnerType::Local ==> !rejections(
            q,
            o,
            offer_valid,
            selected_privacy,
        ).contains(ShortlistRejection::PrivacyFirstAvoidsRemote),
{
    broadcast use vstd::seq_lib::group_seq_properties;

    let r = rejections(q, o, offer_valid, selected_privacy);
    if q.policy_mode == PolicyMode::PrivacyFirst && (o.runner_type == RunnerType::RemoteGpu
        || o.runner_type == RunnerType::Marketplace) {
        assert(r[r.len() - 1] == ShortlistRejection::PrivacyFirstAvoidsRemote);
    }
}

} // verus!
