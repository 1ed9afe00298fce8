//! Settlement events: their verification, the evidence-reference bookkeeping
//! of a settlement, and the resolution of disputes over it (opening a
//! dispute, refunding, rejecting the dispute).
use crate::clock::{parse_rfc3339, rfc3339_instant};
use crate::findings::{envelope_subject, EnvelopeSubject, 
    copy_opt, copy_texts, keeps_issues, lemma_receipt_references_keep, expected_signature, identity_view, issues_view, opt_view, present_text,
    present_text_of, Findings, IssueView, MarketplaceVerificationIssueV1, Report, SignedContent,
};
use crate::ieee::{f64_lt_zero, lt_zero};
use crate::kinds::{SettlementResolutionAction, SettlementStatus};
use crate::text::{contains_text, 
    blank, has_prefix, is_blank, is_settlement_receipt_ref, lemma_trimmed_empty,
    settlement_receipt_ref, starts_with, text_eq, trim, trimmed,
};
use vstd::prelude::*;

verus! {

pub const SETTLEMENT_EVENT_SCHEMA_VERSION: &'static str = "hivemind.settlement_event.v1";

pub const LEGACY_SETTLEMENT_EVENT_SCHEMA_VERSION: &'static str = "swarm-ai.settlement-event.v1";

pub const SETTLEMENT_EVENT_VERIFICATION_SCHEMA_VERSION: &'static str =
    "hivemind.settlement_event_verification.v1";

pub const SETTLEMENT_RESOLUTION_SCHEMA_VERSION: &'static str = "swarm-ai.settlement-resolution.v1";

pub const SETTLEMENT_RESOLUTION_VERIFICATION_SCHEMA_VERSION: &'static str =
    "swarm-ai.settlement-resolution-verification.v1";

/// A finding of a settlement check: the JSON path and the message.
#[derive(Debug, Clone, PartialEq, Eq)]
pub struct SettlementVerificationIssueV1 {
    pub path: String,
    pub message: String,
}

impl View for SettlementVerificationIssueV1 {
    type V = IssueView;

    open spec fn view(&self) -> IssueView {
        (self.path@, self.message@)
    }
}

pub open spec fn settlement_issues_view(s: Seq<SettlementVerificationIssueV1>) -> Seq<IssueView> {
    s.map_values(|i: SettlementVerificationIssueV1| i@)
}

/// Builds a settlement finding from its path and message.
pub fn settlement_issue(path: &str, message: &str) -> (r: SettlementVerificationIssueV1)
    ensures
        r@ == (path@, message@),
{
    SettlementVerificationIssueV1 { path: String::from_str(path), message: String::from_str(message) }
}

/// The same findings as settlement findings.
pub fn as_settlement_issues(v: Vec<MarketplaceVerificationIssueV1>) -> (r: Vec<
    SettlementVerificationIssueV1,
>)
    ensures
        settlement_issues_view(r@) == issues_view(v@),
{
    let mut r: Vec<SettlementVerificationIssueV1> = Vec::new();
    let mut i: usize = 0;
    while i < v.len()
        invariant
            i <= v.len(),
            settlement_issues_view(r@) =~= issues_view(v@).subrange(0, i as int),
        decreases v.len() - i,
    {
        let item = SettlementVerificationIssueV1 {
            path: v[i].path.clone(),
            message: v[i].message.clone(),
        };
        r.push(item);
        assert(issues_view(v@).subrange(0, i + 1) =~= issues_view(v@).subrange(0, i as int).push(
            v@[i as int]@,
        ));
        i = i + 1;
    }
    assert(issues_view(v@).subrange(0, i as int) =~= issues_view(v@));
    r
}

/// A settlement event: who pays whom how much for which receipt. `amount`
/// is the IEEE 754 bit pattern of the amount.
#[derive(Debug, Clone)]
pub struct SettlementEventV1 {
    pub schema_version: String,
    pub settlement_id: String,
    pub job_id: Option<String>,
    pub request_id: String,
    pub receipt_id: String,
    pub quote_id: Option<String>,
    pub payment_authorization_id: Option<String>,
    pub payment_ref: Option<String>,
    pub package_ref: String,
    pub runner_id: String,
    pub payer: String,
    pub payee: String,
    pub amount: u64,
    pub currency: String,
    pub asset: Option<String>,
    pub status: SettlementStatus,
    pub reason: Option<String>,
    pub evidence_refs: Vec<String>,
    pub created_at: Option<String>,
    pub occurred_at: String,
    pub receipt_ref: Option<String>,
    pub signature: Option<String>,
}

/// A settlement event as texts and values.
pub struct SettlementView {
    pub schema_version: Seq<char>,
    pub settlement_id: Seq<char>,
    pub job_id: Option<Seq<char>>,
    pub request_id: Seq<char>,
    pub receipt_id: Seq<char>,
    pub quote_id: Option<Seq<char>>,
    pub payment_authorization_id: Option<Seq<char>>,
    pub payment_ref: Option<Seq<char>>,
    pub package_ref: Seq<char>,
    pub runner_id: Seq<char>,
    pub payer: Seq<char>,
    pub payee: Seq<char>,
    pub amount: u64,
    pub currency: Seq<char>,
    pub asset: Option<Seq<char>>,
    pub status: SettlementStatus,
    pub reason: Option<Seq<char>>,
    pub evidence_refs: Seq<Seq<char>>,
    pub created_at: Option<Seq<char>>,
    pub occurred_at: Seq<char>,
    pub receipt_ref: Option<Seq<char>>,
    pub signature: Option<Seq<char>>,
}

impl View for SettlementEventV1 {
    type V = SettlementView;

    open spec fn view(&self) -> SettlementView {
        SettlementView {
            schema_version: self.schema_version@,
            settlement_id: self.settlement_id@,
            job_id: opt_view(self.job_id),
            request_id: self.request_id@,
            receipt_id: self.receipt_id@,
            quote_id: opt_view(self.quote_id),
            payment_authorization_id: opt_view(self.payment_authorization_id),
            payment_ref: opt_view(self.payment_ref),
            package_ref: self.package_ref@,
            runner_id: self.runner_id@,
            payer: self.payer@,
            payee: self.payee@,
            amount: self.amount,
            currency: self.currency@,
            asset: opt_view(self.asset),
            status: self.status,
            reason: opt_view(self.reason),
            evidence_refs: self.evidence_refs.deep_view(),
            created_at: opt_view(self.created_at),
            occurred_at: self.occurred_at@,
            receipt_ref: opt_view(self.receipt_ref),
            signature: opt_view(self.signature),
        }
    }
}

/// What the verification of a settlement event found.
#[derive(Debug, Clone)]
pub struct SettlementEventVerificationV1 {
    pub schema_version: String,
    pub settlement_id: String,
    pub valid: bool,
    pub issues: Vec<SettlementVerificationIssueV1>,
    pub warnings: Vec<SettlementVerificationIssueV1>,
    pub expected_signature: Option<String>,
    pub verified_at: String,
}

// ---------------------------------------------------------------------------
// Evidence references

/// Adds a reference to a list of evidence references: the reference is
/// trimmed, and a blank one or one already listed is left out.
pub open spec fn push_ref(refs: Seq<Seq<char>>, reference: Seq<char>) -> Seq<Seq<char>> {
    let t = trimmed(reference);
    if t.len() == 0 || refs.contains(t) {
        refs
    } else {
        refs.push(t)
    }
}

/// The first `n` candidates added one after the other.
pub open spec fn merge_refs_upto(refs: Seq<Seq<char>>, candidates: Seq<Seq<char>>, n: nat) -> Seq<
    Seq<char>,
>
    decreases n,
{
    if n == 0 {
        refs
    } else {
        push_ref(merge_refs_upto(refs, candidates, (n - 1) as nat), candidates[n - 1])
    }
}

/// Every candidate added, in order.
pub open spec fn merge_refs(refs: Seq<Seq<char>>, candidates: Seq<Seq<char>>) -> Seq<Seq<char>> {
    merge_refs_upto(refs, candidates, candidates.len())
}

/// No reference is listed twice.
pub open spec fn distinct_refs(refs: Seq<Seq<char>>) -> bool {
    forall|i: int, j: int| 0 <= i < j < refs.len() ==> refs[i] != refs[j]
}

/// Adds an evidence reference, trimmed, unless it is blank or already listed.
pub fn push_evidence_ref(evidence_refs: &mut Vec<String>, reference: &str)
    ensures
        final(evidence_refs).deep_view() == push_ref(old(evidence_refs).deep_view(), reference@),
{
    let t = trim(reference);
    proof {
        lemma_trimmed_empty(reference@);
    }
    if t.unicode_len() == 0 || contains_text(evidence_refs, t) {
        return;
    }
    let ghost before = evidence_refs.deep_view();
    evidence_refs.push(t.to_string());
    assert(evidence_refs.deep_view() =~= before.push(t@));
}

/// Adds each candidate reference in turn.
pub fn merge_evidence_refs(evidence_refs: &mut Vec<String>, candidates: &Vec<String>)
    ensures
        final(evidence_refs).deep_view() == merge_refs(
            old(evidence_refs).deep_view(),
            candidates.deep_view(),
        ),
{
    let ghost start = evidence_refs.deep_view();
    let mut i: usize = 0;
    while i < candidates.len()
        invariant
            i <= candidates.len(),
            evidence_refs.deep_view() == merge_refs_upto(start, candidates.deep_view(), i as nat),
        decreases candidates.len() - i,
    {
        assert(candidates.deep_view()[i as int] == candidates@[i as int]@);
        push_evidence_ref(evidence_refs, candidates[i].as_str());
        i = i + 1;
    }
}

/// Adding references keeps what was listed, in place, lists nothing twice
/// where nothing was listed twice before, and lists every non-blank candidate,
/// trimmed; nothing else is added.
pub proof fn lemma_merge_refs(refs: Seq<Seq<char>>, candidates: Seq<Seq<char>>)
    ensures
        merge_refs(refs, candidates).len() >= refs.len(),
        forall|i: int|
            0 <= i < refs.len() ==> #[trigger] merge_refs(refs, candidates)[i] == refs[i],
        distinct_refs(refs) ==> distinct_refs(merge_refs(refs, candidates)),
        forall|k: int|
            0 <= k < candidates.len() && !blank(#[trigger] candidates[k]) ==> merge_refs(
                refs,
                candidates,
            ).contains(trimmed(candidates[k])),
        forall|x: Seq<char>|
            #[trigger] merge_refs(refs, candidates).contains(x) ==> refs.contains(x) || exists|
                k: int,
            |
                0 <= k < candidates.len() && x == trimmed(#[trigger] candidates[k]),
{
    lemma_merge_refs_upto(refs, candidates, candidates.len());
}

/// Adding one reference keeps what was listed, in place, lists nothing twice
/// where nothing was listed twice, lists the reference trimmed unless it is
/// blank, and adds nothing else.
pub proof fn lemma_push_ref_facts(refs: Seq<Seq<char>>, reference: Seq<char>)
    ensures
        push_ref(refs, reference).len() >= refs.len(),
        forall|i: int| 0 <= i < refs.len() ==> #[trigger] push_ref(refs, reference)[i] == refs[i],
        distinct_refs(refs) ==> distinct_refs(push_ref(refs, reference)),
        !blank(reference) ==> push_ref(refs, reference).contains(trimmed(reference)),
        forall|x: Seq<char>|
            #[trigger] push_ref(refs, reference).contains(x) ==> refs.contains(x) || x == trimmed(
                reference,
            ),
{
    lemma_push_ref(refs, reference);
}

proof fn lemma_push_ref(refs: Seq<Seq<char>>, reference: Seq<char>)
    ensures
        push_ref(refs, reference).len() >= refs.len(),
        forall|i: int| 0 <= i < refs.len() ==> #[trigger] push_ref(refs, reference)[i] == refs[i],
        distinct_refs(refs) ==> distinct_refs(push_ref(refs, reference)),
        !blank(reference) ==> push_ref(refs, reference).contains(trimmed(reference)),
        forall|x: Seq<char>|
            #[trigger] push_ref(refs, reference).contains(x) ==> refs.contains(x) || x == trimmed(
                reference,
            ),
{
    lemma_trimmed_empty(reference);
    let t = trimmed(reference);
    if !(t.len() == 0 || refs.contains(t)) {
        let p = refs.push(t);
        assert(p[refs.len() as int] == t);
        assert forall|x: Seq<char>| #[trigger] p.contains(x) implies refs.contains(x) || x == t by {
            let j = choose|j: int| 0 <= j < p.len() && p[j] == x;
            if j < refs.len() {
                assert(refs[j] == x);
            }
        }
        if distinct_refs(refs) {
            assert forall|i: int, j: int| 0 <= i < j < p.len() implies p[i] != p[j] by {
                if j == refs.len() {
                    assert(refs[i] == p[i]);
                }
            }
        }
    }
}

proof fn lemma_merge_refs_upto(refs: Seq<Seq<char>>, candidates: Seq<Seq<char>>, n: nat)
    requires
        n <= candidates.len(),
    ensures
        merge_refs_upto(refs, candidates, n).len() >= refs.len(),
        forall|i: int|
            0 <= i < refs.len() ==> #[trigger] merge_refs_upto(refs, candidates, n)[i] == refs[i],
        distinct_refs(refs) ==> distinct_refs(merge_refs_upto(refs, candidates, n)),
        forall|k: int|
            0 <= k < n && !blank(#[trigger] candidates[k]) ==> merge_refs_upto(
                refs,
                candidates,
                n,
            ).contains(trimmed(candidates[k])),
        forall|x: Seq<char>|
            #[trigger] merge_refs_upto(refs, candidates, n).contains(x) ==> refs.contains(x)
                || exists|k: int| 0 <= k < n && x == trimmed(#[trigger] candidates[k]),
    decreases n,
{
    if n > 0 {
        let m = (n - 1) as nat;
        lemma_merge_refs_upto(refs, candidates, m);
        let before = merge_refs_upto(refs, candidates, m);
        lemma_push_ref(before, candidates[m as int]);
        let after = merge_refs_upto(refs, candidates, n);
        assert forall|k: int| 0 <= k < n && !blank(#[trigger] candidates[k]) implies after.contains(
            trimmed(candidates[k]),
        ) by {
            if k < m {
                let t = trimmed(candidates[k]);
                assert(before.contains(t));
                let j = choose|j: int| 0 <= j < before.len() && before[j] == t;
                assert(after[j] == t);
            }
        }
        assert forall|x: Seq<char>| #[trigger] after.contains(x) implies refs.contains(x) || exists|
            k: int,
        | 0 <= k < n && x == trimmed(#[trigger] candidates[k]) by {
            if before.contains(x) {
                if !refs.contains(x) {
                    let k = choose|k: int| 0 <= k < m && x == trimmed(#[trigger] candidates[k]);
                    assert(0 <= k < n && x == trimmed(candidates[k]));
                }
            } else {
                assert(x == trimmed(candidates[m as int]));
            }
        }
    }
}

// ---------------------------------------------------------------------------
// Status reasons

/// The label of a settlement status; a settled status names what it was
/// settled from.
pub open spec fn status_reason(status: SettlementStatus, has_payment: bool, has_quote: bool) -> Seq<
    char,
> {
    match status {
        SettlementStatus::Settled => if has_payment {
            "settled from verified receipt and payment authorization"@
        } else if has_quote {
            "settled from receipt and service quote"@
        } else {
            "settled from receipt billing estimate"@
        },
        SettlementStatus::Authorized => "payment authorized"@,
        SettlementStatus::PartiallySettled => "partially settled"@,
        SettlementStatus::Refunded => "refunded"@,
        SettlementStatus::Disputed => "dispute opened"@,
        SettlementStatus::DisputeRejected => "dispute rejected"@,
        SettlementStatus::Cancelled => "cancelled"@,
        SettlementStatus::Failed => "failed"@,
        SettlementStatus::Pending => "pending settlement"@,
    }
}

/// The label of a settlement status, given whether the settlement came with a
/// payment authorization and with a service quote.
pub fn settlement_status_reason(status: SettlementStatus, has_payment_authorization: bool, has_quote: bool) -> (r: String)
    ensures
        r@ == status_reason(status, has_payment_authorization, has_quote),
{
    let s = match status {
        SettlementStatus::Settled => if has_payment_authorization {
            "settled from verified receipt and payment authorization"
        } else if has_quote {
            "settled from receipt and service quote"
        } else {
            "settled from receipt billing estimate"
        },
        SettlementStatus::Authorized => "payment authorized",
        SettlementStatus::PartiallySettled => "partially settled",
        SettlementStatus::Refunded => "refunded",
        SettlementStatus::Disputed => "dispute opened",
        SettlementStatus::DisputeRejected => "dispute rejected",
        SettlementStatus::Cancelled => "cancelled",
        SettlementStatus::Failed => "failed",
        SettlementStatus::Pending => "pending settlement",
    };
    String::from_str(s)
}

/// The reason recorded on a resolved settlement: the status label, followed
/// by `: ` and the trimmed resolution reason when that is not blank.
pub open spec fn resolution_reason(status: SettlementStatus, reason: Seq<char>) -> Seq<char> {
    let label = status_reason(status, false, false);
    if blank(reason) {
        label
    } else {
        label + ": "@ + trimmed(reason)
    }
}

pub fn settlement_resolution_reason(status: SettlementStatus, reason: &str) -> (r: String)
    ensures
        r@ == resolution_reason(status, reason@),
{
    let mut label = settlement_status_reason(status, false, false);
    proof {
        lemma_trimmed_empty(reason@);
    }
    let t = trim(reason);
    if t.unicode_len() == 0 {
        label
    } else {
        label.append(": ");
        label.append(t);
        label
    }
}

// ---------------------------------------------------------------------------
// Settlement event verification

/// The findings of the settlement event rules, in the order they are applied.
pub open spec fn settlement_event_report(s: SettlementEventV1, c: SignedContent) -> Report {
    let v = s@;
    let current = v.schema_version == SETTLEMENT_EVENT_SCHEMA_VERSION@;
    let legacy = v.schema_version == LEGACY_SETTLEMENT_EVENT_SCHEMA_VERSION@;
    let r = Report::empty();
    let r = r.issue_if(
        !(current || legacy),
        "$.schemaVersion"@,
        "Expected schemaVersion to be hivemind.settlement_event.v1"@,
    );
    let r = r.issue_if(
        current && present_text(v.job_id) is None,
        "$.jobId"@,
        "Current settlement schema requires jobId"@,
    );
    let r = r.issue_if(
        current && present_text(v.asset) is None,
        "$.asset"@,
        "Current settlement schema requires asset"@,
    );
    let r = r.issue_if(
        current && present_text(v.reason) is None,
        "$.reason"@,
        "Current settlement schema requires reason"@,
    );
    let r = r.issue_if(
        current && v.evidence_refs.len() == 0,
        "$.evidenceRefs"@,
        "Current settlement schema requires at least one evidence reference"@,
    );
    let r = r.issue_if(
        current && present_text(v.created_at) is None,
        "$.createdAt"@,
        "Current settlement schema requires createdAt"@,
    );
    let r = r.record_id(
        v.settlement_id,
        v.signature,
        c.canonical_id@,
        "$.settlementId"@,
        "Settlement id is required"@,
        "Settlement id does not match canonical signed content"@,
    );
    let r = r.issue_if(blank(v.request_id), "$.requestId"@, "Request id is required"@);
    let r = r.issue_if(blank(v.receipt_id), "$.receiptId"@, "Receipt id is required"@);
    let r = r.issue_if(blank(v.package_ref), "$.packageRef"@, "Package ref is required"@);
    let r = r.issue_if(blank(v.runner_id), "$.runnerId"@, "Runner id is required"@);
    let r = r.issue_if(blank(v.payer), "$.payer"@, "Payer is required"@);
    let r = r.issue_if(blank(v.payee), "$.payee"@, "Payee is required"@);
    let r = r.issue_if(blank(v.currency), "$.currency"@, "Currency is required"@);
    let r = r.warn_if(
        !has_prefix(v.package_ref, "bzz://"@),
        "$.packageRef"@,
        "Settlement packageRef is not a bzz:// reference"@,
    );
    let r = r.issue_if(lt_zero(v.amount), "$.amount"@, "Amount must not be negative"@);
    let r = r.issue_if(
        v.asset matches Some(a) && trimmed(a) != v.currency,
        "$.asset"@,
        "Settlement asset must match currency compatibility field"@,
    );
    let r = r.receipt_references(
        v.evidence_refs,
        "$.evidenceRefs["@,
        "]"@,
        "Evidence reference must not be empty"@,
        "Evidence reference is not a recognized bzz:// or local:// reference"@,
    );
    let r = r.warn_if(
        v.receipt_ref matches Some(rr) && !settlement_receipt_ref(rr),
        "$.receiptRef"@,
        "Receipt reference is not a recognized bzz:// or local:// reference"@,
    );
    let r = r.issue_if(
        rfc3339_instant(v.occurred_at) is None,
        "$.occurredAt"@,
        "Settlement timestamp must be RFC3339"@,
    );
    let r = r.issue_if(
        v.created_at matches Some(t) && rfc3339_instant(t) is None,
        "$.createdAt"@,
        "Settlement createdAt timestamp must be RFC3339"@,
    );
    r.signature(
        v.signature,
        c.dev_signature@,
        identity_view(c.identity_check),
        "Settlement signature does not match canonical dev signature or Ed25519 identity envelope"@,
        "Settlement is unsigned; verify settlementId through a trusted source"@,
    )
}

/// A settlement event whose signature is present and is not an identity
/// envelope verifies only if that signature equals the development signature
/// of its signed content and its id equals the canonical id. So an event
/// edited after it was signed no longer verifies.
pub proof fn lemma_settlement_event_signature_binds(s: SettlementEventV1, c: SignedContent)
    requires
        present_text(opt_view(s.signature)) is Some,
        c.identity_check is None,
    ensures
        settlement_event_report(s, c).valid() ==> present_text(opt_view(s.signature))
            == Some(c.dev_signature@) && s.settlement_id@ == c.canonical_id@,
{
    broadcast use lemma_receipt_references_keep;
    let v = s@;
    let current = v.schema_version == SETTLEMENT_EVENT_SCHEMA_VERSION@;
    let legacy = v.schema_version == LEGACY_SETTLEMENT_EVENT_SCHEMA_VERSION@;
    let r = Report::empty();
    let r = r.issue_if(
        !(current || legacy),
        "$.schemaVersion"@,
        "Expected schemaVersion to be hivemind.settlement_event.v1"@,
    );
    let r = r.issue_if(
        current && present_text(v.job_id) is None,
        "$.jobId"@,
        "Current settlement schema requires jobId"@,
    );
    let r = r.issue_if(
        current && present_text(v.asset) is None,
        "$.asset"@,
        "Current settlement schema requires asset"@,
    );
    let r = r.issue_if(
        current && present_text(v.reason) is None,
        "$.reason"@,
        "Current settlement schema requires reason"@,
    );
    let r = r.issue_if(
        current && v.evidence_refs.len() == 0,
        "$.evidenceRefs"@,
        "Current settlement schema requires at least one evidence reference"@,
    );
    let r = r.issue_if(
        current && present_text(v.created_at) is None,
        "$.createdAt"@,
        "Current settlement schema requires createdAt"@,
    );
    let before_id = r.issues.len();
    let r = r.record_id(
        v.settlement_id,
        v.signature,
        c.canonical_id@,
        "$.settlementId"@,
        "Settlement id is required"@,
        "Settlement id does not match canonical signed content"@,
    );
    assert(r.issues.len() == before_id ==> v.settlement_id == c.canonical_id@);
    let full = settlement_event_report(s, c);
    assert(full.issues.len() >= r.issues.len());
}

fn settlement_event_findings(s: &SettlementEventV1, content: &SignedContent) -> (r: (Findings, String))
    ensures
        r.0@ == settlement_event_report(*s, *content),
        r.1@ == expected_signature(
            opt_view(s.signature),
            content.dev_signature@,
            identity_view(content.identity_check),
        ),
{
    let mut f = Findings::new();
    let current = text_eq(s.schema_version.as_str(), SETTLEMENT_EVENT_SCHEMA_VERSION);
    let legacy = text_eq(s.schema_version.as_str(), LEGACY_SETTLEMENT_EVENT_SCHEMA_VERSION);
    f.issue_if(
        !(current || legacy),
        "$.schemaVersion",
        "Expected schemaVersion to be hivemind.settlement_event.v1",
    );
    f.issue_if(
        current && present_text_of(&s.job_id).is_none(),
        "$.jobId",
        "Current settlement schema requires jobId",
    );
    f.issue_if(
        current && present_text_of(&s.asset).is_none(),
        "$.asset",
        "Current settlement schema requires asset",
    );
    f.issue_if(
        current && present_text_of(&s.reason).is_none(),
        "$.reason",
        "Current settlement schema requires reason",
    );
    f.issue_if(
        current && s.evidence_refs.len() == 0,
        "$.evidenceRefs",
        "Current settlement schema requires at least one evidence reference",
    );
    f.issue_if(
        current && present_text_of(&s.created_at).is_none(),
        "$.createdAt",
        "Current settlement schema requires createdAt",
    );
    f.record_id(
        s.settlement_id.as_str(),
        &s.signature,
        content.canonical_id.as_str(),
        "$.settlementId",
        "Settlement id is required",
        "Settlement id does not match canonical signed content",
    );
    f.required(s.request_id.as_str(), "$.requestId", "Request id is required");
    f.required(s.receipt_id.as_str(), "$.receiptId", "Receipt id is required");
    f.required(s.package_ref.as_str(), "$.packageRef", "Package ref is required");
    f.required(s.runner_id.as_str(), "$.runnerId", "Runner id is required");
    f.required(s.payer.as_str(), "$.payer", "Payer is required");
    f.required(s.payee.as_str(), "$.payee", "Payee is required");
    f.required(s.currency.as_str(), "$.currency", "Currency is required");
    f.warn_if(
        !starts_with(s.package_ref.as_str(), "bzz://"),
        "$.packageRef",
        "Settlement packageRef is not a bzz:// reference",
    );
    f.issue_if(f64_lt_zero(s.amount), "$.amount", "Amount must not be negative");
    let asset_mismatch = match &s.asset {
        Some(a) => !text_eq(trim(a.as_str()), s.currency.as_str()),
        None => false,
    };
    f.issue_if(
        asset_mismatch,
        "$.asset",
        "Settlement asset must match currency compatibility field",
    );
    f.receipt_references(
        &s.evidence_refs,
        "$.evidenceRefs[",
        "]",
        "Evidence reference must not be empty",
        "Evidence reference is not a recognized bzz:// or local:// reference",
    );
    let odd_receipt_ref = match &s.receipt_ref {
        Some(rr) => !is_settlement_receipt_ref(rr.as_str()),
        None => false,
    };
    f.warn_if(
        odd_receipt_ref,
        "$.receiptRef",
        "Receipt reference is not a recognized bzz:// or local:// reference",
    );
    f.issue_if(
        parse_rfc3339(s.occurred_at.as_str()).is_none(),
        "$.occurredAt",
        "Settlement timestamp must be RFC3339",
    );
    let bad_created = match &s.created_at {
        Some(t) => parse_rfc3339(t.as_str()).is_none(),
        None => false,
    };
    f.issue_if(bad_created, "$.createdAt", "Settlement createdAt timestamp must be RFC3339");
    let expected = f.signature(
        &s.signature,
        content,
        "Settlement signature does not match canonical dev signature or Ed25519 identity envelope",
        "Settlement is unsigned; verify settlementId through a trusted source",
    );
    (f, expected)
}

/// Checks a settlement event against the settlement rules. `content` carries
/// the canonical id and development signature of the event's signing value
/// and, for an identity-enveloped signature, the envelope check (signed by the
/// payee); `verified_at` is the time of the check.
pub fn verify_settlement_event(
    settlement: &SettlementEventV1,
    content: &SignedContent,
    verified_at: String,
) -> (r: SettlementEventVerificationV1)
    ensures
        r.schema_version@ == SETTLEMENT_EVENT_VERIFICATION_SCHEMA_VERSION@,
        r.settlement_id@ == settlement.settlement_id@,
        settlement_issues_view(r.issues@) == settlement_event_report(*settlement, *content).issues,
        settlement_issues_view(r.warnings@) == settlement_event_report(*settlement, *content).warnings,
        r.valid == settlement_event_report(*settlement, *content).valid(),
        r.expected_signature matches Some(e) && e@ == expected_signature(
            opt_view(settlement.signature),
            content.dev_signature@,
            identity_view(content.identity_check),
        ),
        r.verified_at@ == verified_at@,
{
    let (f, expected) = settlement_event_findings(settlement, content);
    let valid = f.is_valid();
    SettlementEventVerificationV1 {
        schema_version: String::from_str(SETTLEMENT_EVENT_VERIFICATION_SCHEMA_VERSION),
        settlement_id: settlement.settlement_id.clone(),
        valid,
        issues: as_settlement_issues(f.issues),
        warnings: as_settlement_issues(f.warnings),
        expected_signature: Some(expected),
        verified_at,
    }
}

// ---------------------------------------------------------------------------
// Dispute resolution

/// What a resolution reads of the dispute evidence: its identifiers, its
/// evidence references, and whether the dispute evidence itself verified.
#[derive(Debug, Clone)]
pub struct DisputeFacts {
    pub dispute_id: String,
    pub receipt_id: String,
    pub request_id: String,
    pub package_ref: String,
    pub runner_id: String,
    pub evidence_refs: Vec<String>,
    pub verified: bool,
}

/// The resolution of a dispute over a settlement. `amount` is the IEEE 754
/// bit pattern of the settled amount.
#[derive(Debug, Clone)]
pub struct SettlementResolutionV1 {
    pub schema_version: String,
    pub resolution_id: String,
    pub settlement_id: String,
    pub receipt_id: String,
    pub dispute_id: String,
    pub action: SettlementResolutionAction,
    pub previous_status: SettlementStatus,
    pub new_status: SettlementStatus,
    pub amount: u64,
    pub currency: String,
    pub resolved_by: String,
    pub reason: String,
    pub occurred_at: String,
    pub signature: Option<String>,
}

/// What the verification of a settlement resolution found.
#[derive(Debug, Clone)]
pub struct SettlementResolutionVerificationV1 {
    pub schema_version: String,
    pub resolution_id: Option<String>,
    pub valid: bool,
    pub issues: Vec<SettlementVerificationIssueV1>,
    pub warnings: Vec<SettlementVerificationIssueV1>,
    pub expected_signature: Option<String>,
    pub verified_at: String,
}

/// The decision on a requested resolution: its findings and, when there is
/// no issue, the resolution and the settlement as updated by it, both still
/// to be signed (their ids empty, no signature).
#[derive(Debug, Clone)]
pub struct SettlementResolutionDecision {
    pub issues: Vec<SettlementVerificationIssueV1>,
    pub warnings: Vec<SettlementVerificationIssueV1>,
    pub resolution: Option<SettlementResolutionV1>,
    pub updated_settlement: Option<SettlementEventV1>,
}

/// Whether the settlement's status forbids the action: a refunded settlement
/// cannot be disputed again, and only a disputed settlement can be refunded
/// or have its dispute rejected.
pub open spec fn transition_refused(action: SettlementResolutionAction, status: SettlementStatus) -> bool {
    match action {
        SettlementResolutionAction::OpenDispute => status == SettlementStatus::Refunded,
        SettlementResolutionAction::Refund => status != SettlementStatus::Disputed,
        SettlementResolutionAction::RejectDispute => status != SettlementStatus::Disputed,
    }
}

pub open spec fn transition_message(action: SettlementResolutionAction) -> Seq<char> {
    match action {
        SettlementResolutionAction::OpenDispute => "Refunded settlements cannot be disputed again"@,
        SettlementResolutionAction::Refund => "Only disputed settlements can be refunded"@,
        SettlementResolutionAction::RejectDispute => "Only disputed settlements can reject a dispute"@,
    }
}

/// The findings of the resolution rules, in the order they are applied.
pub open spec fn resolution_request_report(
    s: SettlementView,
    d: DisputeFacts,
    action: SettlementResolutionAction,
    resolved_by: Seq<char>,
    reason: Seq<char>,
) -> Report {
    let r = Report::empty();
    let r = r.issue_if(
        !d.verified,
        "$.dispute"@,
        "Dispute evidence must verify before settlement resolution"@,
    );
    let r = r.issue_if(
        d.receipt_id@ != s.receipt_id,
        "$.dispute.receiptId"@,
        "Dispute receiptId must match settlement receiptId"@,
    );
    let r = r.issue_if(
        d.request_id@ != s.request_id,
        "$.dispute.requestId"@,
        "Dispute requestId must match settlement requestId"@,
    );
    let r = r.issue_if(
        d.package_ref@ != s.package_ref,
        "$.dispute.packageRef"@,
        "Dispute packageRef must match settlement packageRef"@,
    );
    let r = r.issue_if(
        d.runner_id@ != s.runner_id,
        "$.dispute.runnerId"@,
        "Dispute runnerId must match settlement runnerId"@,
    );
    let r = r.issue_if(blank(resolved_by), "$.resolvedBy"@, "Settlement resolver is required"@);
    let r = r.warn_if(blank(reason), "$.reason"@, "Settlement resolution reason is empty"@);
    r.issue_if(
        transition_refused(action, s.status),
        "$.settlement.status"@,
        transition_message(action),
    )
}

/// The reference under which a dispute is cited as evidence.
pub open spec fn dispute_ref(dispute_id: Seq<char>) -> Seq<char> {
    "local://dispute/"@ + dispute_id
}

/// The settlement after a resolution moved it to `status` at `now`: the new
/// status and reason, the dispute's evidence and the dispute itself added to
/// its evidence, `createdAt` kept (or set to `now`), `occurredAt` set to
/// `now`, and id and signature cleared for re-signing.
pub open spec fn with_status(
    s: SettlementView,
    status: SettlementStatus,
    reason: Seq<char>,
    d: DisputeFacts,
    now: Seq<char>,
) -> SettlementView {
    SettlementView {
        schema_version: s.schema_version,
        settlement_id: seq![],
        job_id: s.job_id,
        request_id: s.request_id,
        receipt_id: s.receipt_id,
        quote_id: s.quote_id,
        payment_authorization_id: s.payment_authorization_id,
        payment_ref: s.payment_ref,
        package_ref: s.package_ref,
        runner_id: s.runner_id,
        payer: s.payer,
        payee: s.payee,
        amount: s.amount,
        currency: s.currency,
        asset: s.asset,
        status,
        reason: Some(resolution_reason(status, reason)),
        evidence_refs: push_ref(
            merge_refs(s.evidence_refs, d.evidence_refs.deep_view()),
            dispute_ref(d.dispute_id@),
        ),
        created_at: if s.created_at is Some {
            s.created_at
        } else {
            Some(now)
        },
        occurred_at: now,
        receipt_ref: s.receipt_ref,
        signature: None,
    }
}

/// The settlement as a resolution moves it to `status` at `now`, unsigned.
pub fn settlement_with_status(
    settlement: &SettlementEventV1,
    status: SettlementStatus,
    reason: &str,
    dispute: &DisputeFacts,
    now: &str,
) -> (r: SettlementEventV1)
    ensures
        r@ == with_status(settlement@, status, reason@, *dispute, now@),
{
    let mut refs = copy_texts(&settlement.evidence_refs);
    merge_evidence_refs(&mut refs, &dispute.evidence_refs);
    let mut d = String::from_str("local://dispute/");
    d.append(dispute.dispute_id.as_str());
    push_evidence_ref(&mut refs, d.as_str());
    let created_at = match &settlement.created_at {
        Some(c) => Some(c.clone()),
        None => Some(String::from_str(now)),
    };
    SettlementEventV1 {
        schema_version: settlement.schema_version.clone(),
        settlement_id: String::new(),
        job_id: copy_opt(&settlement.job_id),
        request_id: settlement.request_id.clone(),
        receipt_id: settlement.receipt_id.clone(),
        quote_id: copy_opt(&settlement.quote_id),
        payment_authorization_id: copy_opt(&settlement.payment_authorization_id),
        payment_ref: copy_opt(&settlement.payment_ref),
        package_ref: settlement.package_ref.clone(),
        runner_id: settlement.runner_id.clone(),
        payer: settlement.payer.clone(),
        payee: settlement.payee.clone(),
        amount: settlement.amount,
        currency: settlement.currency.clone(),
        asset: copy_opt(&settlement.asset),
        status,
        reason: Some(settlement_resolution_reason(status, reason)),
        evidence_refs: refs,
        created_at,
        occurred_at: String::from_str(now),
        receipt_ref: copy_opt(&settlement.receipt_ref),
        signature: None,
    }
}

/// The resolution recorded when a request passes, unsigned.
pub open spec fn resolution_of(
    s: SettlementView,
    d: DisputeFacts,
    action: SettlementResolutionAction,
    new_status: SettlementStatus,
    resolved_by: Seq<char>,
    reason: Seq<char>,
    now: Seq<char>,
) -> ResolutionView {
    ResolutionView {
        schema_version: SETTLEMENT_RESOLUTION_SCHEMA_VERSION@,
        resolution_id: seq![],
        settlement_id: s.settlement_id,
        receipt_id: s.receipt_id,
        dispute_id: d.dispute_id@,
        action,
        previous_status: s.status,
        new_status,
        amount: s.amount,
        currency: s.currency,
        resolved_by,
        reason,
        occurred_at: now,
        signature: None,
    }
}

/// A resolution as texts and values.
pub struct ResolutionView {
    pub schema_version: Seq<char>,
    pub resolution_id: Seq<char>,
    pub settlement_id: Seq<char>,
    pub receipt_id: Seq<char>,
    pub dispute_id: Seq<char>,
    pub action: SettlementResolutionAction,
    pub previous_status: SettlementStatus,
    pub new_status: SettlementStatus,
    pub amount: u64,
    pub currency: Seq<char>,
    pub resolved_by: Seq<char>,
    pub reason: Seq<char>,
    pub occurred_at: Seq<char>,
    pub signature: Option<Seq<char>>,
}

impl View for SettlementResolutionV1 {
    type V = ResolutionView;

    open spec fn view(&self) -> ResolutionView {
        ResolutionView {
            schema_version: self.schema_version@,
            resolution_id: self.resolution_id@,
            settlement_id: self.settlement_id@,
            receipt_id: self.receipt_id@,
            dispute_id: self.dispute_id@,
            action: self.action,
            previous_status: self.previous_status,
            new_status: self.new_status,
            amount: self.amount,
            currency: self.currency@,
            resolved_by: self.resolved_by@,
            reason: self.reason@,
            occurred_at: self.occurred_at@,
            signature: opt_view(self.signature),
        }
    }
}

fn resolution_request_findings(
    s: &SettlementEventV1,
    d: &DisputeFacts,
    action: SettlementResolutionAction,
    resolved_by: &str,
    reason: &str,
) -> (f: Findings)
    ensures
        f@ == resolution_request_report(s@, *d, action, resolved_by@, reason@),
{
    let mut f = Findings::new();
    f.issue_if(!d.verified, "$.dispute", "Dispute evidence must verify before settlement resolution");
    f.issue_if(
        !text_eq(d.receipt_id.as_str(), s.receipt_id.as_str()),
        "$.dispute.receiptId",
        "Dispute receiptId must match settlement receiptId",
    );
    f.issue_if(
        !text_eq(d.request_id.as_str(), s.request_id.as_str()),
        "$.dispute.requestId",
        "Dispute requestId must match settlement requestId",
    );
    f.issue_if(
        !text_eq(d.package_ref.as_str(), s.package_ref.as_str()),
        "$.dispute.packageRef",
        "Dispute packageRef must match settlement packageRef",
    );
    f.issue_if(
        !text_eq(d.runner_id.as_str(), s.runner_id.as_str()),
        "$.dispute.runnerId",
        "Dispute runnerId must match settlement runnerId",
    );
    f.required(resolved_by, "$.resolvedBy", "Settlement resolver is required");
    let reason_blank = is_blank(reason);
    f.warn_if(reason_blank, "$.reason", "Settlement resolution reason is empty");
    match action {
        SettlementResolutionAction::OpenDispute => f.issue_if(
            s.status == SettlementStatus::Refunded,
            "$.settlement.status",
            "Refunded settlements cannot be disputed again",
        ),
        SettlementResolutionAction::Refund => f.issue_if(
            s.status != SettlementStatus::Disputed,
            "$.settlement.status",
            "Only disputed settlements can be refunded",
        ),
        SettlementResolutionAction::RejectDispute => f.issue_if(
            s.status != SettlementStatus::Disputed,
            "$.settlement.status",
            "Only disputed settlements can reject a dispute",
        ),
    }
    f
}

/// Decides a requested resolution of a settlement: the dispute must have
/// verified and concern the settlement's receipt, request, package and
/// runner, a resolver must be named, and the settlement's status must allow
/// the action. When nothing is at issue, the resolution (from the
/// settlement's status to `new_status`, at `now`) and the updated settlement
/// are returned, unsigned.
pub fn resolve_settlement(
    settlement: &SettlementEventV1,
    dispute: &DisputeFacts,
    action: SettlementResolutionAction,
    new_status: SettlementStatus,
    resolved_by: String,
    reason: String,
    now: String,
) -> (r: SettlementResolutionDecision)
    ensures
        settlement_issues_view(r.issues@) == resolution_request_report(
            settlement@,
            *dispute,
            action,
            resolved_by@,
            reason@,
        ).issues,
        settlement_issues_view(r.warnings@) == resolution_request_report(
            settlement@,
            *dispute,
            action,
            resolved_by@,
            reason@,
        ).warnings,
        r.issues.len() == 0 <==> r.resolution is Some,
        r.resolution is Some <==> r.updated_settlement is Some,
        r.resolution matches Some(res) ==> res@ == resolution_of(
            settlement@,
            *dispute,
            action,
            new_status,
            resolved_by@,
            reason@,
            now@,
        ),
        r.updated_settlement matches Some(u) ==> u@ == with_status(
            settlement@,
            new_status,
            reason@,
            *dispute,
            now@,
        ),
{
    let f = resolution_request_findings(settlement, dispute, action, resolved_by.as_str(), reason.as_str());
    let valid = f.is_valid();
    let (resolution, updated) = if valid {
        let updated = settlement_with_status(settlement, new_status, reason.as_str(), dispute, now.as_str());
        let resolution = SettlementResolutionV1 {
            schema_version: String::from_str(SETTLEMENT_RESOLUTION_SCHEMA_VERSION),
            resolution_id: String::new(),
            settlement_id: settlement.settlement_id.clone(),
            receipt_id: settlement.receipt_id.clone(),
            dispute_id: dispute.dispute_id.clone(),
            action,
            previous_status: settlement.status,
            new_status,
            amount: settlement.amount,
            currency: settlement.currency.clone(),
            resolved_by,
            reason,
            occurred_at: now,
            signature: None,
        };
        (Some(resolution), Some(updated))
    } else {
        (None, None)
    };
    SettlementResolutionDecision {
        issues: as_settlement_issues(f.issues),
        warnings: as_settlement_issues(f.warnings),
        resolution,
        updated_settlement: updated,
    }
}

/// Opens a dispute over a settlement: the settlement moves to `Disputed`.
pub fn open_settlement_dispute(
    settlement: &SettlementEventV1,
    dispute: &DisputeFacts,
    resolved_by: String,
    reason: String,
    now: String,
) -> (r: SettlementResolutionDecision)
    ensures
        settlement_issues_view(r.issues@) == resolution_request_report(
            settlement@,
            *dispute,
            SettlementResolutionAction::OpenDispute,
            resolved_by@,
            reason@,
        ).issues,
        settlement_issues_view(r.warnings@) == resolution_request_report(
            settlement@,
            *dispute,
            SettlementResolutionAction::OpenDispute,
            resolved_by@,
            reason@,
        ).warnings,
        r.issues.len() == 0 <==> r.resolution is Some,
        r.resolution is Some <==> r.updated_settlement is Some,
        r.resolution matches Some(res) ==> res@ == resolution_of(
            settlement@,
            *dispute,
            SettlementResolutionAction::OpenDispute,
            SettlementStatus::Disputed,
            resolved_by@,
            reason@,
            now@,
        ),
        r.updated_settlement matches Some(u) ==> u@ == with_status(
            settlement@,
            SettlementStatus::Disputed,
            reason@,
            *dispute,
            now@,
        ),
{
    resolve_settlement(
        settlement,
        dispute,
        SettlementResolutionAction::OpenDispute,
        SettlementStatus::Disputed,
        resolved_by,
        reason,
        now,
    )
}

/// Refunds a disputed settlement: the settlement moves to `Refunded`.
pub fn refund_settlement(
    settlement: &SettlementEventV1,
    dispute: &DisputeFacts,
    resolved_by: String,
    reason: String,
    now: String,
) -> (r: SettlementResolutionDecision)
    ensures
        settlement_issues_view(r.issues@) == resolution_request_report(
            settlement@,
            *dispute,
            SettlementResolutionAction::Refund,
            resolved_by@,
            reason@,
        ).issues,
        settlement_issues_view(r.warnings@) == resolution_request_report(
            settlement@,
            *dispute,
            SettlementResolutionAction::Refund,
            resolved_by@,
            reason@,
        ).warnings,
        r.issues.len() == 0 <==> r.resolution is Some,
        r.resolution is Some <==> r.updated_settlement is Some,
        r.resolution matches Some(res) ==> res@ == resolution_of(
            settlement@,
            *dispute,
            SettlementResolutionAction::Refund,
            SettlementStatus::Refunded,
            resolved_by@,
            reason@,
            now@,
        ),
        r.updated_settlement matches Some(u) ==> u@ == with_status(
            settlement@,
            SettlementStatus::Refunded,
            reason@,
            *dispute,
            now@,
        ),
{
    resolve_settlement(
        settlement,
        dispute,
        SettlementResolutionAction::Refund,
        SettlementStatus::Refunded,
        resolved_by,
        reason,
        now,
    )
}

/// Rejects the dispute over a disputed settlement: the settlement moves to
/// `DisputeRejected`.
pub fn reject_settlement_dispute(
    settlement: &SettlementEventV1,
    dispute: &DisputeFacts,
    resolved_by: String,
    reason: String,
    now: String,
) -> (r: SettlementResolutionDecision)
    ensures
        settlement_issues_view(r.issues@) == resolution_request_report(
            settlement@,
            *dispute,
            SettlementResolutionAction::RejectDispute,
            resolved_by@,
            reason@,
        ).issues,
        settlement_issues_view(r.warnings@) == resolution_request_report(
            settlement@,
            *dispute,
            SettlementResolutionAction::RejectDispute,
            resolved_by@,
            reason@,
        ).warnings,
        r.issues.len() == 0 <==> r.resolution is Some,
        r.resolution is Some <==> r.updated_settlement is Some,
        r.resolution matches Some(res) ==> res@ == resolution_of(
            settlement@,
            *dispute,
            SettlementResolutionAction::RejectDispute,
            SettlementStatus::DisputeRejected,
            resolved_by@,
            reason@,
            now@,
        ),
        r.updated_settlement matches Some(u) ==> u@ == with_status(
            settlement@,
            SettlementStatus::DisputeRejected,
            reason@,
            *dispute,
            now@,
        ),
{
    resolve_settlement(
        settlement,
        dispute,
        SettlementResolutionAction::RejectDispute,
        SettlementStatus::DisputeRejected,
        resolved_by,
        reason,
        now,
    )
}

/// The findings of the settlement resolution rules, in the order they are
/// applied.
pub open spec fn resolution_report(v: ResolutionView, c: SignedContent) -> Report {
    let r = Report::empty();
    let r = r.issue_if(
        v.schema_version != SETTLEMENT_RESOLUTION_SCHEMA_VERSION@,
        "$.schemaVersion"@,
        "Expected schemaVersion to be swarm-ai.settlement-resolution.v1"@,
    );
    let r = r.record_id(
        v.resolution_id,
        v.signature,
        c.canonical_id@,
        "$.resolutionId"@,
        "Settlement resolution id is required"@,
        "Settlement resolution id does not match canonical signed content"@,
    );
    let r = r.issue_if(blank(v.settlement_id), "$.settlementId"@, "Settlement id is required"@);
    let r = r.issue_if(blank(v.receipt_id), "$.receiptId"@, "Receipt id is required"@);
    let r = r.issue_if(blank(v.dispute_id), "$.disputeId"@, "Dispute id is required"@);
    let r = r.issue_if(blank(v.resolved_by), "$.resolvedBy"@, "Resolver is required"@);
    let r = r.issue_if(blank(v.currency), "$.currency"@, "Currency is required"@);
    let r = r.warn_if(blank(v.reason), "$.reason"@, "Settlement resolution reason is empty"@);
    let r = r.issue_if(lt_zero(v.amount), "$.amount"@, "Amount must not be negative"@);
    let r = r.issue_if(
        rfc3339_instant(v.occurred_at) is None,
        "$.occurredAt"@,
        "Settlement resolution timestamp must be RFC3339"@,
    );
    r.signature(
        v.signature,
        c.dev_signature@,
        identity_view(c.identity_check),
        "Settlement resolution signature does not match canonical dev signature or Ed25519 identity envelope"@,
        "Settlement resolution is unsigned; verify resolutionId through a trusted source"@,
    )
}

/// Checks a settlement resolution against its rules. `content` carries the
/// canonical id and development signature of the resolution's signing value
/// and, for an identity-enveloped signature, the envelope check (signed by
/// the resolver); `verified_at` is the time of the check.
pub fn verify_settlement_resolution(
    resolution: &SettlementResolutionV1,
    content: &SignedContent,
    verified_at: String,
) -> (r: SettlementResolutionVerificationV1)
    ensures
        r.schema_version@ == SETTLEMENT_RESOLUTION_VERIFICATION_SCHEMA_VERSION@,
        r.resolution_id matches Some(id) && id@ == resolution.resolution_id@,
        settlement_issues_view(r.issues@) == resolution_report(resolution@, *content).issues,
        settlement_issues_view(r.warnings@) == resolution_report(resolution@, *content).warnings,
        r.valid == resolution_report(resolution@, *content).valid(),
        r.expected_signature matches Some(e) && e@ == expected_signature(
            opt_view(resolution.signature),
            content.dev_signature@,
            identity_view(content.identity_check),
        ),
        r.verified_at@ == verified_at@,
{
    let v = resolution;
    let mut f = Findings::new();
    f.issue_if(
        !text_eq(v.schema_version.as_str(), SETTLEMENT_RESOLUTION_SCHEMA_VERSION),
        "$.schemaVersion",
        "Expected schemaVersion to be swarm-ai.settlement-resolution.v1",
    );
    f.record_id(
        v.resolution_id.as_str(),
        &v.signature,
        content.canonical_id.as_str(),
        "$.resolutionId",
        "Settlement resolution id is required",
        "Settlement resolution id does not match canonical signed content",
    );
    f.required(v.settlement_id.as_str(), "$.settlementId", "Settlement id is required");
    f.required(v.receipt_id.as_str(), "$.receiptId", "Receipt id is required");
    f.required(v.dispute_id.as_str(), "$.disputeId", "Dispute id is required");
    f.required(v.resolved_by.as_str(), "$.resolvedBy", "Resolver is required");
    f.required(v.currency.as_str(), "$.currency", "Currency is required");
    let reason_blank = is_blank(v.reason.as_str());
    f.warn_if(reason_blank, "$.reason", "Settlement resolution reason is empty");
    f.issue_if(f64_lt_zero(v.amount), "$.amount", "Amount must not be negative");
    f.issue_if(
        parse_rfc3339(v.occurred_at.as_str()).is_none(),
        "$.occurredAt",
        "Settlement resolution timestamp must be RFC3339",
    );
    let expected = f.signature(
        &v.signature,
        content,
        "Settlement resolution signature does not match canonical dev signature or Ed25519 identity envelope",
        "Settlement resolution is unsigned; verify resolutionId through a trusted source",
    );
    let valid = f.is_valid();
    SettlementResolutionVerificationV1 {
        schema_version: String::from_str(SETTLEMENT_RESOLUTION_VERIFICATION_SCHEMA_VERSION),
        resolution_id: Some(v.resolution_id.clone()),
        valid,
        issues: as_settlement_issues(f.issues),
        warnings: as_settlement_issues(f.warnings),
        expected_signature: Some(expected),
        verified_at,
    }
}

/// A resolution passes only where the settlement's status allows its action:
/// only a disputed settlement is refunded or has its dispute rejected, and a
/// refunded settlement is never disputed again. It also passes only for a
/// verified dispute about the settlement's own receipt, request, package and
/// runner, with a named resolver.
pub proof fn lemma_resolution_preconditions(
    s: SettlementView,
    d: DisputeFacts,
    action: SettlementResolutionAction,
    resolved_by: Seq<char>,
    reason: Seq<char>,
)
    requires
        resolution_request_report(s, d, action, resolved_by, reason).valid(),
    ensures
        action == SettlementResolutionAction::Refund ==> s.status == SettlementStatus::Disputed,
        action == SettlementResolutionAction::RejectDispute ==> s.status
            == SettlementStatus::Disputed,
        action == SettlementResolutionAction::OpenDispute ==> s.status
            != SettlementStatus::Refunded,
        d.verified,
        d.receipt_id@ == s.receipt_id,
        d.request_id@ == s.request_id,
        d.package_ref@ == s.package_ref,
        d.runner_id@ == s.runner_id,
        !blank(resolved_by),
{
}

/// A refund is final: once a resolution has refunded a settlement, no dispute
/// can be opened over the refunded settlement, nor can it be refunded or have
/// a dispute rejected again.
pub proof fn lemma_refunded_settlement_is_final(
    s: SettlementView,
    d: DisputeFacts,
    reason: Seq<char>,
    now: Seq<char>,
    d2: DisputeFacts,
    action: SettlementResolutionAction,
    resolved_by2: Seq<char>,
    reason2: Seq<char>,
)
    ensures
        !resolution_request_report(
            with_status(s, SettlementStatus::Refunded, reason, d, now),
            d2,
            action,
            resolved_by2,
            reason2,
        ).valid(),
{
    let u = with_status(s, SettlementStatus::Refunded, reason, d, now);
    let r = resolution_request_report(u, d2, action, resolved_by2, reason2);
    assert(transition_refused(action, u.status));
}

/// The updated settlement keeps every evidence reference it had, in place,
/// cites the dispute and the dispute's non-blank evidence, and lists no
/// reference twice where the settlement listed none twice.
pub proof fn lemma_updated_settlement_evidence(
    s: SettlementView,
    status: SettlementStatus,
    reason: Seq<char>,
    d: DisputeFacts,
    now: Seq<char>,
)
    ensures
        ({
            let u = with_status(s, status, reason, d, now);
            &&& u.status == status
            &&& forall|i: int| 0 <= i < s.evidence_refs.len() ==> #[trigger] u.evidence_refs[i] == s.evidence_refs[i]
            &&& u.evidence_refs.contains(trimmed(dispute_ref(d.dispute_id@)))
            &&& forall|k: int| 0 <= k < d.evidence_refs.deep_view().len() && !blank(#[trigger] d.evidence_refs.deep_view()[k])
                ==> u.evidence_refs.contains(trimmed(d.evidence_refs.deep_view()[k]))
            &&& distinct_refs(s.evidence_refs) ==> distinct_refs(u.evidence_refs)
        }),
{
    let merged = merge_refs(s.evidence_refs, d.evidence_refs.deep_view());
    lemma_merge_refs(s.evidence_refs, d.evidence_refs.deep_view());
    let r = dispute_ref(d.dispute_id@);
    lemma_push_ref(merged, r);
    let u = with_status(s, status, reason, d, now);
    assert(!blank(r)) by {
        reveal_strlit("local://dispute/");
        assert(r[0] == 'l');
    }
    assert forall|k: int| 0 <= k < d.evidence_refs.deep_view().len() && !blank(#[trigger] d.evidence_refs.deep_view()[k])
        implies u.evidence_refs.contains(trimmed(d.evidence_refs.deep_view()[k])) by {
        let t = trimmed(d.evidence_refs.deep_view()[k]);
        assert(merged.contains(t));
        let j = choose|j: int| 0 <= j < merged.len() && merged[j] == t;
        assert(u.evidence_refs[j] == t);
    }
    assert forall|i: int| 0 <= i < s.evidence_refs.len() implies #[trigger] u.evidence_refs[i] == s.evidence_refs[i] by {
        assert(merged[i] == s.evidence_refs[i]);
    }
}


/// The identity envelope of a SettlementEventV1's signature: context `settlement-event`, signed by
/// its payee.
pub fn settlement_event_envelope(settlement: &SettlementEventV1) -> (r: EnvelopeSubject)
    ensures
        r.context@ == "settlement-event"@,
        opt_view(r.signer) == Some(settlement.payee@),
{
    envelope_subject("settlement-event", settlement.payee.as_str())
}

/// The identity envelope of a SettlementResolutionV1's signature: context `settlement-resolution`, signed by
/// whoever resolved the dispute.
pub fn settlement_resolution_envelope(resolution: &SettlementResolutionV1) -> (r: EnvelopeSubject)
    ensures
        r.context@ == "settlement-resolution"@,
        opt_view(r.signer) == Some(resolution.resolved_by@),
{
    envelope_subject("settlement-resolution", resolution.resolved_by.as_str())
}


/// Puts on a SettlementEventV1 a signature that `subject` made over its signed content,
/// with `settlement_id` the canonical id of that content: refused, leaving the record
/// unchanged, when `subject` is not the record's payee.
pub fn seal_settlement_event(settlement: &mut SettlementEventV1, subject: &str, settlement_id: String, signature: String) -> (ok: bool)
    ensures
        ok == (subject@ == old(settlement).payee@),
        ok ==> *final(settlement) == (SettlementEventV1 { settlement_id, signature: Some(signature), ..*old(settlement) }),
        !ok ==> *final(settlement) == *old(settlement),
{
    if !text_eq(subject, settlement.payee.as_str()) {
        return false;
    }
    settlement.settlement_id = settlement_id;
    settlement.signature = Some(signature);
    true
}

/// Puts on a SettlementResolutionV1 a signature that `subject` made over its signed content,
/// with `resolution_id` the canonical id of that content: refused, leaving the record
/// unchanged, when `subject` is not the record's resolver.
pub fn seal_settlement_resolution(resolution: &mut SettlementResolutionV1, subject: &str, resolution_id: String, signature: String) -> (ok: bool)
    ensures
        ok == (subject@ == old(resolution).resolved_by@),
        ok ==> *final(resolution) == (SettlementResolutionV1 { resolution_id, signature: Some(signature), ..*old(resolution) }),
        !ok ==> *final(resolution) == *old(resolution),
{
    if !text_eq(subject, resolution.resolved_by.as_str()) {
        return false;
    }
    resolution.resolution_id = resolution_id;
    resolution.signature = Some(signature);
    true
}

} // verus!
