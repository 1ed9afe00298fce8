//! Findings of a record check: blocking issues and advisory warnings, each a
//! JSON path and a message, in the order the rules are applied.
use crate::text::{is_settlement_receipt_ref, settlement_receipt_ref, lemma_trimmed_empty, signature_issue_path, signature_path, text_eq, trim, trimmed, blank, decimal, is_blank, looks_like_marketplace_ref, marketplace_ref, push_decimal};
use vstd::prelude::*;

verus! {

/// A finding: the JSON path it concerns and what is wrong there.
#[derive(Debug, Clone, PartialEq, Eq)]
pub struct MarketplaceVerificationIssueV1 {
    pub path: String,
    pub message: String,
}

/// A finding as a pair of texts: path, message.
pub type IssueView = (Seq<char>, Seq<char>);

impl View for MarketplaceVerificationIssueV1 {
    type V = IssueView;

    open spec fn view(&self) -> IssueView {
        (self.path@, self.message@)
    }
}

pub open spec fn issues_view(s: Seq<MarketplaceVerificationIssueV1>) -> Seq<IssueView> {
    s.map_values(|i: MarketplaceVerificationIssueV1| i@)
}

/// The findings of a check so far, as texts.
pub struct Report {
    pub issues: Seq<IssueView>,
    pub warnings: Seq<IssueView>,
}

/// `prefix{index}suffix`, the path of an element of a list field.
pub open spec fn indexed(prefix: Seq<char>, index: int, suffix: Seq<char>) -> Seq<char> {
    prefix + decimal(index as nat) + suffix
}

impl Report {
    pub open spec fn empty() -> Report {
        Report { issues: seq![], warnings: seq![] }
    }

    pub open spec fn valid(self) -> bool {
        self.issues.len() == 0
    }

    /// Records an issue when `c` holds.
    pub open spec fn issue_if(self, c: bool, path: Seq<char>, message: Seq<char>) -> Report {
        if c {
            Report { issues: self.issues.push((path, message)), warnings: self.warnings }
        } else {
            self
        }
    }

    /// Records a warning when `c` holds.
    pub open spec fn warn_if(self, c: bool, path: Seq<char>, message: Seq<char>) -> Report {
        if c {
            Report { issues: self.issues, warnings: self.warnings.push((path, message)) }
        } else {
            self
        }
    }

    /// A reference that must be present: blank is an issue, an unrecognised
    /// scheme a warning.
    pub open spec fn reference(
        self,
        value: Seq<char>,
        path: Seq<char>,
        blank_message: Seq<char>,
        scheme_message: Seq<char>,
    ) -> Report {
        if blank(value) {
            self.issue_if(true, path, blank_message)
        } else {
            self.warn_if(!marketplace_ref(value), path, scheme_message)
        }
    }

    /// A reference that may be absent; when present it is checked as above.
    pub open spec fn optional_reference(
        self,
        value: Option<Seq<char>>,
        path: Seq<char>,
        blank_message: Seq<char>,
        scheme_message: Seq<char>,
    ) -> Report {
        match value {
            Some(v) => self.reference(v, path, blank_message, scheme_message),
            None => self,
        }
    }

    /// The first `n` elements of a reference list, each checked as a reference
    /// at `prefix{index}suffix`.
    pub open spec fn references_upto(
        self,
        values: Seq<Seq<char>>,
        n: nat,
        prefix: Seq<char>,
        suffix: Seq<char>,
        blank_message: Seq<char>,
        scheme_message: Seq<char>,
    ) -> Report
        decreases n,
    {
        if n == 0 {
            self
        } else {
            let before = self.references_upto(
                values,
                (n - 1) as nat,
                prefix,
                suffix,
                blank_message,
                scheme_message,
            );
            before.reference(
                values[n - 1],
                indexed(prefix, n - 1, suffix),
                blank_message,
                scheme_message,
            )
        }
    }

    pub open spec fn references(
        self,
        values: Seq<Seq<char>>,
        prefix: Seq<char>,
        suffix: Seq<char>,
        blank_message: Seq<char>,
        scheme_message: Seq<char>,
    ) -> Report {
        self.references_upto(values, values.len(), prefix, suffix, blank_message, scheme_message)
    }

    /// The first `n` elements of a text list; a blank element is an issue at
    /// `prefix{index}suffix`.
    pub open spec fn nonblank_upto(
        self,
        values: Seq<Seq<char>>,
        n: nat,
        prefix: Seq<char>,
        suffix: Seq<char>,
        message: Seq<char>,
    ) -> Report
        decreases n,
    {
        if n == 0 {
            self
        } else {
            self.nonblank_upto(values, (n - 1) as nat, prefix, suffix, message).issue_if(
                blank(values[n - 1]),
                indexed(prefix, n - 1, suffix),
                message,
            )
        }
    }

    pub open spec fn nonblank_each(
        self,
        values: Seq<Seq<char>>,
        prefix: Seq<char>,
        suffix: Seq<char>,
        message: Seq<char>,
    ) -> Report {
        self.nonblank_upto(values, values.len(), prefix, suffix, message)
    }
}

impl Report {
    /// A reference that must be present and should be a receipt reference
    /// (`bzz://` or `local://`): blank is an issue, another shape a warning.
    pub open spec fn receipt_reference(
        self,
        value: Seq<char>,
        path: Seq<char>,
        blank_message: Seq<char>,
        scheme_message: Seq<char>,
    ) -> Report {
        if blank(value) {
            self.issue_if(true, path, blank_message)
        } else {
            self.warn_if(!settlement_receipt_ref(value), path, scheme_message)
        }
    }

    pub open spec fn receipt_references_upto(
        self,
        values: Seq<Seq<char>>,
        n: nat,
        prefix: Seq<char>,
        suffix: Seq<char>,
        blank_message: Seq<char>,
        scheme_message: Seq<char>,
    ) -> Report
        decreases n,
    {
        if n == 0 {
            self
        } else {
            let before = self.receipt_references_upto(
                values,
                (n - 1) as nat,
                prefix,
                suffix,
                blank_message,
                scheme_message,
            );
            before.receipt_reference(
                values[n - 1],
                indexed(prefix, n - 1, suffix),
                blank_message,
                scheme_message,
            )
        }
    }

    /// Each element of a list checked as a receipt reference at
    /// `prefix{index}suffix`.
    pub open spec fn receipt_references(
        self,
        values: Seq<Seq<char>>,
        prefix: Seq<char>,
        suffix: Seq<char>,
        blank_message: Seq<char>,
        scheme_message: Seq<char>,
    ) -> Report {
        self.receipt_references_upto(values, values.len(), prefix, suffix, blank_message, scheme_message)
    }
}

/// An issue rule adds one issue when its condition holds and none otherwise;
/// a warning rule adds no issue.
pub proof fn lemma_issue_count(r: Report, c: bool, path: Seq<char>, message: Seq<char>)
    ensures
        r.issue_if(c, path, message).issues.len() == r.issues.len() + if c { 1int } else { 0int },
        r.warn_if(c, path, message).issues.len() == r.issues.len(),
{
}

/// `later` keeps every issue of `earlier`, in place, and may add more after
/// them: rules only ever append findings.
pub open spec fn keeps_issues(earlier: Report, later: Report) -> bool {
    &&& earlier.issues.len() <= later.issues.len()
    &&& forall|i: int| 0 <= i < earlier.issues.len() ==> #[trigger] later.issues[i] == earlier.issues[i]
}

/// A list of references only appends findings.
pub broadcast proof fn lemma_references_keep(
    r: Report,
    values: Seq<Seq<char>>,
    n: nat,
    prefix: Seq<char>,
    suffix: Seq<char>,
    blank_message: Seq<char>,
    scheme_message: Seq<char>,
)
    ensures
        keeps_issues(
            r,
            #[trigger] r.references_upto(values, n, prefix, suffix, blank_message, scheme_message),
        ),
    decreases n,
{
    if n > 0 {
        lemma_references_keep(r, values, (n - 1) as nat, prefix, suffix, blank_message, scheme_message);
    }
}

/// A list of receipt references only appends findings.
pub broadcast proof fn lemma_receipt_references_keep(
    r: Report,
    values: Seq<Seq<char>>,
    n: nat,
    prefix: Seq<char>,
    suffix: Seq<char>,
    blank_message: Seq<char>,
    scheme_message: Seq<char>,
)
    ensures
        keeps_issues(
            r,
            #[trigger] r.receipt_references_upto(
                values,
                n,
                prefix,
                suffix,
                blank_message,
                scheme_message,
            ),
        ),
    decreases n,
{
    if n > 0 {
        lemma_receipt_references_keep(
            r,
            values,
            (n - 1) as nat,
            prefix,
            suffix,
            blank_message,
            scheme_message,
        );
    }
}

/// A list of required texts only appends findings.
pub broadcast proof fn lemma_nonblank_keep(
    r: Report,
    values: Seq<Seq<char>>,
    n: nat,
    prefix: Seq<char>,
    suffix: Seq<char>,
    message: Seq<char>,
)
    ensures
        keeps_issues(r, #[trigger] r.nonblank_upto(values, n, prefix, suffix, message)),
    decreases n,
{
    if n > 0 {
        lemma_nonblank_keep(r, values, (n - 1) as nat, prefix, suffix, message);
    }
}

/// Issues and warnings gathered by a check.
pub struct Findings {
    pub issues: Vec<MarketplaceVerificationIssueV1>,
    pub warnings: Vec<MarketplaceVerificationIssueV1>,
}

impl View for Findings {
    type V = Report;

    open spec fn view(&self) -> Report {
        Report { issues: issues_view(self.issues@), warnings: issues_view(self.warnings@) }
    }
}

/// Builds a finding from its path and message.
pub fn marketplace_issue(path: String, message: &str) -> (r: MarketplaceVerificationIssueV1)
    ensures
        r@ == (path@, message@),
{
    MarketplaceVerificationIssueV1 { path, message: String::from_str(message) }
}

/// Builds the path `prefix{index}suffix`.
pub fn indexed_path(prefix: &str, index: usize, suffix: &str) -> (r: String)
    ensures
        r@ == indexed(prefix@, index as int, suffix@),
{
    let mut s = String::from_str(prefix);
    push_decimal(&mut s, index);
    s.append(suffix);
    s
}

impl Findings {
    pub fn new() -> (r: Findings)
        ensures
            r@ == Report::empty(),
    {
        let r = Findings { issues: Vec::new(), warnings: Vec::new() };
        assert(r@.issues =~= seq![]);
        assert(r@.warnings =~= seq![]);
        r
    }

    pub fn is_valid(&self) -> (r: bool)
        ensures
            r == self@.valid(),
    {
        self.issues.len() == 0
    }

    pub fn push_issue(&mut self, path: String, message: &str)
        ensures
            final(self)@ == old(self)@.issue_if(true, path@, message@),
    {
        self.issues.push(marketplace_issue(path, message));
        assert(issues_view(self.issues@) =~= old(self)@.issues.push((path@, message@)));
    }

    pub fn push_warning(&mut self, path: String, message: &str)
        ensures
            final(self)@ == old(self)@.warn_if(true, path@, message@),
    {
        self.warnings.push(marketplace_issue(path, message));
        assert(issues_view(self.warnings@) =~= old(self)@.warnings.push((path@, message@)));
    }

    pub fn issue_if(&mut self, c: bool, path: &str, message: &str)
        ensures
            final(self)@ == old(self)@.issue_if(c, path@, message@),
    {
        if c {
            self.push_issue(String::from_str(path), message);
        }
    }

    pub fn warn_if(&mut self, c: bool, path: &str, message: &str)
        ensures
            final(self)@ == old(self)@.warn_if(c, path@, message@),
    {
        if c {
            self.push_warning(String::from_str(path), message);
        }
    }

    /// Issue when `value` is blank.
    pub fn required(&mut self, value: &str, path: &str, message: &str)
        ensures
            final(self)@ == old(self)@.issue_if(blank(value@), path@, message@),
    {
        let b = is_blank(value);
        self.issue_if(b, path, message);
    }

    fn reference_at(
        &mut self,
        value: &str,
        path: String,
        blank_message: &str,
        scheme_message: &str,
    )
        ensures
            final(self)@ == old(self)@.reference(value@, path@, blank_message@, scheme_message@),
    {
        if is_blank(value) {
            self.push_issue(path, blank_message);
        } else if !looks_like_marketplace_ref(value) {
            self.push_warning(path, scheme_message);
        }
    }

    pub fn reference(&mut self, value: &str, path: &str, blank_message: &str, scheme_message: &str)
        ensures
            final(self)@ == old(self)@.reference(value@, path@, blank_message@, scheme_message@),
    {
        self.reference_at(value, String::from_str(path), blank_message, scheme_message);
    }

    pub fn optional_reference(
        &mut self,
        value: &Option<String>,
        path: &str,
        blank_message: &str,
        scheme_message: &str,
    )
        ensures
            final(self)@ == old(self)@.optional_reference(
                opt_view(*value),
                path@,
                blank_message@,
                scheme_message@,
            ),
    {
        match value {
            Some(v) => self.reference(v.as_str(), path, blank_message, scheme_message),
            None => {},
        }
    }

    pub fn references(
        &mut self,
        values: &Vec<String>,
        prefix: &str,
        suffix: &str,
        blank_message: &str,
        scheme_message: &str,
    )
        ensures
            final(self)@ == old(self)@.references(
                values.deep_view(),
                prefix@,
                suffix@,
                blank_message@,
                scheme_message@,
            ),
    {
        let ghost start = self@;
        let mut i: usize = 0;
        while i < values.len()
            invariant
                i <= values.len(),
                self@ == start.references_upto(
                    values.deep_view(),
                    i as nat,
                    prefix@,
                    suffix@,
                    blank_message@,
                    scheme_message@,
                ),
            decreases values.len() - i,
        {
            let path = indexed_path(prefix, i, suffix);
            assert(values.deep_view()[i as int] == values@[i as int]@);
            self.reference_at(values[i].as_str(), path, blank_message, scheme_message);
            i = i + 1;
        }
    }

    pub fn receipt_references(
        &mut self,
        values: &Vec<String>,
        prefix: &str,
        suffix: &str,
        blank_message: &str,
        scheme_message: &str,
    )
        ensures
            final(self)@ == old(self)@.receipt_references(
                values.deep_view(),
                prefix@,
                suffix@,
                blank_message@,
                scheme_message@,
            ),
    {
        let ghost start = self@;
        let mut i: usize = 0;
        while i < values.len()
            invariant
                i <= values.len(),
                self@ == start.receipt_references_upto(
                    values.deep_view(),
                    i as nat,
                    prefix@,
                    suffix@,
                    blank_message@,
                    scheme_message@,
                ),
            decreases values.len() - i,
        {
            let path = indexed_path(prefix, i, suffix);
            assert(values.deep_view()[i as int] == values@[i as int]@);
            let v = values[i].as_str();
            if is_blank(v) {
                self.push_issue(path, blank_message);
            } else if !is_settlement_receipt_ref(v) {
                self.push_warning(path, scheme_message);
            }
            i = i + 1;
        }
    }

    pub fn nonblank_each(
        &mut self,
        values: &Vec<String>,
        prefix: &str,
        suffix: &str,
        message: &str,
    )
        ensures
            final(self)@ == old(self)@.nonblank_each(values.deep_view(), prefix@, suffix@, message@),
    {
        let ghost start = self@;
        let mut i: usize = 0;
        while i < values.len()
            invariant
                i <= values.len(),
                self@ == start.nonblank_upto(
                    values.deep_view(),
                    i as nat,
                    prefix@,
                    suffix@,
                    message@,
                ),
            decreases values.len() - i,
        {
            assert(values.deep_view()[i as int] == values@[i as int]@);
            if is_blank(values[i].as_str()) {
                let path = indexed_path(prefix, i, suffix);
                self.push_issue(path, message);
            }
            i = i + 1;
        }
    }
}

/// What an Ed25519 identity-envelope check reported for a signature: the
/// payload hash it computed and its findings, with the envelope's own paths.
#[derive(Debug, Clone)]
pub struct IdentitySignatureCheck {
    pub payload_hash: String,
    pub issues: Vec<MarketplaceVerificationIssueV1>,
}

/// The identity envelope a record's signature is checked against when it is
/// an Ed25519 envelope: the signing context of the record's kind, and the
/// identity expected to have signed it (none where any signer is accepted).
#[derive(Debug, Clone)]
pub struct EnvelopeSubject {
    pub context: String,
    pub signer: Option<String>,
}

/// The envelope subject for signing context `context` and signer `signer`.
pub fn envelope_subject(context: &str, signer: &str) -> (r: EnvelopeSubject)
    ensures
        r.context@ == context@,
        opt_view(r.signer) == Some(signer@),
{
    EnvelopeSubject { context: String::from_str(context), signer: Some(String::from_str(signer)) }
}

/// The signed-content facts a record check compares against: the canonical
/// id and development signature of the record's signing value, and, for a
/// signature that carries an identity envelope, the envelope check.
#[derive(Debug, Clone)]
pub struct SignedContent {
    pub canonical_id: String,
    pub dev_signature: String,
    pub identity_check: Option<IdentitySignatureCheck>,
}

/// The signature a check works with: the trimmed text, when not blank.
pub open spec fn present_text(sig: Option<Seq<char>>) -> Option<Seq<char>> {
    match sig {
        Some(s) => if blank(s) { None } else { Some(trimmed(s)) },
        None => None,
    }
}

/// Envelope findings, re-rooted under `$.signature`.
pub open spec fn rerooted(s: Seq<IssueView>) -> Seq<IssueView> {
    s.map_values(|i: IssueView| (signature_path(i.0), i.1))
}

/// The signature the verification reports as expected: the envelope's payload
/// hash when an envelope was checked, otherwise the development signature.
pub open spec fn expected_signature(
    sig: Option<Seq<char>>,
    dev: Seq<char>,
    identity: Option<(Seq<char>, Seq<IssueView>)>,
) -> Seq<char> {
    match (present_text(sig), identity) {
        (Some(_), Some(c)) => "ed25519-payload-hash:"@ + c.0,
        _ => dev,
    }
}

pub open spec fn identity_view(c: Option<IdentitySignatureCheck>) -> Option<(Seq<char>, Seq<IssueView>)> {
    match c {
        Some(c) => Some((c.payload_hash@, issues_view(c.issues@))),
        None => None,
    }
}

impl Report {
    /// The signature rule: a present signature either passes its identity
    /// envelope check (whose findings become issues) or must equal the
    /// development signature; an absent one is a warning.
    pub open spec fn signature(
        self,
        sig: Option<Seq<char>>,
        dev: Seq<char>,
        identity: Option<(Seq<char>, Seq<IssueView>)>,
        mismatch_message: Seq<char>,
        unsigned_message: Seq<char>,
    ) -> Report {
        match present_text(sig) {
            Some(s) => match identity {
                Some(c) => Report { issues: self.issues + rerooted(c.1), warnings: self.warnings },
                None => self.issue_if(s != dev, "$.signature"@, mismatch_message),
            },
            None => self.warn_if(true, "$.signature"@, unsigned_message),
        }
    }

    /// The id rule: required, and equal to the canonical id when signed.
    pub open spec fn record_id(
        self,
        id: Seq<char>,
        sig: Option<Seq<char>>,
        canonical: Seq<char>,
        path: Seq<char>,
        required_message: Seq<char>,
        mismatch_message: Seq<char>,
    ) -> Report {
        if blank(id) {
            self.issue_if(true, path, required_message)
        } else {
            self.issue_if(present_text(sig) is Some && id != canonical, path, mismatch_message)
        }
    }
}

/// The trimmed signature, when present and not blank.
pub fn present_text_of(sig: &Option<String>) -> (r: Option<&str>)
    ensures
        opt_str_view(r) == present_text(opt_view(*sig)),
{
    match sig {
        Some(s) => {
            proof {
                lemma_trimmed_empty(s@);
            }
            let t = trim(s.as_str());
            if t.unicode_len() == 0 {
                None
            } else {
                Some(t)
            }
        },
        None => None,
    }
}

pub open spec fn opt_str_view(o: Option<&str>) -> Option<Seq<char>> {
    match o {
        Some(s) => Some(s@),
        None => None,
    }
}

impl Findings {
    pub fn signature(
        &mut self,
        sig: &Option<String>,
        content: &SignedContent,
        mismatch_message: &str,
        unsigned_message: &str,
    ) -> (expected: String)
        ensures
            final(self)@ == old(self)@.signature(
                opt_view(*sig),
                content.dev_signature@,
                identity_view(content.identity_check),
                mismatch_message@,
                unsigned_message@,
            ),
            expected@ == expected_signature(
                opt_view(*sig),
                content.dev_signature@,
                identity_view(content.identity_check),
            ),
    {
        match present_text_of(sig) {
            Some(s) => match &content.identity_check {
                Some(c) => {
                    let ghost start = self@;
                    let mut i: usize = 0;
                    while i < c.issues.len()
                        invariant
                            i <= c.issues.len(),
                            self@.warnings == start.warnings,
                            self@.issues =~= start.issues + rerooted(
                                issues_view(c.issues@).subrange(0, i as int),
                            ),
                        decreases c.issues.len() - i,
                    {
                        let path = signature_issue_path(c.issues[i].path.as_str());
                        self.push_issue(path, c.issues[i].message.as_str());
                        assert(issues_view(c.issues@).subrange(0, i + 1) =~= issues_view(
                            c.issues@,
                        ).subrange(0, i as int).push(c.issues@[i as int]@));
                        i = i + 1;
                    }
                    assert(issues_view(c.issues@).subrange(0, i as int) =~= issues_view(c.issues@));
                    let mut e = String::from_str("ed25519-payload-hash:");
                    e.append(c.payload_hash.as_str());
                    e
                },
                None => {
                    let same = text_eq(s, content.dev_signature.as_str());
                    self.issue_if(!same, "$.signature", mismatch_message);
                    content.dev_signature.clone()
                },
            },
            None => {
                self.warn_if(true, "$.signature", unsigned_message);
                content.dev_signature.clone()
            },
        }
    }

    pub fn record_id(
        &mut self,
        id: &str,
        sig: &Option<String>,
        canonical: &str,
        path: &str,
        required_message: &str,
        mismatch_message: &str,
    )
        ensures
            final(self)@ == old(self)@.record_id(
                id@,
                opt_view(*sig),
                canonical@,
                path@,
                required_message@,
                mismatch_message@,
            ),
    {
        if is_blank(id) {
            self.issue_if(true, path, required_message);
        } else {
            let signed = present_text_of(sig).is_some();
            let differs = !text_eq(id, canonical);
            self.issue_if(signed && differs, path, mismatch_message);
        }
    }
}

/// The view of an optional text.
pub open spec fn opt_view(o: Option<String>) -> Option<Seq<char>> {
    match o {
        Some(s) => Some(s@),
        None => None,
    }
}

/// A copy of a list of findings.
pub fn copy_issues(v: &Vec<MarketplaceVerificationIssueV1>) -> (r: Vec<MarketplaceVerificationIssueV1>)
    ensures
        issues_view(r@) == issues_view(v@),
{
    let mut r: Vec<MarketplaceVerificationIssueV1> = Vec::new();
    let mut i: usize = 0;
    while i < v.len()
        invariant
            i <= v.len(),
            issues_view(r@) =~= issues_view(v@).subrange(0, i as int),
        decreases v.len() - i,
    {
        let item = marketplace_issue(v[i].path.clone(), v[i].message.as_str());
        r.push(item);
        assert(issues_view(v@).subrange(0, i + 1) =~= issues_view(v@).subrange(0, i as int).push(
            v@[i as int]@,
        ));
        i = i + 1;
    }
    assert(issues_view(v@).subrange(0, i as int) =~= issues_view(v@));
    r
}

/// A copy of an optional text.
pub fn copy_opt(o: &Option<String>) -> (r: Option<String>)
    ensures
        opt_view(r) == opt_view(*o),
{
    match o {
        Some(s) => Some(s.clone()),
        None => None,
    }
}

/// Appends copies of the texts of `w` to `v`.
pub fn append_texts(v: &mut Vec<String>, w: &Vec<String>)
    ensures
        final(v).deep_view() == old(v).deep_view() + w.deep_view(),
{
    let ghost start = v.deep_view();
    let mut i: usize = 0;
    while i < w.len()
        invariant
            i <= w.len(),
            v.deep_view() =~= start + w.deep_view().subrange(0, i as int),
        decreases w.len() - i,
    {
        let ghost before = v.deep_view();
        let c = w[i].clone();
        v.push(c);
        assert(v.deep_view() =~= before.push(w.deep_view()[i as int]));
        assert(w.deep_view().subrange(0, i + 1) =~= w.deep_view().subrange(0, i as int).push(
            w.deep_view()[i as int],
        ));
        i = i + 1;
    }
    assert(w.deep_view().subrange(0, i as int) =~= w.deep_view());
}

/// Appends a copy of a text to `v`.
pub fn push_text(v: &mut Vec<String>, t: &str)
    ensures
        final(v).deep_view() == old(v).deep_view().push(t@),
{
    let ghost start = v.deep_view();
    v.push(t.to_string());
    assert(v.deep_view() =~= start.push(t@));
}

/// A copy of a list of texts.
pub fn copy_texts(v: &Vec<String>) -> (r: Vec<String>)
    ensures
        r.deep_view() == v.deep_view(),
{
    let mut r: Vec<String> = Vec::new();
    let mut i: usize = 0;
    while i < v.len()
        invariant
            i <= v.len(),
            r.deep_view() =~= v.deep_view().subrange(0, i as int),
        decreases v.len() - i,
    {
        let ghost before = r.deep_view();
        let c = v[i].clone();
        r.push(c);
        assert(r.deep_view() =~= before.push(v.deep_view()[i as int]));
        assert(v.deep_view().subrange(0, i + 1) =~= v.deep_view().subrange(0, i as int).push(
            v.deep_view()[i as int],
        ));
        i = i + 1;
    }
    assert(v.deep_view().subrange(0, i as int) =~= v.deep_view());
    r
}

/// Whether two optional texts are equal.
pub fn opt_text_eq(a: &Option<String>, b: &Option<String>) -> (r: bool)
    ensures
        r == (opt_view(*a) == opt_view(*b)),
{
    match (a, b) {
        (Some(x), Some(y)) => text_eq(x.as_str(), y.as_str()),
        (None, None) => true,
        _ => false,
    }
}

/// An unsigned record is only warned about: where the signature is absent or
/// blank, the signature rule adds no issue and exactly one warning at
/// `$.signature`.
pub proof fn lemma_unsigned_is_only_warned(
    r: Report,
    sig: Option<Seq<char>>,
    dev: Seq<char>,
    identity: Option<(Seq<char>, Seq<IssueView>)>,
    mismatch_message: Seq<char>,
    unsigned_message: Seq<char>,
)
    requires
        present_text(sig) is None,
    ensures
        r.signature(sig, dev, identity, mismatch_message, unsigned_message).issues == r.issues,
        r.signature(sig, dev, identity, mismatch_message, unsigned_message).warnings == r.warnings.push(
            ("$.signature"@, unsigned_message),
        ),
{
}

/// A signed record passes the signature rule exactly when its envelope check
/// found nothing, or, without an envelope, when its signature is the
/// development signature; a failed check leaves every one of its findings as
/// an issue under `$.signature`.
pub proof fn lemma_signed_record_verdict(
    r: Report,
    sig: Option<Seq<char>>,
    dev: Seq<char>,
    identity: Option<(Seq<char>, Seq<IssueView>)>,
    mismatch_message: Seq<char>,
    unsigned_message: Seq<char>,
)
    requires
        present_text(sig) is Some,
    ensures
        identity matches Some(c) ==> {
            &&& r.signature(sig, dev, identity, mismatch_message, unsigned_message).valid() == (r.valid()
                && c.1.len() == 0)
            &&& r.signature(sig, dev, identity, mismatch_message, unsigned_message).issues == r.issues
                + rerooted(c.1)
        },
        identity is None ==> r.signature(sig, dev, identity, mismatch_message, unsigned_message).valid()
            == (r.valid() && present_text(sig) == Some(dev)),
        r.signature(sig, dev, identity, mismatch_message, unsigned_message).warnings == r.warnings,
{
}

} // verus!
