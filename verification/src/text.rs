//! Text primitives shared by every record check: Unicode whitespace trimming,
//! prefix tests, decimal rendering and the reference-shape predicates.
use vstd::prelude::*;

verus! {

/// Unicode `White_Space`, the property that `char::is_whitespace` and
/// `str::trim` use.
pub open spec fn is_ws(c: char) -> bool {
    let u = c as u32;
    ||| 0x9 <= u <= 0xD
    ||| u == 0x20
    ||| u == 0x85
    ||| u == 0xA0
    ||| u == 0x1680
    ||| 0x2000 <= u <= 0x200A
    ||| u == 0x2028
    ||| u == 0x2029
    ||| u == 0x202F
    ||| u == 0x205F
    ||| u == 0x3000
}

/// A text is blank when trimming leaves nothing: every character is whitespace.
pub open spec fn blank(s: Seq<char>) -> bool {
    forall|i: int| 0 <= i < s.len() ==> is_ws(#[trigger] s[i])
}

/// Number of leading whitespace characters.
pub open spec fn lead_ws(s: Seq<char>) -> nat
    decreases s.len(),
{
    if s.len() > 0 && is_ws(s[0]) {
        1 + lead_ws(s.drop_first())
    } else {
        0
    }
}

/// Number of trailing whitespace characters.
pub open spec fn trail_ws(s: Seq<char>) -> nat
    decreases s.len(),
{
    if s.len() > 0 && is_ws(s.last()) {
        1 + trail_ws(s.drop_last())
    } else {
        0
    }
}

/// `str::trim`: the text without its leading and trailing whitespace.
pub open spec fn trimmed(s: Seq<char>) -> Seq<char> {
    let a = lead_ws(s) as int;
    let rest = s.subrange(a, s.len() as int);
    rest.subrange(0, rest.len() - trail_ws(rest))
}

/// `str::starts_with` with a text prefix.
pub open spec fn has_prefix(s: Seq<char>, p: Seq<char>) -> bool {
    p.len() <= s.len() && s.subrange(0, p.len() as int) == p
}

/// Decimal digits of a natural number, most significant first.
pub open spec fn decimal(n: nat) -> Seq<char>
    decreases n,
{
    if n < 10 {
        seq![digit_char(n)]
    } else {
        decimal(n / 10).push(digit_char(n % 10))
    }
}

pub open spec fn digit_char(d: nat) -> char {
    if d == 0 { '0' }
    else if d == 1 { '1' }
    else if d == 2 { '2' }
    else if d == 3 { '3' }
    else if d == 4 { '4' }
    else if d == 5 { '5' }
    else if d == 6 { '6' }
    else if d == 7 { '7' }
    else if d == 8 { '8' }
    else { '9' }
}

proof fn lemma_lead_ws_bound(s: Seq<char>)
    ensures
        lead_ws(s) <= s.len(),
        forall|i: int| 0 <= i < lead_ws(s) ==> is_ws(#[trigger] s[i]),
        lead_ws(s) < s.len() ==> !is_ws(s[lead_ws(s) as int]),
    decreases s.len(),
{
    if s.len() > 0 && is_ws(s[0]) {
        lemma_lead_ws_bound(s.drop_first());
        assert forall|i: int| 0 <= i < lead_ws(s) implies is_ws(#[trigger] s[i]) by {
            if i > 0 {
                assert(s[i] == s.drop_first()[i - 1]);
            }
        }
        if lead_ws(s) < s.len() {
            assert(s[lead_ws(s) as int] == s.drop_first()[lead_ws(s.drop_first()) as int]);
        }
    }
}

proof fn lemma_trail_ws_bound(s: Seq<char>)
    ensures
        trail_ws(s) <= s.len(),
        forall|i: int| s.len() - trail_ws(s) <= i < s.len() ==> is_ws(#[trigger] s[i]),
        trail_ws(s) < s.len() ==> !is_ws(s[s.len() - trail_ws(s) - 1]),
    decreases s.len(),
{
    if s.len() > 0 && is_ws(s.last()) {
        lemma_trail_ws_bound(s.drop_last());
        assert forall|i: int| s.len() - trail_ws(s) <= i < s.len() implies is_ws(
            #[trigger] s[i],
        ) by {
            if i < s.len() - 1 {
                assert(s[i] == s.drop_last()[i]);
            }
        }
        if trail_ws(s) < s.len() {
            assert(s[s.len() - trail_ws(s) - 1] == s.drop_last()[s.drop_last().len()
                - trail_ws(s.drop_last()) - 1]);
        }
    }
}

/// Characterises `lead_ws` by the position of the first non-whitespace character.
proof fn lemma_lead_ws_is(s: Seq<char>, k: int)
    requires
        0 <= k <= s.len(),
        forall|i: int| 0 <= i < k ==> is_ws(#[trigger] s[i]),
        k < s.len() ==> !is_ws(s[k]),
    ensures
        lead_ws(s) == k,
    decreases s.len(),
{
    if k > 0 {
        assert(is_ws(s[0]));
        assert forall|i: int| 0 <= i < k - 1 implies is_ws(#[trigger] s.drop_first()[i]) by {
            assert(s.drop_first()[i] == s[i + 1]);
        }
        if k - 1 < s.drop_first().len() {
            assert(s.drop_first()[k - 1] == s[k]);
        }
        lemma_lead_ws_is(s.drop_first(), k - 1);
    }
}

/// Characterises `trail_ws` by the position of the last non-whitespace character.
proof fn lemma_trail_ws_is(s: Seq<char>, k: int)
    requires
        0 <= k <= s.len(),
        forall|i: int| s.len() - k <= i < s.len() ==> is_ws(#[trigger] s[i]),
        k < s.len() ==> !is_ws(s[s.len() - k - 1]),
    ensures
        trail_ws(s) == k,
    decreases s.len(),
{
    if k > 0 {
        assert(is_ws(s[s.len() - 1]));
        let t = s.drop_last();
        assert forall|i: int| t.len() - (k - 1) <= i < t.len() implies is_ws(#[trigger] t[i]) by {
            assert(t[i] == s[i]);
        }
        if k - 1 < t.len() {
            assert(t[t.len() - (k - 1) - 1] == s[s.len() - k - 1]);
        }
        lemma_trail_ws_is(t, k - 1);
    }
}

/// `char::is_whitespace`.
pub fn char_is_ws(c: char) -> (r: bool)
    ensures
        r == is_ws(c),
{
    let u = c as u32;
    (0x9 <= u && u <= 0xD) || u == 0x20 || u == 0x85 || u == 0xA0 || u == 0x1680 || (0x2000 <= u
        && u <= 0x200A) || u == 0x2028 || u == 0x2029 || u == 0x202F || u == 0x205F || u == 0x3000
}

/// `s.trim().is_empty()`.
pub fn is_blank(s: &str) -> (r: bool)
    ensures
        r == blank(s@),
{
    let n = s.unicode_len();
    let mut i: usize = 0;
    while i < n
        invariant
            n == s@.len(),
            i <= n,
            forall|j: int| 0 <= j < i ==> is_ws(#[trigger] s@[j]),
        decreases n - i,
    {
        if !char_is_ws(s.get_char(i)) {
            return false;
        }
        i = i + 1;
    }
    true
}

/// `str::trim`.
pub fn trim(s: &str) -> (r: &str)
    ensures
        r@ == trimmed(s@),
{
    let n = s.unicode_len();
    let mut a: usize = 0;
    while a < n && char_is_ws(s.get_char(a))
        invariant
            n == s@.len(),
            a <= n,
            forall|j: int| 0 <= j < a ==> is_ws(#[trigger] s@[j]),
        decreases n - a,
    {
        a = a + 1;
    }
    proof {
        lemma_lead_ws_is(s@, a as int);
    }
    let mut k: usize = 0;
    while k < n - a && char_is_ws(s.get_char(n - 1 - k))
        invariant
            n == s@.len(),
            a <= n,
            k <= n - a,
            forall|j: int| n - k <= j < n ==> is_ws(#[trigger] s@[j]),
        decreases n - a - k,
    {
        k = k + 1;
    }
    proof {
        let rest = s@.subrange(a as int, n as int);
        assert forall|i: int| rest.len() - k <= i < rest.len() implies is_ws(#[trigger] rest[i]) by {
            assert(rest[i] == s@[a + i]);
        }
        if k < rest.len() {
            assert(rest[rest.len() - k - 1] == s@[n - 1 - k]);
        }
        lemma_trail_ws_is(rest, k as int);
        assert(s@.subrange(a as int, (n - k) as int) =~= rest.subrange(0, rest.len() - k));
    }
    s.substring_char(a, n - k)
}

/// `str::starts_with`.
pub fn starts_with(s: &str, p: &str) -> (r: bool)
    ensures
        r == has_prefix(s@, p@),
{
    let n = s.unicode_len();
    let m = p.unicode_len();
    if m > n {
        return false;
    }
    let mut i: usize = 0;
    while i < m
        invariant
            n == s@.len(),
            m == p@.len(),
            m <= n,
            i <= m,
            forall|j: int| 0 <= j < i ==> s@[j] == p@[j],
        decreases m - i,
    {
        if s.get_char(i) != p.get_char(i) {
            assert(s@.subrange(0, m as int)[i as int] != p@[i as int]);
            return false;
        }
        i = i + 1;
    }
    assert(s@.subrange(0, m as int) =~= p@);
    true
}

/// Text equality, `a == b` on `str`.
pub fn text_eq(a: &str, b: &str) -> (r: bool)
    ensures
        r == (a@ == b@),
{
    let n = a.unicode_len();
    if n != b.unicode_len() {
        return false;
    }
    let mut i: usize = 0;
    while i < n
        invariant
            n == a@.len(),
            n == b@.len(),
            i <= n,
            forall|j: int| 0 <= j < i ==> a@[j] == b@[j],
        decreases n - i,
    {
        if a.get_char(i) != b.get_char(i) {
            return false;
        }
        i = i + 1;
    }
    assert(a@ =~= b@);
    true
}

/// A trimmed text is empty exactly when the text is blank.
pub proof fn lemma_trimmed_empty(s: Seq<char>)
    ensures
        trimmed(s).len() == 0 <==> blank(s),
        trimmed(s).len() <= s.len(),
{
    lemma_lead_ws_bound(s);
    let a = lead_ws(s) as int;
    let rest = s.subrange(a, s.len() as int);
    lemma_trail_ws_bound(rest);
    if blank(s) {
        if a < s.len() {
            assert(is_ws(s[a]));
        }
    }
    if trimmed(s).len() == 0 {
        assert forall|i: int| 0 <= i < s.len() implies is_ws(#[trigger] s[i]) by {
            if i >= a {
                assert(s[i] == rest[i - a]);
            }
        }
    }
}

/// Calls `String::push`; the contract claims that the text afterwards is the
/// text before followed by `c`.
#[verifier::external_body]
pub(crate) fn string_push(s: &mut String, c: char)
    ensures
        final(s)@ == old(s)@.push(c),
{
    s.push(c)
}

fn digit(d: usize) -> (c: char)
    requires
        d < 10,
    ensures
        c == digit_char(d as nat),
{
    if d == 0 { '0' }
    else if d == 1 { '1' }
    else if d == 2 { '2' }
    else if d == 3 { '3' }
    else if d == 4 { '4' }
    else if d == 5 { '5' }
    else if d == 6 { '6' }
    else if d == 7 { '7' }
    else if d == 8 { '8' }
    else { '9' }
}

/// Appends the decimal rendering of `n`, as `format!("{n}")` writes it.
pub fn push_decimal(s: &mut String, n: usize)
    ensures
        final(s)@ == old(s)@ + decimal(n as nat),
    decreases n,
{
    if n < 10 {
        string_push(s, digit(n));
        assert(old(s)@.push(digit_char(n as nat)) =~= old(s)@ + decimal(n as nat));
    } else {
        push_decimal(s, n / 10);
        string_push(s, digit(n % 10));
        assert(old(s)@ + decimal(n as nat) =~= (old(s)@ + decimal((n / 10) as nat)).push(
            digit_char((n % 10) as nat),
        ));
    }
}

/// A storage or audit reference the marketplace recognises:
/// `bzz://`, `local://`, `sha256://`, `ipfs://` or `https://`.
pub open spec fn marketplace_ref(s: Seq<char>) -> bool {
    ||| has_prefix(s, "bzz://"@)
    ||| has_prefix(s, "local://"@)
    ||| has_prefix(s, "sha256://"@)
    ||| has_prefix(s, "ipfs://"@)
    ||| has_prefix(s, "https://"@)
}

/// Whether a reference has one of the recognised storage or audit schemes.
pub fn looks_like_marketplace_ref(reference: &str) -> (r: bool)
    ensures
        r == marketplace_ref(reference@),
{
    starts_with(reference, "bzz://") || starts_with(reference, "local://") || starts_with(
        reference,
        "sha256://",
    ) || starts_with(reference, "ipfs://") || starts_with(reference, "https://")
}

/// A receipt reference usable by settlement: `bzz://` or `local://`.
pub open spec fn settlement_receipt_ref(s: Seq<char>) -> bool {
    has_prefix(s, "bzz://"@) || has_prefix(s, "local://"@)
}

/// Whether a receipt reference is a `bzz://` or `local://` reference.
pub fn is_settlement_receipt_ref(reference: &str) -> (r: bool)
    ensures
        r == settlement_receipt_ref(reference@),
{
    starts_with(reference, "bzz://") || starts_with(reference, "local://")
}

/// The character a file-name component keeps: ASCII letters and digits,
/// `-` and `_`; any other character becomes `-`.
pub open spec fn safe_char(c: char) -> char {
    if ('a' <= c <= 'z') || ('A' <= c <= 'Z') || ('0' <= c <= '9') || c == '-' || c == '_' {
        c
    } else {
        '-'
    }
}

pub open spec fn safe_component(s: Seq<char>) -> Seq<char> {
    s.map_values(|c: char| safe_char(c))
}

/// Maps a text to a component safe for file names and reference paths.
pub fn safe_file_component(value: &str) -> (r: String)
    ensures
        r@ == safe_component(value@),
{
    let n = value.unicode_len();
    let mut out = String::new();
    let mut i: usize = 0;
    while i < n
        invariant
            n == value@.len(),
            i <= n,
            out@ =~= safe_component(value@.subrange(0, i as int)),
        decreases n - i,
    {
        let c = value.get_char(i);
        let k = if ('a' <= c && c <= 'z') || ('A' <= c && c <= 'Z') || ('0' <= c && c <= '9')
            || c == '-' || c == '_' {
            c
        } else {
            '-'
        };
        string_push(&mut out, k);
        assert(value@.subrange(0, i + 1) =~= value@.subrange(0, i as int).push(c));
        i = i + 1;
    }
    assert(value@.subrange(0, n as int) =~= value@);
    out
}

/// The path under `$.signature` that an identity-envelope finding at `path`
/// is reported at: `$` maps to `$.signature`, `$.rest` to `$.signature.rest`,
/// and any other path is appended after `$.signature.`.
pub open spec fn signature_path(path: Seq<char>) -> Seq<char> {
    if path == "$"@ {
        "$.signature"@
    } else if has_prefix(path, "$."@) {
        "$.signature."@ + path.subrange(2, path.len() as int)
    } else {
        "$.signature."@ + path
    }
}

/// Places an identity-envelope finding path under `$.signature`.
pub fn signature_issue_path(path: &str) -> (r: String)
    ensures
        r@ == signature_path(path@),
{
    proof {
        reveal_strlit("$.");
        reveal_strlit("$");
    }
    if path.unicode_len() == 1 && path.get_char(0) == '$' {
        assert(path@ =~= "$"@);
        return String::from_str("$.signature");
    }
    let mut out = String::from_str("$.signature.");
    if starts_with(path, "$.") {
        let rest = path.substring_char(2, path.unicode_len());
        out.append(rest);
    } else {
        assert(path@ != "$"@) by {
            if path@ =~= "$"@ {
                assert(path@.len() == 1);
            }
        }
        out.append(path);
    }
    out
}

/// Whether a list of texts contains the text `t`.
pub fn contains_text(values: &Vec<String>, t: &str) -> (r: bool)
    ensures
        r == values.deep_view().contains(t@),
{
    let mut i: usize = 0;
    while i < values.len()
        invariant
            i <= values.len(),
            forall|j: int| 0 <= j < i ==> values.deep_view()[j] != t@,
        decreases values.len() - i,
    {
        if text_eq(values[i].as_str(), t) {
            assert(values.deep_view()[i as int] == t@);
            return true;
        }
        i = i + 1;
    }
    false
}

} // verus!
