//! The authorization policy language: a textual rule attached to a route,
//! split into atomic conditions by a total parser, and the identity the
//! conditions are tested against.

use vstd::prelude::*;
use std::collections::HashMap;

verus! {

/// Declares `serde_json::Value` so that a claims payload can hold arbitrary
/// JSON values. The type is opaque here: this layer never reads inside one,
/// it only carries them.
#[verifier::external_type_specification]
#[verifier::external_body]
pub struct ExValue(serde_json::Value);

/// A textual access rule, e.g. `"role:admin,permission:users.read"`.
/// The empty expression is a meaningful value of its own — "no restriction" —
/// distinct from the absence of a policy on a route.
#[derive(Debug, Clone)]
pub struct AuthPolicy {
    /// The raw rule; parsing is on demand and purely syntactic.
    pub policy_expr: String,
}

/// One atomic requirement extracted from a policy expression.
#[derive(Debug, Clone)]
pub enum AuthCondition {
    /// The caller must hold the named role.
    Role(String),
    /// The caller must be the named user.
    User(String),
    /// The caller must hold the named permission.
    Permission(String),
    /// The caller must hold the named OAuth-style scope.
    Scope(String),
    /// The caller must merely present a valid identity.
    ValidToken,
}

/// The mathematical shape of a condition, over character sequences.
pub enum CondView {
    Role(Seq<char>),
    User(Seq<char>),
    Permission(Seq<char>),
    Scope(Seq<char>),
    ValidToken,
}

impl View for AuthCondition {
    type V = CondView;

    open spec fn view(&self) -> CondView {
        match self {
            AuthCondition::Role(s) => CondView::Role(s@),
            AuthCondition::User(s) => CondView::User(s@),
            AuthCondition::Permission(s) => CondView::Permission(s@),
            AuthCondition::Scope(s) => CondView::Scope(s@),
            AuthCondition::ValidToken => CondView::ValidToken,
        }
    }
}

/// `p` is a prefix of `s`.
pub open spec fn is_prefix_of(p: Seq<char>, s: Seq<char>) -> bool {
    p.len() <= s.len() && s.take(p.len() as int) == p
}

/// The condition one trimmed segment denotes. The recognized prefixes are
/// tested in a fixed priority order; the remainder after the prefix — even an
/// empty remainder — becomes the payload. A segment matching no prefix,
/// including the empty segment, degrades to `ValidToken` rather than failing:
/// unrecognized syntax means "require any valid identity".
pub open spec fn cond_of(seg: Seq<char>) -> CondView {
    if seg.len() == 0 {
        CondView::ValidToken
    } else if is_prefix_of("role:"@, seg) {
        CondView::Role(seg.skip("role:"@.len() as int))
    } else if is_prefix_of("user:"@, seg) {
        CondView::User(seg.skip("user:"@.len() as int))
    } else if is_prefix_of("permission:"@, seg) {
        CondView::Permission(seg.skip("permission:"@.len() as int))
    } else if is_prefix_of("scope:"@, seg) {
        CondView::Scope(seg.skip("scope:"@.len() as int))
    } else {
        CondView::ValidToken
    }
}

/// Whether `p` is a prefix of `s`, character by character.
fn has_prefix(s: &str, p: &str) -> (r: bool)
    ensures
        r == is_prefix_of(p@, s@),
{
    let sn = s.unicode_len();
    let pn = p.unicode_len();
    if pn > sn {
        return false;
    }
    let mut i: usize = 0;
    while i < pn
        invariant
            i <= pn <= sn,
            sn == s@.len(),
            pn == p@.len(),
            forall|j: int| 0 <= j < i ==> s@[j] == p@[j],
        decreases pn - i,
    {
        if s.get_char(i) != p.get_char(i) {
            assert(s@.take(pn as int)[i as int] != p@[i as int]);
            return false;
        }
        i += 1;
    }
    assert(s@.take(pn as int) =~= p@);
    true
}

impl AuthCondition {
    /// Reads one trimmed segment of a policy expression. Total: every string,
    /// recognized or not, yields a condition.
    pub fn from_str(s: &str) -> (c: AuthCondition)
        ensures
            c@ == cond_of(s@),
    {
        proof {
            reveal_strlit("role:");
            reveal_strlit("user:");
            reveal_strlit("permission:");
            reveal_strlit("scope:");
        }
        let n = s.unicode_len();
        if n == 0 {
            return AuthCondition::ValidToken;
        }
        if has_prefix(s, "role:") {
            AuthCondition::Role(s.substring_char(5, n).to_owned())
        } else if has_prefix(s, "user:") {
            AuthCondition::User(s.substring_char(5, n).to_owned())
        } else if has_prefix(s, "permission:") {
            AuthCondition::Permission(s.substring_char(11, n).to_owned())
        } else if has_prefix(s, "scope:") {
            AuthCondition::Scope(s.substring_char(6, n).to_owned())
        } else {
            AuthCondition::ValidToken
        }
    }
}

/// A character stripped from the ends of a segment: whitespace, as Unicode
/// defines it (the `White_Space` set).
pub open spec fn is_space_char(c: char) -> bool {
    (0x09 <= c as int && c as int <= 0x0D) || c == ' ' || c == '\u{85}' || c == '\u{A0}'
        || c == '\u{1680}' || (0x2000 <= c as int && c as int <= 0x200A) || c == '\u{2028}'
        || c == '\u{2029}' || c == '\u{202F}' || c == '\u{205F}' || c == '\u{3000}'
}

/// `s` without its leading whitespace.
pub open spec fn trim_start_spec(s: Seq<char>) -> Seq<char>
    decreases s.len(),
{
    if s.len() > 0 && is_space_char(s[0]) {
        trim_start_spec(s.drop_first())
    } else {
        s
    }
}

/// `s` without its trailing whitespace.
pub open spec fn trim_end_spec(s: Seq<char>) -> Seq<char>
    decreases s.len(),
{
    if s.len() > 0 && is_space_char(s.last()) {
        trim_end_spec(s.drop_last())
    } else {
        s
    }
}

/// `s` without surrounding whitespace.
pub open spec fn trim_spec(s: Seq<char>) -> Seq<char> {
    trim_end_spec(trim_start_spec(s))
}

/// The comma-separated segments of `s`, in order; the empty string has one
/// (empty) segment, and every comma ends a segment, so there is always one
/// segment more than there are commas.
pub open spec fn split_commas(s: Seq<char>) -> Seq<Seq<char>>
    decreases s.len(),
{
    if s.len() == 0 {
        seq![s]
    } else if s[0] == ',' {
        seq![Seq::<char>::empty()] + split_commas(s.drop_first())
    } else {
        let rest = split_commas(s.drop_first());
        seq![seq![s[0]] + rest[0]] + rest.drop_first()
    }
}

/// The number of commas in `s`.
pub open spec fn count_commas(s: Seq<char>) -> nat
    decreases s.len(),
{
    if s.len() == 0 {
        0
    } else {
        (if s[0] == ',' {
            1nat
        } else {
            0nat
        }) + count_commas(s.drop_first())
    }
}

/// The conditions a whole policy expression denotes: one per comma-separated
/// segment, each segment trimmed and read as a condition.
pub open spec fn parse_spec(e: Seq<char>) -> Seq<CondView> {
    split_commas(e).map_values(|seg: Seq<char>| cond_of(trim_spec(seg)))
}

/// The views of a vector of conditions.
pub open spec fn conds_of(v: Seq<AuthCondition>) -> Seq<CondView> {
    v.map_values(|c: AuthCondition| c@)
}

proof fn lemma_split_no_comma(s: Seq<char>)
    requires
        forall|j: int| 0 <= j < s.len() ==> s[j] != ',',
    ensures
        split_commas(s) == seq![s],
    decreases s.len(),
{
    if s.len() == 0 {
    } else {
        lemma_split_no_comma(s.drop_first());
        let rest = split_commas(s.drop_first());
        assert(seq![s[0]] + rest[0] =~= s);
        assert(split_commas(s) =~= seq![s]);
    }
}

proof fn lemma_split_at_comma(s: Seq<char>, k: int)
    requires
        0 <= k < s.len(),
        s[k] == ',',
        forall|j: int| 0 <= j < k ==> s[j] != ',',
    ensures
        split_commas(s) == seq![s.take(k)] + split_commas(s.skip(k + 1)),
    decreases k,
{
    if k == 0 {
        assert(s.take(0) =~= Seq::<char>::empty());
        assert(s.skip(1) =~= s.drop_first());
        assert(split_commas(s) =~= seq![s.take(0)] + split_commas(s.skip(1)));
    } else {
        let d = s.drop_first();
        lemma_split_at_comma(d, k - 1);
        let rest = split_commas(d);
        assert(seq![s[0]] + d.take(k - 1) =~= s.take(k));
        assert(d.skip(k) =~= s.skip(k + 1));
        assert(rest.drop_first() == split_commas(s.skip(k + 1)));
        assert(split_commas(s) =~= seq![s.take(k)] + split_commas(s.skip(k + 1)));
    }
}

proof fn lemma_split_count(s: Seq<char>)
    ensures
        split_commas(s).len() == count_commas(s) + 1,
    decreases s.len(),
{
    if s.len() == 0 {
    } else {
        lemma_split_count(s.drop_first());
    }
}

/// Parsing is total and structure-preserving: every expression yields exactly
/// one condition per comma-separated segment — one more than there are
/// commas, never zero — and the empty expression yields the single condition
/// `ValidToken`.
pub proof fn lemma_parse_total(e: Seq<char>)
    ensures
        parse_spec(e).len() == count_commas(e) + 1,
        parse_spec(e).len() >= 1,
        e.len() == 0 ==> parse_spec(e) == seq![CondView::ValidToken],
{
    lemma_split_count(e);
    if e.len() == 0 {
        assert(parse_spec(e) =~= seq![CondView::ValidToken]);
    }
}

proof fn lemma_trim_start_at(s: Seq<char>, a: int)
    requires
        0 <= a <= s.len(),
        forall|j: int| 0 <= j < a ==> is_space_char(s[j]),
        a < s.len() ==> !is_space_char(s[a]),
    ensures
        trim_start_spec(s) == s.skip(a),
    decreases a,
{
    if a == 0 {
        assert(trim_start_spec(s) =~= s.skip(0));
    } else {
        lemma_trim_start_at(s.drop_first(), a - 1);
        assert(s.drop_first().skip(a - 1) =~= s.skip(a));
    }
}

proof fn lemma_trim_end_at(s: Seq<char>, b: int)
    requires
        0 <= b <= s.len(),
        forall|j: int| b <= j < s.len() ==> is_space_char(s[j]),
        b > 0 ==> !is_space_char(s[b - 1]),
    ensures
        trim_end_spec(s) == s.take(b),
    decreases s.len(),
{
    if b == s.len() {
        assert(trim_end_spec(s) =~= s.take(b));
    } else {
        lemma_trim_end_at(s.drop_last(), b);
        assert(s.drop_last().take(b) =~= s.take(b));
    }
}

/// Whether `c` is whitespace.
fn is_space(c: char) -> (r: bool)
    ensures
        r == is_space_char(c),
{
    let u = c as u32;
    (0x09 <= u && u <= 0x0D) || c == ' ' || c == '\u{85}' || c == '\u{A0}' || c == '\u{1680}'
        || (0x2000 <= u && u <= 0x200A) || c == '\u{2028}' || c == '\u{2029}' || c == '\u{202F}'
        || c == '\u{205F}' || c == '\u{3000}'
}

/// Strips surrounding whitespace from `s`.
fn trim(s: &str) -> (t: &str)
    ensures
        t@ == trim_spec(s@),
{
    let n = s.unicode_len();
    let mut a: usize = 0;
    while a < n && is_space(s.get_char(a))
        invariant
            a <= n,
            n == s@.len(),
            forall|j: int| 0 <= j < a ==> is_space_char(s@[j]),
        decreases n - a,
    {
        a += 1;
    }
    let mut b: usize = n;
    while b > a && is_space(s.get_char(b - 1))
        invariant
            a <= b <= n,
            n == s@.len(),
            forall|j: int| b <= j < n ==> is_space_char(s@[j]),
        decreases b,
    {
        b -= 1;
    }
    proof {
        lemma_trim_start_at(s@, a as int);
        let stripped = s@.skip(a as int);
        assert(forall|j: int|
            (b - a) <= j < stripped.len() ==> is_space_char(#[trigger] stripped[j]));
        lemma_trim_end_at(stripped, b - a);
        assert(stripped.take(b - a) =~= s@.subrange(a as int, b as int));
    }
    s.substring_char(a, b)
}

impl AuthPolicy {
    /// Wraps a raw rule; the text is stored unmodified.
    pub fn new(policy_expr: &str) -> (p: AuthPolicy)
        ensures
            p.policy_expr@ == policy_expr@,
    {
        AuthPolicy { policy_expr: policy_expr.to_owned() }
    }

    /// Splits the expression on commas, trims each segment, and reads each as
    /// a condition. Total: malformed or unrecognized syntax degrades to
    /// `ValidToken`, it never rejects a registration.
    pub fn parse(&self) -> (v: Vec<AuthCondition>)
        ensures
            conds_of(v@) == parse_spec(self.policy_expr@),
    {
        let s = self.policy_expr.as_str();
        let n = s.unicode_len();
        let mut out: Vec<AuthCondition> = Vec::new();
        let mut start: usize = 0;
        let mut i: usize = 0;
        proof {
            assert(s@.skip(0) =~= s@);
            assert(parse_spec(s@) =~= conds_of(out@) + split_commas(s@).map_values(
                |seg: Seq<char>| cond_of(trim_spec(seg)),
            ));
        }
        while i < n
            invariant
                start <= i <= n,
                n == s@.len(),
                s@ == self.policy_expr@,
                forall|j: int| start <= j < i ==> s@[j] != ',',
                parse_spec(s@) == conds_of(out@) + split_commas(s@.skip(start as int)).map_values(
                    |seg: Seq<char>| cond_of(trim_spec(seg)),
                ),
            decreases n - i,
        {
            if s.get_char(i) == ',' {
                let seg = s.substring_char(start, i);
                let cond = AuthCondition::from_str(trim(seg));
                proof {
                    let suffix = s@.skip(start as int);
                    lemma_split_at_comma(suffix, i - start);
                    assert(suffix.take(i - start) =~= seg@);
                    assert(suffix.skip(i - start + 1) =~= s@.skip(i + 1));
                    assert(conds_of(out@.push(cond)) =~= conds_of(out@) + seq![cond@]);
                    assert(conds_of(out@) + split_commas(suffix).map_values(
                        |t: Seq<char>| cond_of(trim_spec(t)),
                    ) =~= conds_of(out@.push(cond)) + split_commas(s@.skip(i + 1)).map_values(
                        |t: Seq<char>| cond_of(trim_spec(t)),
                    ));
                }
                out.push(cond);
                start = i + 1;
            }
            i += 1;
        }
        let seg = s.substring_char(start, n);
        let cond = AuthCondition::from_str(trim(seg));
        proof {
            let suffix = s@.skip(start as int);
            lemma_split_no_comma(suffix);
            assert(suffix =~= seg@);
            assert(conds_of(out@.push(cond)) =~= conds_of(out@) + seq![cond@]);
            assert(conds_of(out@) + split_commas(suffix).map_values(
                |t: Seq<char>| cond_of(trim_spec(t)),
            ) =~= conds_of(out@.push(cond)));
        }
        out.push(cond);
        out
    }
}

/// An already-verified identity: a bag of claims produced by an external
/// authentication step and queried, read-only, by condition evaluation.
///
/// This reference identity is deliberately permissive: every claim query
/// succeeds. How the booleans would really be computed from the payload is
/// outside this layer; conditions only rely on the three query methods.
pub struct JwtToken {
    /// The verified claims, as arbitrary JSON values.
    pub payload: HashMap<String, serde_json::Value>,
}

impl JwtToken {
    /// Whether the caller holds the named role; always granted here.
    pub fn has_role(&self, role: &str) -> (r: bool)
        ensures
            r == true,
    {
        true
    }

    /// Whether the caller holds the named permission; always granted here.
    pub fn has_permission(&self, permission: &str) -> (r: bool)
        ensures
            r == true,
    {
        true
    }

    /// Whether the caller holds the named OAuth-style scope; always granted
    /// here.
    pub fn has_scope(&self, scope: &str) -> (r: bool)
        ensures
            r == true,
    {
        true
    }
}

} // verus!
