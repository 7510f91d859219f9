//! Semantic version triples: lenient parsing, rendering and ordering.
//!
//! Parsing never fails: a leading `v` is stripped, the text is split on `.`,
//! and every absent or non-numeric field silently becomes 0. That leniency is
//! deliberate (a malformed release tag must not block the update flow) and is
//! pinned down exactly by [`spec_parse_version`].

use vstd::prelude::*;
use vstd::string::StrSliceExecFns;
use vstd::string::StringExecFns;

verus! {

/// Version of the running binary, injected at build time.
pub const CURRENT_MAJOR: u64 = 0;
/// Version of the running binary, injected at build time.
pub const CURRENT_MINOR: u64 = 1;
/// Version of the running binary, injected at build time.
pub const CURRENT_PATCH: u64 = 0;

/// A semantic version: an ordered triple of non-negative integers.
#[derive(Clone, Copy, Debug, PartialEq, Eq, Structural, Hash)]
pub struct Version {
    pub major: u64,
    pub minor: u64,
    pub patch: u64,
}

/// A decimal digit character.
pub open spec fn is_digit_char(c: char) -> bool {
    48 <= (c as u32) <= 57
}

/// Numeric value of a digit character.
pub open spec fn digit_val(c: char) -> nat {
    ((c as u32) - 48) as nat
}

/// Every character of `s` is a decimal digit.
pub open spec fn all_digits(s: Seq<char>) -> bool {
    forall|i: int| 0 <= i < s.len() ==> is_digit_char(s[i])
}

/// Value of a digit string read in base 10.
pub open spec fn digits_value(s: Seq<char>) -> nat
    decreases s.len(),
{
    if s.len() == 0 {
        0
    } else {
        digits_value(s.drop_last()) * 10 + digit_val(s.last())
    }
}

/// Value of one version field: a non-empty all-digit string that fits in
/// `u64` is read in base 10; anything else (empty, stray characters,
/// overflow) degrades to 0.
pub open spec fn field_value(s: Seq<char>) -> nat {
    if s.len() > 0 && all_digits(s) && digits_value(s) <= u64::MAX {
        digits_value(s)
    } else {
        0
    }
}

/// Index of the first `.` in `s`, or `s.len()` if there is none.
pub open spec fn first_dot(s: Seq<char>) -> int
    decreases s.len(),
{
    if s.len() == 0 {
        0
    } else if s[0] == '.' {
        0
    } else {
        1 + first_dot(s.drop_first())
    }
}

/// The text before the first `.`.
pub open spec fn head_field(s: Seq<char>) -> Seq<char> {
    s.subrange(0, first_dot(s))
}

/// The text after the first `.`; empty when there is no `.`.
pub open spec fn tail_fields(s: Seq<char>) -> Seq<char> {
    if first_dot(s) < s.len() {
        s.subrange(first_dot(s) + 1, s.len() as int)
    } else {
        Seq::empty()
    }
}

/// `s` with one leading `v` removed, if present.
pub open spec fn strip_v(s: Seq<char>) -> Seq<char> {
    if s.len() > 0 && s[0] == 'v' {
        s.drop_first()
    } else {
        s
    }
}

/// What parsing a version string yields: strip a leading `v`, split on `.`,
/// read the first three fields leniently, ignore the rest.
pub open spec fn spec_parse_version(s: Seq<char>) -> Version {
    let t = strip_v(s);
    let r1 = tail_fields(t);
    let r2 = tail_fields(r1);
    Version {
        major: field_value(head_field(t)) as u64,
        minor: field_value(head_field(r1)) as u64,
        patch: field_value(head_field(r2)) as u64,
    }
}

/// An index before which there is no dot, and which holds a dot or is the
/// end, is exactly `first_dot`.
proof fn lemma_first_dot_at(s: Seq<char>, n: int)
    requires
        0 <= n <= s.len(),
        forall|j: int| 0 <= j < n ==> s[j] != '.',
        n < s.len() ==> s[n] == '.',
    ensures
        first_dot(s) == n,
    decreases s.len(),
{
    if n == 0 {
        if s.len() > 0 {
            assert(s[0] == '.');
        }
    } else {
        assert(s[0] != '.');
        let t = s.drop_first();
        assert forall|j: int| 0 <= j < n - 1 implies t[j] != '.' by {
            assert(t[j] == s[j + 1]);
        }
        assert(n - 1 < t.len() ==> t[n - 1] == '.');
        lemma_first_dot_at(t, n - 1);
    }
}

/// Reading more digits never shrinks the value.
proof fn lemma_digits_value_prefix_le(s: Seq<char>, n: int)
    requires
        0 <= n <= s.len(),
    ensures
        digits_value(s.subrange(0, n)) <= digits_value(s),
    decreases s.len() - n,
{
    if n == s.len() {
        assert(s.subrange(0, n) =~= s);
    } else {
        let shorter = s.subrange(0, n);
        let longer = s.subrange(0, n + 1);
        assert(longer.drop_last() =~= shorter);
        assert(digits_value(longer) == digits_value(shorter) * 10 + digit_val(longer.last()));
        lemma_digits_value_prefix_le(s, n + 1);
    }
}

/// First `.` at or after `from` and before `to`, or `to` if there is none.
fn find_dot(s: &str, from: usize, to: usize) -> (r: usize)
    requires
        from <= to <= s@.len(),
    ensures
        from <= r <= to,
        r - from == first_dot(s@.subrange(from as int, to as int)),
{
    let mut i: usize = from;
    while i < to
        invariant
            from <= i <= to <= s@.len(),
            forall|j: int| from <= j < i ==> s@[j] != '.',
        decreases to - i,
    {
        if s.get_char(i) == '.' {
            proof {
                let sub = s@.subrange(from as int, to as int);
                assert forall|j: int| 0 <= j < i - from implies sub[j] != '.' by {
                    assert(sub[j] == s@[from + j]);
                }
                assert(sub[i - from] == s@[i as int]);
                lemma_first_dot_at(sub, i - from);
            }
            return i;
        }
        i += 1;
    }
    proof {
        let sub = s@.subrange(from as int, to as int);
        assert forall|j: int| 0 <= j < to - from implies sub[j] != '.' by {
            assert(sub[j] == s@[from + j]);
        }
        lemma_first_dot_at(sub, to - from);
    }
    to
}

/// Read one version field from `s[from..to]`, degrading to 0 as
/// [`field_value`] prescribes.
fn parse_field(s: &str, from: usize, to: usize) -> (r: u64)
    requires
        from <= to <= s@.len(),
    ensures
        r as nat == field_value(s@.subrange(from as int, to as int)),
{
    let ghost whole = s@.subrange(from as int, to as int);
    let mut acc: u64 = 0;
    let mut i: usize = from;
    while i < to
        invariant
            from <= i <= to <= s@.len(),
            whole == s@.subrange(from as int, to as int),
            all_digits(s@.subrange(from as int, i as int)),
            acc as nat == digits_value(s@.subrange(from as int, i as int)),
        decreases to - i,
    {
        let c = s.get_char(i);
        let u: u32 = c as u32;
        if u < 48 || 57 < u {
            proof {
                assert(whole[i - from] == s@[i as int]);
                assert(!is_digit_char(whole[i - from]));
                assert(field_value(whole) == 0);
            }
            return 0;
        }
        let d: u64 = (u - 48) as u64;
        let ghost pre = s@.subrange(from as int, i as int);
        let ghost ext = s@.subrange(from as int, i + 1 as int);
        proof {
            assert(ext.drop_last() =~= pre);
            assert(ext.last() == s@[i as int]);
            assert(digits_value(ext) == (acc as nat) * 10 + digit_val(s@[i as int]));
            assert forall|j: int| 0 <= j < ext.len() implies is_digit_char(ext[j]) by {
                if j < i - from {
                    assert(ext[j] == pre[j]);
                }
            }
        }
        let wide: u128 = (acc as u128) * 10 + (d as u128);
        if wide > u64::MAX as u128 {
            proof {
                if all_digits(whole) && digits_value(whole) <= u64::MAX {
                    assert(whole.subrange(0, i + 1 - from) =~= ext);
                    lemma_digits_value_prefix_le(whole, i + 1 - from);
                }
                assert(field_value(whole) == 0);
            }
            return 0;
        }
        acc = wide as u64;
        i += 1;
    }
    proof {
        assert(s@.subrange(from as int, i as int) =~= whole);
        if whole.len() == 0 {
            assert(field_value(whole) == 0);
        } else {
            assert(field_value(whole) == digits_value(whole));
        }
    }
    acc
}

impl Version {
    /// The build-injected version of the running binary.
    pub fn from_cargo() -> (v: Version)
        ensures
            v == spec_current_version(),
    {
        Version { major: CURRENT_MAJOR, minor: CURRENT_MINOR, patch: CURRENT_PATCH }
    }

    /// Parse a version string leniently; this never fails.
    pub fn from_string(version_str: &str) -> (v: Version)
        ensures
            v == spec_parse_version(version_str@),
    {
        let n = version_str.unicode_len();
        let start: usize = if n > 0 && version_str.get_char(0) == 'v' {
            1
        } else {
            0
        };
        let ghost t = strip_v(version_str@);
        proof {
            assert(t =~= version_str@.subrange(start as int, n as int));
        }
        let d1 = find_dot(version_str, start, n);
        let major = parse_field(version_str, start, d1);
        proof {
            assert(head_field(t) =~= version_str@.subrange(start as int, d1 as int));
        }
        let ghost r1 = tail_fields(t);
        let (minor, patch): (u64, u64) = if d1 < n {
            proof {
                assert(r1 =~= version_str@.subrange(d1 + 1 as int, n as int));
            }
            let d2 = find_dot(version_str, d1 + 1, n);
            let minor = parse_field(version_str, d1 + 1, d2);
            proof {
                assert(head_field(r1) =~= version_str@.subrange(d1 + 1 as int, d2 as int));
            }
            let ghost r2 = tail_fields(r1);
            let patch: u64 = if d2 < n {
                proof {
                    assert(r2 =~= version_str@.subrange(d2 + 1 as int, n as int));
                }
                let d3 = find_dot(version_str, d2 + 1, n);
                let p = parse_field(version_str, d2 + 1, d3);
                proof {
                    assert(head_field(r2) =~= version_str@.subrange(d2 + 1 as int, d3 as int));
                }
                p
            } else {
                proof {
                    assert(r2 =~= Seq::<char>::empty());
                    assert(head_field(r2) =~= Seq::<char>::empty());
                }
                0
            };
            (minor, patch)
        } else {
            proof {
                assert(r1 =~= Seq::<char>::empty());
                assert(head_field(r1) =~= Seq::<char>::empty());
                assert(tail_fields(r1) =~= Seq::<char>::empty());
                assert(head_field(tail_fields(r1)) =~= Seq::<char>::empty());
            }
            (0, 0)
        };
        Version { major, minor, patch }
    }
}

/// What [`Version::from_cargo`] and [`current_version`] return.
pub open spec fn spec_current_version() -> Version {
    Version { major: CURRENT_MAJOR, minor: CURRENT_MINOR, patch: CURRENT_PATCH }
}

/// The version of the running binary.
pub fn current_version() -> (v: Version)
    ensures
        v == spec_current_version(),
{
    Version::from_cargo()
}

/// The distributed package's name.
pub fn pkg_name() -> (r: String)
    ensures
        r@ == "ntfy-log"@,
{
    "ntfy-log".to_owned()
}

/// Strict lexicographic order on version triples, major field first.
pub open spec fn spec_version_lt(a: Version, b: Version) -> bool {
    ||| a.major < b.major
    ||| (a.major == b.major && a.minor < b.minor)
    ||| (a.major == b.major && a.minor == b.minor && a.patch < b.patch)
}

impl Version {
    /// Field-wise comparison, major first.
    pub fn lt(&self, other: &Version) -> (r: bool)
        ensures
            r == spec_version_lt(*self, *other),
    {
        if self.major != other.major {
            self.major < other.major
        } else if self.minor != other.minor {
            self.minor < other.minor
        } else {
            self.patch < other.patch
        }
    }

    /// `self` is strictly newer than `other`.
    pub fn newer_than(&self, other: &Version) -> (r: bool)
        ensures
            r == spec_version_lt(*other, *self),
    {
        other.lt(self)
    }
}

/// The version order never puts a version below itself.
pub proof fn lemma_version_lt_irreflexive(a: Version)
    ensures
        !spec_version_lt(a, a),
{
}

/// The version order is asymmetric, hence antisymmetric.
pub proof fn lemma_version_lt_asymmetric(a: Version, b: Version)
    ensures
        spec_version_lt(a, b) ==> !spec_version_lt(b, a),
{
}

/// The version order is transitive.
pub proof fn lemma_version_lt_transitive(a: Version, b: Version, c: Version)
    ensures
        spec_version_lt(a, b) && spec_version_lt(b, c) ==> spec_version_lt(a, c),
{
}

/// Any two distinct versions are ordered: with asymmetry and transitivity,
/// the order is a strict total order whose associated equality is equality
/// of the triples.
pub proof fn lemma_version_lt_connected(a: Version, b: Version)
    ensures
        a != b ==> spec_version_lt(a, b) || spec_version_lt(b, a),
{
}

/// The digit character for `d`, meaningful for `d < 10`.
pub open spec fn spec_digit_char(d: nat) -> char {
    if d == 0 {
        '0'
    } else if d == 1 {
        '1'
    } else if d == 2 {
        '2'
    } else if d == 3 {
        '3'
    } else if d == 4 {
        '4'
    } else if d == 5 {
        '5'
    } else if d == 6 {
        '6'
    } else if d == 7 {
        '7'
    } else if d == 8 {
        '8'
    } else {
        '9'
    }
}

/// Decimal rendering of `n`, most significant digit first, no leading zeros
/// (a single `0` for zero).
pub open spec fn spec_decimal(n: nat) -> Seq<char>
    decreases n,
{
    if n < 10 {
        seq![spec_digit_char(n)]
    } else {
        spec_decimal(n / 10).push(spec_digit_char(n % 10))
    }
}

/// The dotted rendering of a version triple.
pub open spec fn spec_version_string(v: Version) -> Seq<char> {
    spec_decimal(v.major as nat) + seq!['.'] + spec_decimal(v.minor as nat) + seq![
        '.',
    ] + spec_decimal(v.patch as nat)
}

/// The one-character string for a digit.
fn digit_str(d: u64) -> (r: &'static str)
    requires
        d < 10,
    ensures
        r@ =~= seq![spec_digit_char(d as nat)],
{
    proof {
        reveal_strlit("0");
        reveal_strlit("1");
        reveal_strlit("2");
        reveal_strlit("3");
        reveal_strlit("4");
        reveal_strlit("5");
        reveal_strlit("6");
        reveal_strlit("7");
        reveal_strlit("8");
        reveal_strlit("9");
    }
    if d == 0 {
        "0"
    } else if d == 1 {
        "1"
    } else if d == 2 {
        "2"
    } else if d == 3 {
        "3"
    } else if d == 4 {
        "4"
    } else if d == 5 {
        "5"
    } else if d == 6 {
        "6"
    } else if d == 7 {
        "7"
    } else if d == 8 {
        "8"
    } else {
        "9"
    }
}

/// Render `n` in decimal.
pub fn render_u64(n: u64) -> (r: String)
    ensures
        r@ == spec_decimal(n as nat),
    decreases n,
{
    if n < 10 {
        digit_str(n).to_owned()
    } else {
        let mut s = render_u64(n / 10);
        s.append(digit_str(n % 10));
        proof {
            assert(s@ =~= spec_decimal(n as nat));
        }
        s
    }
}

impl Version {
    /// The dotted `major.minor.patch` text of this version.
    pub fn version_string(&self) -> (r: String)
        ensures
            r@ == spec_version_string(*self),
    {
        proof {
            reveal_strlit(".");
        }
        let mut s = render_u64(self.major);
        s.append(".");
        let minor = render_u64(self.minor);
        s.append(minor.as_str());
        s.append(".");
        let patch = render_u64(self.patch);
        s.append(patch.as_str());
        proof {
            assert("."@ =~= seq!['.']);
            assert(s@ =~= spec_version_string(*self));
        }
        s
    }
}

} // verus!
