//! Byte-level text scanning: separator splitting, line splitting,
//! whitespace trimming and decimal parsing, each with an exact
//! specification over byte sequences.
use vstd::prelude::*;

verus! {

/// The field separator of the atlas description.
pub const COMMA: u8 = 44;

/// Line feed.
pub const LF: u8 = 10;

/// Carriage return.
pub const CR: u8 = 13;

/// The blank bytes trimmed from numeric fields: space and horizontal tab.
pub const SPACE: u8 = 32;

/// See `SPACE`.
pub const TAB: u8 = 9;

/// The views of a sequence of byte vectors.
pub open spec fn views(vs: Seq<Vec<u8>>) -> Seq<Seq<u8>> {
    vs.map_values(|v: Vec<u8>| v@)
}

/// Whether `sep` occurs in `s`.
pub open spec fn has_sep(s: Seq<u8>, sep: u8) -> bool {
    exists|i: int| 0 <= i < s.len() && s[i] == sep
}

/// The index of the first occurrence of `sep` in `s`.
pub open spec fn first_sep(s: Seq<u8>, sep: u8) -> int
    decreases s.len(),
{
    if s.len() == 0 {
        0
    } else if s[0] == sep {
        0
    } else {
        1 + first_sep(s.skip(1), sep)
    }
}

/// With `sep` present in `s`, its first occurrence is a genuine index:
/// in range, hitting `sep`, with nothing but other bytes before it.
pub proof fn lemma_first_sep_range(s: Seq<u8>, sep: u8)
    requires
        has_sep(s, sep),
    ensures
        0 <= first_sep(s, sep) < s.len(),
        s[first_sep(s, sep)] == sep,
        forall|j: int| 0 <= j < first_sep(s, sep) ==> s[j] != sep,
    decreases s.len(),
{
    if s.len() == 0 {
    } else if s[0] == sep {
    } else {
        let w = choose|i: int| 0 <= i < s.len() && s[i] == sep;
        assert(s.skip(1)[w - 1] == sep);
        lemma_first_sep_range(s.skip(1), sep);
        assert forall|j: int| 0 <= j < first_sep(s, sep) implies s[j] != sep by {
            if j > 0 {
                assert(s.skip(1)[j - 1] == s[j]);
            }
        }
    }
}

/// A found occurrence with a clean prefix is the first occurrence.
pub proof fn lemma_first_sep_at(s: Seq<u8>, sep: u8, i: int)
    requires
        0 <= i < s.len(),
        s[i] == sep,
        forall|j: int| 0 <= j < i ==> s[j] != sep,
    ensures
        has_sep(s, sep),
        first_sep(s, sep) == i,
    decreases i,
{
    if i > 0 {
        assert(s.skip(1)[i - 1] == sep);
        assert forall|j: int| 0 <= j < i - 1 implies s.skip(1)[j] != sep by {
            assert(s.skip(1)[j] == s[j + 1]);
        }
        lemma_first_sep_at(s.skip(1), sep, i - 1);
    }
}

/// `s` split at every occurrence of `sep`: the pieces in order, without the
/// separator bytes. There is always at least one piece; an empty input is
/// one empty piece.
pub open spec fn spec_split(s: Seq<u8>, sep: u8) -> Seq<Seq<u8>>
    decreases s.len(),
    via spec_split_decreases
{
    if has_sep(s, sep) {
        seq![s.take(first_sep(s, sep))] + spec_split(s.skip(first_sep(s, sep) + 1), sep)
    } else {
        seq![s]
    }
}

#[via_fn]
proof fn spec_split_decreases(s: Seq<u8>, sep: u8) {
    if has_sep(s, sep) {
        lemma_first_sep_range(s, sep);
    }
}

/// Splits a byte slice at every occurrence of `sep`.
pub fn split_bytes(s: &[u8], sep: u8) -> (r: Vec<Vec<u8>>)
    ensures
        views(r@) == spec_split(s@, sep),
    decreases s@.len(),
{
    let n: usize = s.len();
    let mut i: usize = 0;
    while i < n && s[i] != sep
        invariant
            0 <= i <= n == s@.len(),
            forall|j: int| 0 <= j < i ==> s@[j] != sep,
        decreases n - i,
    {
        i = i + 1;
    }
    if i == n {
        proof {
            if has_sep(s@, sep) {
                lemma_first_sep_range(s@, sep);
            }
        }
        let piece: Vec<u8> = vstd::slice::slice_to_vec(s);
        let mut r: Vec<Vec<u8>> = Vec::new();
        r.push(piece);
        proof {
            assert(views(r@) =~= seq![s@]);
        }
        r
    } else {
        proof {
            lemma_first_sep_at(s@, sep, i as int);
        }
        let head: Vec<u8> = vstd::slice::slice_to_vec(vstd::slice::slice_subrange(s, 0, i));
        let tail: &[u8] = vstd::slice::slice_subrange(s, i + 1, n);
        let mut rest: Vec<Vec<u8>> = split_bytes(tail, sep);
        let mut r: Vec<Vec<u8>> = Vec::new();
        r.push(head);
        r.append(&mut rest);
        proof {
            assert(s@.subrange(0, i as int) =~= s@.take(first_sep(s@, sep)));
            assert(tail@ =~= s@.skip(first_sep(s@, sep) + 1));
            assert(views(r@) =~= seq![s@.take(first_sep(s@, sep))] + spec_split(
                s@.skip(first_sep(s@, sep) + 1),
                sep,
            ));
        }
        r
    }
}

/// `s` with one trailing carriage return dropped, if there is one.
pub open spec fn strip_cr(s: Seq<u8>) -> Seq<u8> {
    if s.len() > 0 && s[s.len() - 1] == CR {
        s.drop_last()
    } else {
        s
    }
}

/// The lines of a text: the pieces between line feeds, with the piece after
/// a final line feed (always empty) dropped, and one trailing carriage
/// return dropped from every line.
pub open spec fn lines_of(s: Seq<u8>) -> Seq<Seq<u8>> {
    let parts = spec_split(s, LF);
    let kept = if parts.len() > 0 && parts.last().len() == 0 {
        parts.drop_last()
    } else {
        parts
    };
    kept.map_values(|l: Seq<u8>| strip_cr(l))
}

/// Splits a text into its lines, as `lines_of` describes.
pub fn split_lines(data: &[u8]) -> (r: Vec<Vec<u8>>)
    ensures
        views(r@) == lines_of(data@),
{
    let mut parts: Vec<Vec<u8>> = split_bytes(data, LF);
    let ghost kept: Seq<Seq<u8>> = ({
        let ps = spec_split(data@, LF);
        if ps.len() > 0 && ps.last().len() == 0 {
            ps.drop_last()
        } else {
            ps
        }
    });
    if parts.len() > 0 && parts[parts.len() - 1].len() == 0 {
        parts.pop();
    }
    proof {
        assert(views(parts@) =~= kept);
    }
    let n: usize = parts.len();
    let mut r: Vec<Vec<u8>> = Vec::new();
    let mut i: usize = 0;
    while i < n
        invariant
            0 <= i <= n == parts@.len(),
            views(parts@) == kept,
            r@.len() == i,
            forall|k: int| 0 <= k < i ==> r@[k]@ == strip_cr(kept[k]),
        decreases n - i,
    {
        let p: &Vec<u8> = &parts[i];
        let mut v: Vec<u8> = vstd::slice::slice_to_vec(p.as_slice());
        if v.len() > 0 && v[v.len() - 1] == CR {
            v.pop();
        }
        proof {
            assert(v@ =~= strip_cr(kept[i as int]));
        }
        r.push(v);
        i = i + 1;
    }
    proof {
        assert(views(r@) =~= lines_of(data@));
    }
    r
}

/// Whether `b` is a blank byte (space, tab or a stray carriage return).
pub open spec fn is_blank(b: u8) -> bool {
    b == SPACE || b == TAB || b == CR
}

/// `s` without its leading blanks.
pub open spec fn spec_trim_front(s: Seq<u8>) -> Seq<u8>
    decreases s.len(),
{
    if s.len() > 0 && is_blank(s[0]) {
        spec_trim_front(s.skip(1))
    } else {
        s
    }
}

/// `s` without its trailing blanks.
pub open spec fn spec_trim_back(s: Seq<u8>) -> Seq<u8>
    decreases s.len(),
{
    if s.len() > 0 && is_blank(s[s.len() - 1]) {
        spec_trim_back(s.drop_last())
    } else {
        s
    }
}

/// `s` without leading and trailing blanks.
pub open spec fn spec_trim(s: Seq<u8>) -> Seq<u8> {
    spec_trim_back(spec_trim_front(s))
}

/// Copies `s` without its leading and trailing blanks.
pub fn trim_bytes(s: &[u8]) -> (r: Vec<u8>)
    ensures
        r@ == spec_trim(s@),
{
    let n: usize = s.len();
    proof {
        assert(s@.skip(0) =~= s@);
    }
    let mut lo: usize = 0;
    while lo < n && (s[lo] == SPACE || s[lo] == TAB || s[lo] == CR)
        invariant
            0 <= lo <= n == s@.len(),
            spec_trim_front(s@) == spec_trim_front(s@.skip(lo as int)),
        decreases n - lo,
    {
        proof {
            assert(s@.skip(lo as int).skip(1) =~= s@.skip(lo as int + 1));
        }
        lo = lo + 1;
    }
    proof {
        assert(spec_trim_front(s@) == s@.skip(lo as int));
    }
    let mut hi: usize = n;
    while hi > lo && (s[hi - 1] == SPACE || s[hi - 1] == TAB || s[hi - 1] == CR)
        invariant
            lo <= hi <= n == s@.len(),
            spec_trim_back(s@.skip(lo as int)) == spec_trim_back(s@.subrange(lo as int, hi as int)),
        decreases hi,
    {
        proof {
            assert(s@.subrange(lo as int, hi as int).drop_last() =~= s@.subrange(
                lo as int,
                hi as int - 1,
            ));
        }
        hi = hi - 1;
    }
    proof {
        assert(s@.skip(lo as int) =~= s@.subrange(lo as int, n as int));
        assert(spec_trim(s@) == s@.subrange(lo as int, hi as int));
    }
    vstd::slice::slice_to_vec(vstd::slice::slice_subrange(s, lo, hi))
}

/// Whether `b` is a decimal digit.
pub open spec fn is_digit(b: u8) -> bool {
    48 <= b <= 57
}

/// Whether `s` consists of decimal digits only.
pub open spec fn all_digits(s: Seq<u8>) -> bool {
    forall|i: int| 0 <= i < s.len() ==> is_digit(s[i])
}

/// The value of a string of decimal digits.
pub open spec fn digits_val(s: Seq<u8>) -> nat
    decreases s.len(),
{
    if s.len() == 0 {
        0
    } else {
        digits_val(s.drop_last()) * 10 + (if is_digit(s.last()) {
            (s.last() - 48) as nat
        } else {
            0
        })
    }
}

/// A digit string is worth at least any of its prefixes.
pub proof fn lemma_digits_prefix(s: Seq<u8>, k: int)
    requires
        0 <= k <= s.len(),
    ensures
        digits_val(s.subrange(0, k)) <= digits_val(s),
    decreases s.len() - k,
{
    if k == s.len() {
        assert(s.subrange(0, k) =~= s);
    } else {
        assert(s.drop_last().subrange(0, k) =~= s.subrange(0, k));
        lemma_digits_prefix(s.drop_last(), k);
    }
}

/// Whether a field holds a well-formed number: after trimming, nonempty,
/// all digits, and no larger than `u32::MAX`.
pub open spec fn field_ok(s: Seq<u8>) -> bool {
    let t = spec_trim(s);
    t.len() > 0 && all_digits(t) && digits_val(t) <= u32::MAX
}

/// The numeric value of a field.
pub open spec fn field_val(s: Seq<u8>) -> nat {
    digits_val(spec_trim(s))
}

/// Parses one numeric field: trims blanks, then reads an unsigned decimal
/// number. Returns `None` exactly on a field that is empty after trimming,
/// holds a non-digit, or exceeds `u32::MAX`.
pub fn parse_u32_field(s: &[u8]) -> (r: Option<u32>)
    ensures
        r is Some <==> field_ok(s@),
        r is Some ==> r->0 == field_val(s@),
{
    let t: Vec<u8> = trim_bytes(s);
    let n: usize = t.len();
    if n == 0 {
        return None;
    }
    let mut i: usize = 0;
    while i < n
        invariant
            0 <= i <= n == t@.len(),
            t@ == spec_trim(s@),
            forall|j: int| 0 <= j < i ==> is_digit(t@[j]),
        decreases n - i,
    {
        let b: u8 = t[i];
        if b < 48 || b > 57 {
            proof {
                assert(!is_digit(t@[i as int]));
                assert(!all_digits(t@));
            }
            return None;
        }
        i = i + 1;
    }
    let mut acc: u64 = 0;
    let mut k: usize = 0;
    while k < n
        invariant
            0 <= k <= n == t@.len(),
            t@ == spec_trim(s@),
            all_digits(t@),
            acc == digits_val(t@.subrange(0, k as int)),
            acc <= u32::MAX,
        decreases n - k,
    {
        let d: u8 = t[k];
        let v: u64 = acc * 10 + ((d - 48) as u64);
        proof {
            assert(t@.subrange(0, k as int + 1).drop_last() =~= t@.subrange(0, k as int));
            assert(t@.subrange(0, k as int + 1).last() == t@[k as int]);
            assert(is_digit(t@[k as int]));
            assert(digits_val(t@.subrange(0, k as int + 1)) == v);
        }
        if v > 0xFFFF_FFFF {
            proof {
                lemma_digits_prefix(t@, k as int + 1);
                assert(digits_val(t@) > u32::MAX);
            }
            return None;
        }
        acc = v;
        k = k + 1;
    }
    proof {
        assert(t@.subrange(0, n as int) =~= t@);
    }
    Some(acc as u32)
}

} // verus!
