//! SVG text composition and inspection: XML header handling, reading an SVG
//! document's declared intrinsic size, and wrapping raw SVG markup in an
//! `<svg>` element positioned and sized by a bounding box.

use vstd::prelude::*;
use vstd::string::*;

use crate::geometry::{Aabb, Vector2};

verus! {

// ---------------------------------------------------------------------------
// Substring search
// ---------------------------------------------------------------------------
/// Whether `pat` occurs in `s` starting at index `i`.
pub open spec fn occurs_at(s: Seq<char>, pat: Seq<char>, i: int) -> bool {
    &&& 0 <= i
    &&& i + pat.len() <= s.len()
    &&& s.subrange(i, i + pat.len()) == pat
}

/// The index of the first occurrence of `pat` in `s`, if any.
pub open spec fn first_idx(s: Seq<char>, pat: Seq<char>) -> Option<int>
    decreases s.len(),
{
    if pat.len() == 0 {
        Some(0)
    } else if s.len() < pat.len() {
        None
    } else if s.subrange(0, pat.len() as int) == pat {
        Some(0)
    } else {
        match first_idx(s.skip(1), pat) {
            None => None,
            Some(k) => Some(k + 1),
        }
    }
}

/// `first_idx` returns the least index at which `pat` occurs, and `None`
/// exactly when `pat` occurs nowhere.
pub proof fn lemma_first_idx_characterization(s: Seq<char>, pat: Seq<char>)
    ensures
        match first_idx(s, pat) {
            Some(i) => occurs_at(s, pat, i) && (forall|j: int|
                0 <= j < i ==> !occurs_at(s, pat, j)),
            None => forall|j: int| !occurs_at(s, pat, j),
        },
    decreases s.len(),
{
    if pat.len() == 0 {
        assert(s.subrange(0, 0) =~= pat);
    } else if s.len() < pat.len() {
    } else if s.subrange(0, pat.len() as int) == pat {
    } else {
        lemma_first_idx_characterization(s.skip(1), pat);
        assert forall|j: int| occurs_at(s, pat, j) && j >= 1 implies occurs_at(
            s.skip(1),
            pat,
            j - 1,
        ) by {
            assert(s.skip(1).subrange(j - 1, j - 1 + pat.len()) =~= s.subrange(
                j,
                j + pat.len(),
            ));
        }
        assert forall|j: int| occurs_at(s.skip(1), pat, j) implies occurs_at(
            s,
            pat,
            j + 1,
        ) by {
            assert(s.subrange(j + 1, j + 1 + pat.len()) =~= s.skip(1).subrange(
                j,
                j + pat.len(),
            ));
        }
    }
}

/// Whether `pat` occurs in `s` at index `i`, decided by comparing characters.
fn str_match_at(s: &str, pat: &str, i: usize, s_len: usize, pat_len: usize) -> (b: bool)
    requires
        s_len == s@.len(),
        pat_len == pat@.len(),
        i + pat@.len() <= s@.len(),
    ensures
        b == occurs_at(s@, pat@, i as int),
{
    let mut k: usize = 0;
    while k < pat_len
        invariant
            s_len == s@.len(),
            pat_len == pat@.len(),
            i + pat@.len() <= s@.len(),
            k <= pat_len,
            forall|m: int| 0 <= m < k ==> s@[i + m] == pat@[m],
        decreases pat_len - k,
    {
        if s.get_char(i + k) != pat.get_char(k) {
            assert(s@.subrange(i as int, i + pat@.len())[k as int] != pat@[k as int]);
            return false;
        }
        k = k + 1;
    }
    assert(s@.subrange(i as int, i + pat@.len()) =~= pat@);
    true
}

/// The least index at which `pat` occurs in `s`, or `None` if it occurs
/// nowhere.
fn str_find(s: &str, pat: &str) -> (r: Option<usize>)
    ensures
        match r {
            Some(i) => first_idx(s@, pat@) == Some(i as int),
            None => first_idx(s@, pat@) is None,
        },
{
    let s_len = s.unicode_len();
    let pat_len = pat.unicode_len();
    proof {
        lemma_first_idx_characterization(s@, pat@);
    }
    if pat_len > s_len {
        return None;
    }
    let bound = s_len - pat_len;
    let mut i: usize = 0;
    while i < bound
        invariant
            s_len == s@.len(),
            pat_len == pat@.len(),
            pat_len <= s_len,
            bound == s_len - pat_len,
            i <= bound,
            forall|j: int| 0 <= j < i ==> !occurs_at(s@, pat@, j),
        decreases bound - i,
    {
        if str_match_at(s, pat, i, s_len, pat_len) {
            proof {
                lemma_first_idx_characterization(s@, pat@);
            }
            return Some(i);
        }
        i = i + 1;
    }
    if str_match_at(s, pat, bound, s_len, pat_len) {
        proof {
            lemma_first_idx_characterization(s@, pat@);
        }
        return Some(bound);
    }
    assert(forall|j: int| !occurs_at(s@, pat@, j));
    None
}

// ---------------------------------------------------------------------------
// Decimal digits: reading and writing
// ---------------------------------------------------------------------------
/// Whether `c` is an ASCII decimal digit.
pub open spec fn is_digit_char(c: char) -> bool {
    48 <= c as int <= 57
}

/// The end of the run of decimal digits in `s` that starts at index `i`.
pub open spec fn digit_run_end(s: Seq<char>, i: int) -> int
    decreases s.len() - i,
{
    if 0 <= i && i < s.len() && is_digit_char(s[i]) {
        digit_run_end(s, i + 1)
    } else {
        i
    }
}

/// The value of a sequence of decimal digit characters.
pub open spec fn digits_val(s: Seq<char>) -> nat
    decreases s.len(),
{
    if s.len() == 0 {
        0
    } else {
        (digits_val(s.drop_last()) * 10 + (s.last() as int - 48)) as nat
    }
}

/// Ten to the power `n`.
pub open spec fn pow10(n: nat) -> nat
    decreases n,
{
    if n == 0 {
        1
    } else {
        10 * pow10((n - 1) as nat)
    }
}

proof fn lemma_pow10_increases(a: nat, b: nat)
    requires
        a <= b,
    ensures
        pow10(a) <= pow10(b),
    decreases b,
{
    if a < b {
        lemma_pow10_increases(a, (b - 1) as nat);
    }
}

/// Whether index `j` of `s` holds a decimal digit; `false` past the end.
fn is_digit_at(s: &str, j: usize, s_len: usize) -> (b: bool)
    requires
        s_len == s@.len(),
    ensures
        b == (j < s@.len() && is_digit_char(s@[j as int])),
{
    if j >= s_len {
        false
    } else {
        let u = s.get_char(j) as u32;
        48 <= u && u <= 57
    }
}

/// Scan forward from `start` to the end of the run of decimal digits.
fn find_digit_run_end(s: &str, start: usize, s_len: usize) -> (e: usize)
    requires
        s_len == s@.len(),
        start <= s_len,
    ensures
        e == digit_run_end(s@, start as int),
        start <= e <= s_len,
        forall|k: int| start <= k < e ==> is_digit_char(s@[k]),
{
    let mut j = start;
    while is_digit_at(s, j, s_len)
        invariant
            s_len == s@.len(),
            start <= j <= s_len,
            digit_run_end(s@, start as int) == digit_run_end(s@, j as int),
            forall|k: int| start <= k < j ==> is_digit_char(s@[k]),
        decreases s_len - j,
    {
        j = j + 1;
    }
    j
}

/// Read the value of the digit run `s[start..end]`, which holds at most nine
/// digits and therefore fits in a `u32`.
fn parse_digits(s: &str, start: usize, end: usize, s_len: usize) -> (v: u32)
    requires
        s_len == s@.len(),
        start <= end <= s_len,
        end - start <= 9,
        forall|k: int| start <= k < end ==> is_digit_char(s@[k]),
    ensures
        v as nat == digits_val(s@.subrange(start as int, end as int)),
{
    let mut j = start;
    let mut val: u32 = 0;
    while j < end
        invariant
            s_len == s@.len(),
            start <= j <= end <= s_len,
            end - start <= 9,
            forall|k: int| start <= k < end ==> is_digit_char(s@[k]),
            val as nat == digits_val(s@.subrange(start as int, j as int)),
            (val as nat) < pow10((j - start) as nat),
        decreases end - j,
    {
        let c = s.get_char(j);
        let d = (c as u32) - 48;
        proof {
            assert(s@.subrange(start as int, j + 1).drop_last() =~= s@.subrange(
                start as int,
                j as int,
            ));
            assert(s@.subrange(start as int, j + 1).last() == s@[j as int]);
            lemma_pow10_increases((j - start) as nat, 8);
            reveal_with_fuel(pow10, 10);
            assert(pow10(8) == 100000000);
        }
        val = val * 10 + d;
        j = j + 1;
    }
    val
}

// ---------------------------------------------------------------------------
// Intrinsic size of an SVG document
// ---------------------------------------------------------------------------
/// The value of the first `attr` attribute in `s`: the decimal digit run that
/// follows the first occurrence of `pat`, read as a number. `None` if `pat`
/// does not occur, no digit follows it, or the run is longer than nine
/// digits.
pub open spec fn attr_uint(s: Seq<char>, pat: Seq<char>) -> Option<nat> {
    match first_idx(s, pat) {
        None => None,
        Some(i) => {
            let start = i + pat.len();
            let end = digit_run_end(s, start);
            if end <= start || end - start > 9 {
                None
            } else {
                Some(digits_val(s.subrange(start, end)))
            }
        },
    }
}

/// Read the numeric value that follows the first occurrence of `pat` in `s`.
fn find_attr_uint(s: &str, pat: &str) -> (r: Option<u32>)
    ensures
        match (r, attr_uint(s@, pat@)) {
            (Some(v), Some(n)) => v as nat == n,
            (None, None) => true,
            _ => false,
        },
{
    let s_len = s.unicode_len();
    let pat_len = pat.unicode_len();
    match str_find(s, pat) {
        None => None,
        Some(i) => {
            proof {
                lemma_first_idx_characterization(s@, pat@);
            }
            let start = i + pat_len;
            let end = find_digit_run_end(s, start, s_len);
            if end <= start || end - start > 9 {
                None
            } else {
                Some(parse_digits(s, start, end, s_len))
            }
        },
    }
}

/// The intrinsic size an SVG document declares for itself: the numeric values
/// of its first `width="` and `height="` attributes, or `None` where either
/// is missing or unreadable.
pub open spec fn svg_intrinsic_size_spec(s: Seq<char>) -> Option<Vector2> {
    match (attr_uint(s, "width=\""@), attr_uint(s, "height=\""@)) {
        (Some(w), Some(h)) => Some(Vector2 { x: w as i64, y: h as i64 }),
        _ => None,
    }
}

/// Determine the intrinsic size an SVG document declares for itself.
pub fn svg_intrinsic_size(svg: &str) -> (r: Option<Vector2>)
    ensures
        r == svg_intrinsic_size_spec(svg@),
{
    proof {
        lemma_pow10_increases(0, 9);
        reveal_with_fuel(pow10, 11);
        assert(pow10(9) == 1000000000);
    }
    match (find_attr_uint(svg, "width=\""), find_attr_uint(svg, "height=\"")) {
        (Some(w), Some(h)) => {
            proof {
                lemma_attr_uint_fits(svg@, "width=\""@);
                lemma_attr_uint_fits(svg@, "height=\""@);
            }
            Some(Vector2 { x: w as i64, y: h as i64 })
        },
        _ => None,
    }
}

/// A readable attribute value has at most nine digits, so it is below ten to
/// the ninth.
proof fn lemma_attr_uint_fits(s: Seq<char>, pat: Seq<char>)
    ensures
        match attr_uint(s, pat) {
            Some(n) => n < 1000000000,
            None => true,
        },
{
    if attr_uint(s, pat) is Some {
        let i = first_idx(s, pat)->Some_0;
        let start = i + pat.len();
        let end = digit_run_end(s, start);
        lemma_first_idx_characterization(s, pat);
        lemma_digit_run_end_bounds(s, start);
        assert(forall|k: int|
            0 <= k < s.subrange(start, end).len() ==> is_digit_char(
                #[trigger] s.subrange(start, end)[k],
            ));
        lemma_digits_val_bound(s.subrange(start, end));
        lemma_pow10_increases(s.subrange(start, end).len() as nat, 9);
        reveal_with_fuel(pow10, 11);
        assert(pow10(9) == 1000000000);
    }
}

/// A digit run starts at its own start index, ends within the sequence, and
/// holds digits throughout.
proof fn lemma_digit_run_end_bounds(s: Seq<char>, i: int)
    requires
        0 <= i <= s.len(),
    ensures
        i <= digit_run_end(s, i) <= s.len(),
        forall|k: int| i <= k < digit_run_end(s, i) ==> is_digit_char(s[k]),
    decreases s.len() - i,
{
    if i < s.len() && is_digit_char(s[i]) {
        lemma_digit_run_end_bounds(s, i + 1);
    }
}

/// The value of a digit sequence is below ten to its length.
proof fn lemma_digits_val_bound(s: Seq<char>)
    requires
        forall|k: int| 0 <= k < s.len() ==> is_digit_char(s[k]),
    ensures
        digits_val(s) < pow10(s.len() as nat),
    decreases s.len(),
{
    if s.len() > 0 {
        lemma_digits_val_bound(s.drop_last());
    }
}

// ---------------------------------------------------------------------------
// XML header handling
// ---------------------------------------------------------------------------
/// Whether the text starts with an XML declaration.
pub open spec fn starts_with_xml_decl(s: Seq<char>) -> bool {
    occurs_at(s, "<?xml"@, 0)
}

/// The header that `add_xml_header` prepends.
pub open spec fn xml_header() -> Seq<char> {
    "<?xml version=\"1.0\" encoding=\"UTF-8\" standalone=\"no\"?>\n"@
}

/// `s` with a leading XML declaration removed: everything after the first
/// `?>` when `s` starts with `<?xml`, `s` unchanged otherwise (also when the
/// declaration is unterminated).
pub open spec fn remove_xml_header_spec(s: Seq<char>) -> Seq<char> {
    if starts_with_xml_decl(s) {
        match first_idx(s, "?>"@) {
            Some(i) => s.skip(i + "?>"@.len()),
            None => s,
        }
    } else {
        s
    }
}

/// `s` with an XML declaration in front: unchanged when one is already
/// there, prepended with the standard header otherwise.
pub open spec fn add_xml_header_spec(s: Seq<char>) -> Seq<char> {
    if starts_with_xml_decl(s) {
        s
    } else {
        xml_header() + s
    }
}

/// Whether the text starts with an XML declaration.
fn has_xml_decl(svg: &str, s_len: usize) -> (b: bool)
    requires
        s_len == svg@.len(),
    ensures
        b == starts_with_xml_decl(svg@),
{
    let pat = "<?xml";
    let pat_len = pat.unicode_len();
    if s_len < pat_len {
        return false;
    }
    str_match_at(svg, pat, 0, s_len, pat_len)
}

/// Strip a leading XML declaration from an SVG document.
pub fn remove_xml_header(svg: &str) -> (r: String)
    ensures
        r@ == remove_xml_header_spec(svg@),
{
    let s_len = svg.unicode_len();
    if !has_xml_decl(svg, s_len) {
        return String::from_str(svg);
    }
    match str_find(svg, "?>") {
        Some(i) => {
            proof {
                lemma_first_idx_characterization(svg@, "?>"@);
                reveal_strlit("?>");
            }
            let cut = i + 2;
            let rest = svg.substring_char(cut, s_len);
            proof {
                assert(rest@ =~= svg@.skip(i + "?>"@.len()));
            }
            String::from_str(rest)
        },
        None => String::from_str(svg),
    }
}

/// Prepend the XML declaration to an SVG document that lacks one.
pub fn add_xml_header(svg: &str) -> (r: String)
    ensures
        r@ == add_xml_header_spec(svg@),
{
    let s_len = svg.unicode_len();
    if has_xml_decl(svg, s_len) {
        String::from_str(svg)
    } else {
        let mut out = String::from_str(
            "<?xml version=\"1.0\" encoding=\"UTF-8\" standalone=\"no\"?>\n",
        );
        out.append(svg);
        out
    }
}

// ---------------------------------------------------------------------------
// Decimal formatting
// ---------------------------------------------------------------------------
/// The digit character for the value `d`.
pub open spec fn digit_char(d: int) -> char {
    ((48 + d) as u8) as char
}

/// The decimal digits of the non-negative number `n`.
pub open spec fn u_dec(n: nat) -> Seq<char>
    decreases n,
{
    if n < 10 {
        seq![digit_char(n as int)]
    } else {
        u_dec(n / 10) + seq![digit_char((n % 10) as int)]
    }
}

/// The decimal rendering of `n`, with a leading minus sign when negative.
pub open spec fn i_dec(n: int) -> Seq<char> {
    if n < 0 {
        seq!['-'] + u_dec((-n) as nat)
    } else {
        u_dec(n as nat)
    }
}

/// Append the digit character for `d` to `out`.
fn push_digit(out: &mut String, d: u8)
    requires
        d <= 9,
    ensures
        final(out)@ == old(out)@ + seq![digit_char(d as int)],
{
    match d {
        0 => {
            out.append("0");
            proof {
                reveal_strlit("0");
                assert("0"@ =~= seq![digit_char(0)]);
            }
        },
        1 => {
            out.append("1");
            proof {
                reveal_strlit("1");
                assert("1"@ =~= seq![digit_char(1)]);
            }
        },
        2 => {
            out.append("2");
            proof {
                reveal_strlit("2");
                assert("2"@ =~= seq![digit_char(2)]);
            }
        },
        3 => {
            out.append("3");
            proof {
                reveal_strlit("3");
                assert("3"@ =~= seq![digit_char(3)]);
            }
        },
        4 => {
            out.append("4");
            proof {
                reveal_strlit("4");
                assert("4"@ =~= seq![digit_char(4)]);
            }
        },
        5 => {
            out.append("5");
            proof {
                reveal_strlit("5");
                assert("5"@ =~= seq![digit_char(5)]);
            }
        },
        6 => {
            out.append("6");
            proof {
                reveal_strlit("6");
                assert("6"@ =~= seq![digit_char(6)]);
            }
        },
        7 => {
            out.append("7");
            proof {
                reveal_strlit("7");
                assert("7"@ =~= seq![digit_char(7)]);
            }
        },
        8 => {
            out.append("8");
            proof {
                reveal_strlit("8");
                assert("8"@ =~= seq![digit_char(8)]);
            }
        },
        _ => {
            out.append("9");
            proof {
                reveal_strlit("9");
                assert("9"@ =~= seq![digit_char(9)]);
            }
        },
    }
}

/// Append the decimal digits of `n` to `out`.
fn push_u64_dec(out: &mut String, n: u64)
    ensures
        final(out)@ == old(out)@ + u_dec(n as nat),
    decreases n,
{
    if n < 10 {
        push_digit(out, n as u8);
    } else {
        push_u64_dec(out, n / 10);
        push_digit(out, (n % 10) as u8);
    }
}

/// Append the decimal rendering of `n` to `out`.
fn push_i64_dec(out: &mut String, n: i64)
    ensures
        final(out)@ == old(out)@ + i_dec(n as int),
{
    if n >= 0 {
        push_u64_dec(out, n as u64);
    } else {
        out.append("-");
        let m: u64 = ((-(n + 1)) as u64) + 1;
        push_u64_dec(out, m);
        proof {
            reveal_strlit("-");
            assert("-"@ =~= seq!['-']);
            assert(m as nat == (-(n as int)) as nat);
        }
    }
}

// ---------------------------------------------------------------------------
// Wrapping SVG markup
// ---------------------------------------------------------------------------
/// Whether the extents of `bounds` are representable in `i64`.
pub open spec fn extents_in_range(bounds: Aabb) -> bool {
    &&& i64::MIN <= bounds.maxs.x - bounds.mins.x <= i64::MAX
    &&& i64::MIN <= bounds.maxs.y - bounds.mins.y <= i64::MAX
}

/// The markup that wraps `data` in an `<svg>` element placed and sized by
/// `bounds`, with `intrinsic_size` as the view box.
pub open spec fn wrap_svg_spec(data: Seq<char>, bounds: Aabb, intrinsic_size: Vector2) -> Seq<
    char,
> {
    "<svg x=\""@ + i_dec(bounds.mins.x as int) + "\" y=\""@ + i_dec(bounds.mins.y as int)
        + "\" width=\""@ + i_dec(bounds.maxs.x - bounds.mins.x) + "\" height=\""@ + i_dec(
        bounds.maxs.y - bounds.mins.y,
    ) + "\" viewBox=\"0 0 "@ + i_dec(intrinsic_size.x as int) + " "@ + i_dec(
        intrinsic_size.y as int,
    ) + "\" preserveAspectRatio=\"none\" xmlns=\"http://www.w3.org/2000/svg\">\n"@ + data
        + "\n</svg>"@
}

/// Wrap raw SVG markup in an `<svg>` element placed and sized by `bounds`,
/// annotated with `intrinsic_size` as the view box.
pub fn wrap_svg(data: &str, bounds: Aabb, intrinsic_size: Vector2) -> (r: String)
    requires
        extents_in_range(bounds),
    ensures
        r@ == wrap_svg_spec(data@, bounds, intrinsic_size),
{
    let mut out = String::from_str("<svg x=\"");
    push_i64_dec(&mut out, bounds.mins.x);
    out.append("\" y=\"");
    push_i64_dec(&mut out, bounds.mins.y);
    out.append("\" width=\"");
    push_i64_dec(&mut out, bounds.maxs.x - bounds.mins.x);
    out.append("\" height=\"");
    push_i64_dec(&mut out, bounds.maxs.y - bounds.mins.y);
    out.append("\" viewBox=\"0 0 ");
    push_i64_dec(&mut out, intrinsic_size.x);
    out.append(" ");
    push_i64_dec(&mut out, intrinsic_size.y);
    out.append("\" preserveAspectRatio=\"none\" xmlns=\"http://www.w3.org/2000/svg\">\n");
    out.append(data);
    out.append("\n</svg>");
    proof {
        assert(out@ =~= wrap_svg_spec(data@, bounds, intrinsic_size));
    }
    out
}

} // verus!
