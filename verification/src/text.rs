//! Character-sequence utilities the library's contracts are stated over:
//! whitespace trimming, literal substring replacement and decimal formatting.

use vstd::prelude::*;

verus! {

/// A character this library treats as whitespace: the Unicode `White_Space`
/// set, the same set `str::trim` strips.
pub open spec fn is_ws(c: char) -> bool {
    let n = c as int;
    (9 <= n && n <= 13) || n == 32 || n == 0x85 || n == 0xA0 || n == 0x1680
        || (0x2000 <= n && n <= 0x200A) || n == 0x2028 || n == 0x2029 || n == 0x202F
        || n == 0x205F || n == 0x3000
}

/// Runtime test for [`is_ws`].
pub fn is_ws_char(c: char) -> (r: bool)
    ensures
        r == is_ws(c),
{
    let n = c as u32;
    (9 <= n && n <= 13) || n == 32 || n == 0x85 || n == 0xA0 || n == 0x1680
        || (0x2000 <= n && n <= 0x200A) || n == 0x2028 || n == 0x2029 || n == 0x202F
        || n == 0x205F || n == 0x3000
}

/// `s` with every leading whitespace character removed.
pub open spec fn trim_start_spec(s: Seq<char>) -> Seq<char>
    decreases s.len(),
{
    if s.len() > 0 && is_ws(s[0]) {
        trim_start_spec(s.skip(1))
    } else {
        s
    }
}

/// `s` with every trailing whitespace character removed.
pub open spec fn trim_end_spec(s: Seq<char>) -> Seq<char>
    decreases s.len(),
{
    if s.len() > 0 && is_ws(s.last()) {
        trim_end_spec(s.drop_last())
    } else {
        s
    }
}

/// `s` with leading and trailing whitespace removed, as `str::trim` leaves it.
pub open spec fn trim_spec(s: Seq<char>) -> Seq<char> {
    trim_end_spec(trim_start_spec(s))
}

proof fn lemma_trim_start_skip(s: Seq<char>, i: int)
    requires
        0 <= i <= s.len(),
        forall|k: int| 0 <= k < i ==> is_ws(s[k]),
    ensures
        trim_start_spec(s) == trim_start_spec(s.skip(i)),
    decreases i,
{
    if i == 0 {
        assert(s.skip(0) =~= s);
    } else {
        assert(is_ws(s[0]));
        lemma_trim_start_skip(s.skip(1), i - 1);
        assert(s.skip(1).skip(i - 1) =~= s.skip(i));
    }
}

proof fn lemma_trim_end_take(s: Seq<char>, j: int)
    requires
        0 <= j <= s.len(),
        forall|k: int| j <= k < s.len() ==> is_ws(s[k]),
    ensures
        trim_end_spec(s) == trim_end_spec(s.take(j)),
    decreases s.len() - j,
{
    if j == s.len() {
        assert(s.take(j) =~= s);
    } else {
        assert(is_ws(s.last()));
        lemma_trim_end_take(s.drop_last(), j);
        assert(s.drop_last().take(j) =~= s.take(j));
    }
}

/// Removes leading and trailing whitespace, as `str::trim` does.
pub fn trim(s: &str) -> (r: String)
    ensures
        r@ == trim_spec(s@),
{
    let n = s.unicode_len();
    let mut i: usize = 0;
    while i < n
        invariant
            i <= n,
            n == s@.len(),
            forall|k: int| 0 <= k < i ==> is_ws(s@[k]),
        ensures
            i <= n,
            forall|k: int| 0 <= k < i ==> is_ws(s@[k]),
            i < n ==> !is_ws(s@[i as int]),
        decreases n - i,
    {
        if !is_ws_char(s.get_char(i)) {
            break;
        }
        i += 1;
    }
    let mut j: usize = n;
    while j > i
        invariant
            i <= j <= n,
            n == s@.len(),
            forall|k: int| j <= k < n ==> is_ws(s@[k]),
        ensures
            i <= j <= n,
            forall|k: int| j <= k < n ==> is_ws(s@[k]),
            j > i ==> !is_ws(s@[j - 1]),
        decreases j,
    {
        if !is_ws_char(s.get_char(j - 1)) {
            break;
        }
        j -= 1;
    }
    proof {
        lemma_trim_start_skip(s@, i as int);
        let t = s@.skip(i as int);
        if i < n {
            assert(t[0] == s@[i as int]);
            assert(trim_start_spec(t) == t);
        } else {
            assert(t.len() == 0);
            assert(trim_start_spec(t) == t);
        }
        lemma_trim_end_take(t, j - i);
        let u = t.take(j - i);
        assert(u =~= s@.subrange(i as int, j as int));
        if j > i {
            assert(u.last() == s@[j - 1]);
            assert(trim_end_spec(u) == u);
        } else {
            assert(u.len() == 0);
            assert(trim_end_spec(u) == u);
        }
    }
    s.substring_char(i, j).to_owned()
}

/// True when `s` trims to nothing, i.e. holds no non-whitespace character.
pub fn is_blank(s: &str) -> (r: bool)
    ensures
        r == (trim_spec(s@).len() == 0),
{
    let t = trim(s);
    t.as_str().is_empty()
}

/// A line-feed or carriage-return character.
pub open spec fn is_newline(c: char) -> bool {
    c == '\n' || c == '\r'
}

/// `s` with every trailing `'\n'` or `'\r'` removed, as
/// `str::trim_end_matches(['\r', '\n'])` leaves it.
pub open spec fn strip_trailing_newlines(s: Seq<char>) -> Seq<char>
    decreases s.len(),
{
    if s.len() > 0 && is_newline(s.last()) {
        strip_trailing_newlines(s.drop_last())
    } else {
        s
    }
}

proof fn lemma_strip_newlines_take(s: Seq<char>, j: int)
    requires
        0 <= j <= s.len(),
        forall|k: int| j <= k < s.len() ==> is_newline(s[k]),
    ensures
        strip_trailing_newlines(s) == strip_trailing_newlines(s.take(j)),
    decreases s.len() - j,
{
    if j == s.len() {
        assert(s.take(j) =~= s);
    } else {
        assert(is_newline(s.last()));
        lemma_strip_newlines_take(s.drop_last(), j);
        assert(s.drop_last().take(j) =~= s.take(j));
    }
}

/// Removes trailing line breaks, as the prompt reader strips them from
/// standard input.
pub fn trim_end_newlines(s: &str) -> (r: String)
    ensures
        r@ == strip_trailing_newlines(s@),
{
    let n = s.unicode_len();
    let mut j: usize = n;
    while j > 0
        invariant
            j <= n,
            n == s@.len(),
            forall|k: int| j <= k < n ==> is_newline(s@[k]),
        ensures
            j <= n,
            forall|k: int| j <= k < n ==> is_newline(s@[k]),
            j > 0 ==> !is_newline(s@[j - 1]),
        decreases j,
    {
        let c = s.get_char(j - 1);
        if !(c == '\n' || c == '\r') {
            break;
        }
        j -= 1;
    }
    proof {
        lemma_strip_newlines_take(s@, j as int);
        let u = s@.take(j as int);
        if j > 0 {
            assert(u.last() == s@[j - 1]);
            assert(strip_trailing_newlines(u) == u);
        } else {
            assert(u.len() == 0);
            assert(strip_trailing_newlines(u) == u);
        }
    }
    s.substring_char(0, j).to_owned()
}

/// `s` with every occurrence of `pat` replaced by `rep`, scanning left to
/// right without overlap, as `str::replace` produces it. When `pat` is empty
/// or longer than what remains, the text is kept as it is.
pub open spec fn replace_spec(s: Seq<char>, pat: Seq<char>, rep: Seq<char>) -> Seq<char>
    decreases s.len(),
{
    if pat.len() == 0 || s.len() < pat.len() {
        s
    } else if s.take(pat.len() as int) == pat {
        rep + replace_spec(s.skip(pat.len() as int), pat, rep)
    } else {
        seq![s[0]] + replace_spec(s.skip(1), pat, rep)
    }
}

fn match_at(s: &str, pat: &str, i: usize, n: usize, m: usize) -> (r: bool)
    requires
        n == s@.len(),
        m == pat@.len(),
        i + m <= n,
    ensures
        r == (s@.subrange(i as int, i as int + m as int) == pat@),
{
    let mut j: usize = 0;
    while j < m
        invariant
            j <= m,
            n == s@.len(),
            m == pat@.len(),
            i + m <= n,
            forall|k: int| 0 <= k < j ==> s@[i + k] == pat@[k],
        decreases m - j,
    {
        if s.get_char(i + j) != pat.get_char(j) {
            proof {
                let sub = s@.subrange(i as int, i as int + m as int);
                assert(sub[j as int] == s@[i + j as int]);
                assert(sub[j as int] != pat@[j as int]);
            }
            return false;
        }
        j += 1;
    }
    proof {
        assert(s@.subrange(i as int, i as int + m as int) =~= pat@);
    }
    true
}

/// Replaces every occurrence of `pat` in `s` by `rep`, scanning left to right
/// without overlap, as `str::replace` does.
pub fn replace_all(s: &str, pat: &str, rep: &str) -> (r: String)
    requires
        pat@.len() > 0,
    ensures
        r@ == replace_spec(s@, pat@, rep@),
{
    let n = s.unicode_len();
    let m = pat.unicode_len();
    let mut out = String::new();
    let mut i: usize = 0;
    proof {
        assert(s@.skip(0) =~= s@);
        assert(out@ + replace_spec(s@, pat@, rep@) =~= replace_spec(s@, pat@, rep@));
    }
    while i < n
        invariant
            i <= n,
            n == s@.len(),
            m == pat@.len(),
            m > 0,
            replace_spec(s@, pat@, rep@) == out@ + replace_spec(s@.skip(i as int), pat@, rep@),
        decreases n - i,
    {
        let ghost rem = s@.skip(i as int);
        if m <= n - i && match_at(s, pat, i, n, m) {
            out.append(rep);
            proof {
                assert(rem.take(m as int) =~= s@.subrange(i as int, i as int + m as int));
                assert(rem.skip(m as int) =~= s@.skip(i as int + m as int));
                assert(replace_spec(rem, pat@, rep@) == rep@ + replace_spec(
                    s@.skip(i as int + m as int),
                    pat@,
                    rep@,
                ));
            }
            i += m;
        } else {
            let c = s.substring_char(i, i + 1);
            proof {
                assert(c@ =~= seq![s@[i as int]]);
                assert(rem[0] == s@[i as int]);
                assert(rem.skip(1) =~= s@.skip(i as int + 1));
                if m <= rem.len() {
                    assert(rem.take(m as int) =~= s@.subrange(i as int, i as int + m as int));
                    assert(replace_spec(rem, pat@, rep@) == seq![rem[0]] + replace_spec(
                        rem.skip(1),
                        pat@,
                        rep@,
                    ));
                } else {
                    assert(replace_spec(rem, pat@, rep@) == rem);
                    assert(replace_spec(rem.skip(1), pat@, rep@) == rem.skip(1));
                    assert(rem =~= seq![rem[0]] + rem.skip(1));
                }
            }
            out.append(c);
            i += 1;
        }
    }
    proof {
        assert(s@.skip(n as int).len() == 0);
        assert(out@ + s@.skip(n as int) =~= out@);
    }
    out
}

/// The digit character for a value between 0 and 9.
pub open spec fn digit_char(d: int) -> char {
    if d == 0 {
        '0'
    } else if d == 1 {
        '1'
    } else if d == 2 {
        '2'
    } else if d == 3 {
        '3'
    } else if d == 4 {
        '4'
    } else if d == 5 {
        '5'
    } else if d == 6 {
        '6'
    } else if d == 7 {
        '7'
    } else if d == 8 {
        '8'
    } else {
        '9'
    }
}

/// The decimal digits of a non-negative number, most significant first.
pub open spec fn dec_digits(n: int) -> Seq<char>
    decreases n,
{
    if n < 10 {
        seq![digit_char(n)]
    } else {
        dec_digits(n / 10).push(digit_char(n % 10))
    }
}

/// The decimal rendering of a signed number, with a leading `'-'` when
/// negative.
pub open spec fn int_digits(n: int) -> Seq<char> {
    if n < 0 {
        seq!['-'] + dec_digits(-n)
    } else {
        dec_digits(n)
    }
}

spec fn msb_digits(rev: Seq<u64>) -> Seq<char>
    decreases rev.len(),
{
    if rev.len() == 0 {
        Seq::empty()
    } else {
        seq![digit_char(rev.last() as int)] + msb_digits(rev.drop_last())
    }
}

/// Renders an unsigned number in decimal.
pub fn u64_to_string(v: u64) -> (r: String)
    ensures
        r@ == dec_digits(v as int),
{
    let digits = "0123456789";
    proof {
        reveal_strlit("0123456789");
    }
    let mut rev: Vec<u64> = Vec::new();
    let mut mval = v;
    if mval == 0 {
        let r = digits.substring_char(0, 1).to_owned();
        proof {
            assert(r@ =~= seq![digit_char(0)]);
        }
        return r;
    }
    while mval > 0
        invariant
            forall|k: int| 0 <= k < rev@.len() ==> rev@[k] < 10,
            dec_digits(v as int) == (if mval > 0 {
                dec_digits(mval as int)
            } else {
                Seq::<char>::empty()
            }) + msb_digits(rev@),
        decreases mval,
    {
        let d = mval % 10;
        let ghost prev = rev@;
        let ghost pm = mval as int;
        rev.push(d);
        mval = mval / 10;
        proof {
            assert(rev@.drop_last() =~= prev);
            assert(rev@.last() == d);
            assert(msb_digits(rev@) == seq![digit_char(d as int)] + msb_digits(prev));
            if pm >= 10 {
                assert(dec_digits(pm) == dec_digits(pm / 10).push(digit_char(pm % 10)));
                assert(dec_digits(pm) =~= dec_digits(pm / 10) + seq![digit_char(pm % 10)]);
                assert(dec_digits(pm / 10) + seq![digit_char(d as int)] + msb_digits(prev)
                    =~= dec_digits(pm / 10) + (seq![digit_char(d as int)] + msb_digits(prev)));
                assert(dec_digits(v as int) == dec_digits(mval as int) + msb_digits(rev@));
            } else {
                assert(dec_digits(pm) =~= seq![digit_char(d as int)]);
                assert(seq![digit_char(d as int)] + msb_digits(prev) =~= dec_digits(pm)
                    + msb_digits(prev));
                assert(dec_digits(v as int) == Seq::<char>::empty() + msb_digits(rev@));
            }
        }
    }
    let mut out = String::new();
    let mut i: usize = rev.len();
    proof {
        assert(rev@.take(i as int) =~= rev@);
        assert(Seq::<char>::empty() + msb_digits(rev@) =~= msb_digits(rev@));
        assert(out@ + msb_digits(rev@.take(i as int)) =~= dec_digits(v as int));
    }
    while i > 0
        invariant
            i <= rev@.len(),
            digits@ == "0123456789"@,
            forall|k: int| 0 <= k < rev@.len() ==> rev@[k] < 10,
            out@ + msb_digits(rev@.take(i as int)) == dec_digits(v as int),
        decreases i,
    {
        i -= 1;
        let d = rev[i];
        proof {
            reveal_strlit("0123456789");
        }
        let c = digits.substring_char(d as usize, d as usize + 1);
        proof {
            assert(c@ =~= seq![digit_char(d as int)]);
            let t = rev@.take(i as int + 1);
            assert(t.drop_last() =~= rev@.take(i as int));
            assert(t.last() == rev@[i as int]);
            assert(msb_digits(t) == seq![digit_char(d as int)] + msb_digits(rev@.take(i as int)));
            assert(out@ + c@ + msb_digits(rev@.take(i as int)) =~= out@ + (c@ + msb_digits(
                rev@.take(i as int),
            )));
        }
        out.append(c);
    }
    proof {
        assert(rev@.take(0).len() == 0);
        assert(out@ + msb_digits(rev@.take(0)) =~= out@);
    }
    out
}

/// Renders a signed number in decimal, with a leading `'-'` when negative.
pub fn i64_to_string(v: i64) -> (r: String)
    ensures
        r@ == int_digits(v as int),
{
    if v >= 0 {
        u64_to_string(v as u64)
    } else {
        let mag: u64 = if v == i64::MIN {
            9223372036854775808u64
        } else {
            (-v) as u64
        };
        let mut out = "-".to_owned();
        proof {
            reveal_strlit("-");
            assert(out@ =~= seq!['-']);
            assert(mag as int == -(v as int));
        }
        let tail = u64_to_string(mag);
        out.append(tail.as_str());
        out
    }
}

} // verus!
