//! Character-level text utilities: ASCII case folding, substring
//! search, prefix/suffix tests, whitespace trimming and decimal
//! conversion. Output classification, state parsing and path checks are
//! all built on these.

use vstd::prelude::*;
use vstd::string::StringExecFns;
use vstd::string::StrSliceExecFns;

verus! {

/// The character for one decimal digit.
pub open spec fn digit_char(d: nat) -> char {
    if d == 0 {
        '0'
    } else if d == 1 {
        '1'
    } else if d == 2 {
        '2'
    } else if d == 3 {
        '3'
    } else if d == 4 {
        '4'
    } else if d == 5 {
        '5'
    } else if d == 6 {
        '6'
    } else if d == 7 {
        '7'
    } else if d == 8 {
        '8'
    } else {
        '9'
    }
}

/// The decimal rendering of a natural number, most significant digit first.
pub open spec fn dec_seq(n: nat) -> Seq<char>
    decreases n,
{
    if n < 10 {
        seq![digit_char(n)]
    } else {
        dec_seq(n / 10).push(digit_char(n % 10))
    }
}

/// The decimal rendering of a signed number: a minus sign before the
/// magnitude when negative.
pub open spec fn dec_seq_i64(n: int) -> Seq<char> {
    if n < 0 {
        seq!['-'] + dec_seq((-n) as nat)
    } else {
        dec_seq(n as nat)
    }
}

fn digit_str(d: u64) -> (r: &'static str)
    requires
        d < 10,
    ensures
        r@ == seq![digit_char(d as nat)],
{
    proof {
        reveal_strlit("0");
        reveal_strlit("1");
        reveal_strlit("2");
        reveal_strlit("3");
        reveal_strlit("4");
        reveal_strlit("5");
        reveal_strlit("6");
        reveal_strlit("7");
        reveal_strlit("8");
        reveal_strlit("9");
    }
    let r: &'static str = if d == 0 {
        "0"
    } else if d == 1 {
        "1"
    } else if d == 2 {
        "2"
    } else if d == 3 {
        "3"
    } else if d == 4 {
        "4"
    } else if d == 5 {
        "5"
    } else if d == 6 {
        "6"
    } else if d == 7 {
        "7"
    } else if d == 8 {
        "8"
    } else {
        "9"
    };
    proof {
        assert(r@ =~= seq![digit_char(d as nat)]);
    }
    r
}

/// Decimal rendering of a `u64`.
pub fn u64_to_string(n: u64) -> (s: String)
    ensures
        s@ == dec_seq(n as nat),
    decreases n,
{
    if n < 10 {
        String::from_str(digit_str(n))
    } else {
        let s = u64_to_string(n / 10);
        let r = s.concat(digit_str(n % 10));
        proof {
            assert(r@ =~= dec_seq(n as nat));
        }
        r
    }
}

/// Decimal rendering of an `i64`, with a leading minus sign when negative.
pub fn i64_to_string(n: i64) -> (s: String)
    ensures
        s@ == dec_seq_i64(n as int),
{
    if n >= 0 {
        u64_to_string(n as u64)
    } else {
        let m: u64 = ((-(n + 1)) as u64) + 1;
        proof {
            reveal_strlit("-");
            assert(m == -(n as int));
        }
        let r = String::from_str("-").concat(u64_to_string(m).as_str());
        proof {
            assert(r@ =~= dec_seq_i64(n as int));
        }
        r
    }
}

/// Decimal rendering of a `u64` below 100, always two digits.
pub fn u64_to_string_pad2(n: u64) -> (s: String)
    requires
        n < 100,
    ensures
        s@ == (if n < 10 {
            seq![digit_char(0)] + dec_seq(n as nat)
        } else {
            dec_seq(n as nat)
        }),
{
    if n < 10 {
        let r = String::from_str(digit_str(0)).concat(digit_str(n));
        proof {
            assert(r@ =~= seq![digit_char(0)] + dec_seq(n as nat));
        }
        r
    } else {
        u64_to_string(n)
    }
}

/// The character of one hexadecimal digit, lower case.
pub open spec fn hex_char(d: nat) -> char {
    if d < 10 {
        digit_char(d)
    } else if d == 10 {
        'a'
    } else if d == 11 {
        'b'
    } else if d == 12 {
        'c'
    } else if d == 13 {
        'd'
    } else if d == 14 {
        'e'
    } else {
        'f'
    }
}

/// The lower-case hexadecimal rendering of a byte string: two digits
/// per byte, most significant first.
pub open spec fn hex_of(bytes: Seq<u8>) -> Seq<char>
    decreases bytes.len(),
{
    if bytes.len() == 0 {
        Seq::empty()
    } else {
        hex_of(bytes.drop_last()) + seq![
            hex_char((bytes.last() / 16) as nat),
            hex_char((bytes.last() % 16) as nat),
        ]
    }
}

fn hex_digit_str(d: u8) -> (r: &'static str)
    requires
        d < 16,
    ensures
        r@ == seq![hex_char(d as nat)],
{
    if d < 10 {
        digit_str(d as u64)
    } else {
        proof {
            reveal_strlit("a");
            reveal_strlit("b");
            reveal_strlit("c");
            reveal_strlit("d");
            reveal_strlit("e");
            reveal_strlit("f");
        }
        let r: &'static str = if d == 10 {
            "a"
        } else if d == 11 {
            "b"
        } else if d == 12 {
            "c"
        } else if d == 13 {
            "d"
        } else if d == 14 {
            "e"
        } else {
            "f"
        };
        proof {
            assert(r@ =~= seq![hex_char(d as nat)]);
        }
        r
    }
}

/// Renders a byte string as lower-case hexadecimal, two digits per
/// byte.
pub fn bytes_to_hex(bytes: &Vec<u8>) -> (r: String)
    ensures
        r@ == hex_of(bytes@),
        r@.len() == 2 * bytes@.len(),
{
    let mut out = String::new();
    let n = bytes.len();
    let mut i: usize = 0;
    while i < n
        invariant
            0 <= i <= n,
            n == bytes@.len(),
            out@ == hex_of(bytes@.subrange(0, i as int)),
            out@.len() == 2 * i,
        decreases n - i,
    {
        let b = bytes[i];
        out.append(hex_digit_str(b / 16));
        out.append(hex_digit_str(b % 16));
        proof {
            let cur = bytes@.subrange(0, i + 1);
            assert(cur.drop_last() =~= bytes@.subrange(0, i as int));
            assert(cur.last() == bytes@[i as int]);
            assert(out@ =~= hex_of(cur));
        }
        i = i + 1;
    }
    proof {
        assert(bytes@.subrange(0, n as int) =~= bytes@);
    }
    out
}

/// The ASCII-lowered code point of a character.
pub open spec fn lower_u32(x: u32) -> u32 {
    if 65 <= x <= 90 {
        (x + 32) as u32
    } else {
        x
    }
}

/// Character equality up to ASCII case.
pub open spec fn char_eq_ci(a: char, b: char) -> bool {
    lower_u32(a as u32) == lower_u32(b as u32)
}

/// `needle` stands in `hay` at position `i`.
pub open spec fn matches_at_chars(hay: Seq<char>, needle: Seq<char>, i: int) -> bool {
    0 <= i && i + needle.len() <= hay.len() && hay.subrange(i, i + needle.len()) == needle
}

/// `needle` occurs somewhere in `hay`.
pub open spec fn contains_chars(hay: Seq<char>, needle: Seq<char>) -> bool {
    exists|i: int| matches_at_chars(hay, needle, i)
}

/// `needle` stands in `hay` at position `i`, up to ASCII case.
pub open spec fn matches_at_chars_ci(hay: Seq<char>, needle: Seq<char>, i: int) -> bool {
    &&& 0 <= i
    &&& i + needle.len() <= hay.len()
    &&& forall|k: int| 0 <= k < needle.len() ==> char_eq_ci(#[trigger] hay[i + k], needle[k])
}

/// `needle` occurs somewhere in `hay`, up to ASCII case.
pub open spec fn contains_chars_ci(hay: Seq<char>, needle: Seq<char>) -> bool {
    exists|i: int| matches_at_chars_ci(hay, needle, i)
}

/// The characters of a string, as a vector.
pub fn to_chars(s: &str) -> (v: Vec<char>)
    ensures
        v@ == s@,
{
    let n = s.unicode_len();
    let mut v: Vec<char> = Vec::new();
    let mut i: usize = 0;
    while i < n
        invariant
            0 <= i <= n,
            n == s@.len(),
            v@.len() == i,
            forall|j: int| 0 <= j < i ==> v@[j] == s@[j],
        decreases n - i,
    {
        v.push(s.get_char(i));
        i = i + 1;
    }
    assert(v@ =~= s@);
    v
}

fn char_eq_ci_exec(a: char, b: char) -> (r: bool)
    ensures
        r == char_eq_ci(a, b),
{
    let x = a as u32;
    let y = b as u32;
    let xl = if 65 <= x && x <= 90 {
        x + 32
    } else {
        x
    };
    let yl = if 65 <= y && y <= 90 {
        y + 32
    } else {
        y
    };
    xl == yl
}

fn matches_at_chars_exec(hay: &Vec<char>, needle: &Vec<char>, i: usize, ci: bool) -> (r: bool)
    requires
        i + needle@.len() <= hay@.len(),
    ensures
        ci ==> r == matches_at_chars_ci(hay@, needle@, i as int),
        !ci ==> r == matches_at_chars(hay@, needle@, i as int),
{
    let m: usize = needle.len();
    let n: usize = hay.len();
    let mut j: usize = 0;
    while j < m
        invariant
            0 <= j <= m,
            m == needle@.len(),
            n == hay@.len(),
            i + m <= n,
            ci ==> forall|k: int| 0 <= k < j ==> char_eq_ci(#[trigger] hay@[i + k], needle@[k]),
            !ci ==> forall|k: int| 0 <= k < j ==> hay@[i + k] == needle@[k],
        decreases m - j,
    {
        let ok = if ci {
            char_eq_ci_exec(hay[i + j], needle[j])
        } else {
            hay[i + j] == needle[j]
        };
        if !ok {
            proof {
                if !ci {
                    assert(hay@.subrange(i as int, i + m) != needle@) by {
                        assert(hay@.subrange(i as int, i + m)[j as int] != needle@[j as int]);
                    }
                }
            }
            return false;
        }
        j = j + 1;
    }
    proof {
        if !ci {
            assert(hay@.subrange(i as int, i + m) =~= needle@);
        }
    }
    true
}

/// The first position where `needle` occurs in `hay`, up to ASCII case
/// when `ci` is set.
pub fn find_chars(hay: &Vec<char>, needle: &Vec<char>, ci: bool) -> (r: Option<usize>)
    ensures
        ci ==> match r {
            Some(i) => matches_at_chars_ci(hay@, needle@, i as int) && forall|j: int|
                0 <= j < i ==> !matches_at_chars_ci(hay@, needle@, j),
            None => !contains_chars_ci(hay@, needle@),
        },
        !ci ==> match r {
            Some(i) => matches_at_chars(hay@, needle@, i as int) && forall|j: int|
                0 <= j < i ==> !matches_at_chars(hay@, needle@, j),
            None => !contains_chars(hay@, needle@),
        },
{
    if needle.len() > hay.len() {
        proof {
            assert(forall|i: int| !matches_at_chars(hay@, needle@, i));
            assert(forall|i: int| !matches_at_chars_ci(hay@, needle@, i));
        }
        return None;
    }
    let last: usize = hay.len() - needle.len();
    let mut i: usize = 0;
    loop
        invariant
            0 <= i <= last,
            last == hay@.len() - needle@.len(),
            needle@.len() <= hay@.len(),
            ci ==> forall|j: int| 0 <= j < i ==> !matches_at_chars_ci(hay@, needle@, j),
            !ci ==> forall|j: int| 0 <= j < i ==> !matches_at_chars(hay@, needle@, j),
        decreases last - i,
    {
        if matches_at_chars_exec(hay, needle, i, ci) {
            return Some(i);
        }
        if i == last {
            proof {
                assert(forall|j: int| i < j ==> !matches_at_chars(hay@, needle@, j));
                assert(forall|j: int| i < j ==> !matches_at_chars_ci(hay@, needle@, j));
            }
            return None;
        }
        i = i + 1;
    }
}

/// Whether `needle` occurs in `hay`.
pub fn str_contains(hay: &str, needle: &str) -> (r: bool)
    ensures
        r == contains_chars(hay@, needle@),
{
    let h = to_chars(hay);
    let n = to_chars(needle);
    find_chars(&h, &n, false).is_some()
}

/// Whether `needle` occurs in `hay`, up to ASCII case.
pub fn str_contains_ci(hay: &str, needle: &str) -> (r: bool)
    ensures
        r == contains_chars_ci(hay@, needle@),
{
    let h = to_chars(hay);
    let n = to_chars(needle);
    find_chars(&h, &n, true).is_some()
}

/// Two strings hold the same characters up to ASCII case.
pub fn str_eq_ci(a: &str, b: &str) -> (r: bool)
    ensures
        r == (a@.len() == b@.len() && (forall|k: int|
            0 <= k < a@.len() ==> char_eq_ci(#[trigger] a@[k], b@[k]))),
{
    let av = to_chars(a);
    let bv = to_chars(b);
    if av.len() != bv.len() {
        return false;
    }
    let r = matches_at_chars_exec(&av, &bv, 0, true);
    proof {
        if r {
            assert forall|k: int| 0 <= k < a@.len() implies char_eq_ci(
                #[trigger] a@[k],
                b@[k],
            ) by {
                assert(char_eq_ci(a@[0 + k], b@[k]));
                assert(a@[0 + k] == a@[k]);
            }
        } else {
            let k = choose|k: int| 0 <= k < a@.len() && !char_eq_ci(#[trigger] a@[0 + k], b@[k]);
            assert(a@[k] == a@[0 + k]);
        }
    }
    r
}

/// An ASCII whitespace character: space, tab, line or carriage feed.
pub open spec fn is_ws(c: char) -> bool {
    c == ' ' || c == '\t' || c == '\n' || c == '\r'
}

/// `s` without its leading whitespace.
pub open spec fn spec_trim_start(s: Seq<char>) -> Seq<char>
    decreases s.len(),
{
    if s.len() > 0 && is_ws(s[0]) {
        spec_trim_start(s.skip(1))
    } else {
        s
    }
}

/// `s` without its trailing whitespace.
pub open spec fn spec_trim_end(s: Seq<char>) -> Seq<char>
    decreases s.len(),
{
    if s.len() > 0 && is_ws(s.last()) {
        spec_trim_end(s.drop_last())
    } else {
        s
    }
}

/// `s` without leading and trailing whitespace.
pub open spec fn spec_trim(s: Seq<char>) -> Seq<char> {
    spec_trim_end(spec_trim_start(s))
}

proof fn lemma_trim_start_skip(s: Seq<char>, k: int)
    requires
        0 <= k <= s.len(),
        forall|j: int| 0 <= j < k ==> is_ws(#[trigger] s[j]),
        k == s.len() || !is_ws(s[k as int]),
    ensures
        spec_trim_start(s) == s.skip(k),
    decreases k,
{
    if k > 0 {
        assert(is_ws(s[0]));
        lemma_trim_start_skip(s.skip(1), k - 1);
        assert(s.skip(1).skip(k - 1) =~= s.skip(k));
    } else {
        if s.len() > 0 {
            assert(!is_ws(s[0]));
        }
        assert(s.skip(0) =~= s);
    }
}

pub proof fn lemma_trim_end_take(s: Seq<char>, k: int)
    requires
        0 <= k <= s.len(),
        forall|j: int| k <= j < s.len() ==> is_ws(#[trigger] s[j]),
        k == 0 || !is_ws(s[k - 1]),
    ensures
        spec_trim_end(s) == s.take(k),
    decreases s.len(),
{
    if k < s.len() {
        assert(is_ws(s.last()));
        lemma_trim_end_take(s.drop_last(), k);
        assert(s.drop_last().take(k) =~= s.take(k));
    } else {
        if s.len() > 0 && is_ws(s.last()) {
            assert(is_ws(s[k - 1]));
            assert(false);
        }
        assert(s.take(k) =~= s);
    }
}

/// The trailing run of non-whitespace characters of `s`: its last
/// whitespace-separated token when `s` ends in one, empty otherwise.
pub open spec fn spec_last_token(s: Seq<char>) -> Seq<char>
    decreases s.len(),
{
    if s.len() == 0 {
        Seq::empty()
    } else if is_ws(s.last()) {
        Seq::empty()
    } else {
        spec_last_token(s.drop_last()).push(s.last())
    }
}

/// When the characters from `t` on are non-whitespace and a whitespace
/// character (or the start) stands just before `t`, the last token is
/// exactly the suffix from `t`.
pub proof fn lemma_last_token_skip(s: Seq<char>, t: int)
    requires
        0 <= t <= s.len(),
        forall|j: int| t <= j < s.len() ==> !is_ws(#[trigger] s[j]),
        t == 0 || is_ws(s[t - 1]),
    ensures
        spec_last_token(s) == s.skip(t),
    decreases s.len(),
{
    if t < s.len() {
        assert(!is_ws(s.last()));
        lemma_last_token_skip(s.drop_last(), t);
        assert(s.drop_last().skip(t).push(s.last()) =~= s.skip(t));
    } else {
        if s.len() == 0 {
            assert(s.skip(t) =~= Seq::<char>::empty());
        } else {
            assert(s.last() == s[t - 1]);
            assert(s.skip(t) =~= Seq::<char>::empty());
        }
    }
}

fn is_ws_exec(c: char) -> (r: bool)
    ensures
        r == is_ws(c),
{
    c == ' ' || c == '\t' || c == '\n' || c == '\r'
}

/// `s` without leading and trailing ASCII whitespace.
pub fn trim_str(s: &str) -> (r: String)
    ensures
        r@ == spec_trim(s@),
{
    let n = s.unicode_len();
    let mut a: usize = 0;
    while a < n && is_ws_exec(s.get_char(a))
        invariant
            0 <= a <= n,
            n == s@.len(),
            forall|j: int| 0 <= j < a ==> is_ws(#[trigger] s@[j]),
        decreases n - a,
    {
        a = a + 1;
    }
    let mut b: usize = n;
    while b > a && is_ws_exec(s.get_char(b - 1))
        invariant
            a <= b <= n,
            n == s@.len(),
            forall|j: int| 0 <= j < a ==> is_ws(#[trigger] s@[j]),
            a == n || !is_ws(s@[a as int]),
            forall|j: int| b <= j < n ==> is_ws(#[trigger] s@[j]),
        decreases b,
    {
        b = b - 1;
    }
    let r = s.substring_char(a, b).to_owned();
    proof {
        lemma_trim_start_skip(s@, a as int);
        let t = s@.skip(a as int);
        if b > a {
            lemma_trim_end_take(t, b - a);
        } else {
            lemma_trim_end_take(t, 0);
        }
        assert(t.take(b - a) =~= s@.subrange(a as int, b as int));
    }
    r
}

/// The value of a decimal digit string of characters.
pub open spec fn dec_val_chars(s: Seq<char>) -> nat
    decreases s.len(),
{
    if s.len() == 0 {
        0
    } else {
        dec_val_chars(s.drop_last()) * 10 + (if '0' <= s.last() <= '9' {
            (s.last() as u32 - 48) as nat
        } else {
            0
        })
    }
}

/// `s` consists of decimal digit characters only.
pub open spec fn all_digit_chars(s: Seq<char>) -> bool {
    forall|i: int| 0 <= i < s.len() ==> '0' <= #[trigger] s[i] <= '9'
}

proof fn lemma_dec_val_chars_monotone(s: Seq<char>, i: int)
    requires
        0 <= i <= s.len(),
        all_digit_chars(s),
    ensures
        dec_val_chars(s.subrange(0, i)) <= dec_val_chars(s),
    decreases s.len() - i,
{
    if i < s.len() {
        lemma_dec_val_chars_monotone(s, i + 1);
        let p = s.subrange(0, i);
        let q = s.subrange(0, i + 1);
        assert(q.drop_last() =~= p);
        assert(dec_val_chars(p) <= dec_val_chars(q));
    } else {
        assert(s.subrange(0, i) =~= s);
    }
}

/// Parses a decimal digit sequence of characters into a `u32`.
pub fn parse_u32_chars(s: &Vec<char>) -> (r: Option<u32>)
    ensures
        match r {
            Some(v) => s@.len() > 0 && all_digit_chars(s@) && dec_val_chars(s@) == v,
            None => s@.len() == 0 || !all_digit_chars(s@) || dec_val_chars(s@) > u32::MAX,
        },
{
    let n: usize = s.len();
    if n == 0 {
        return None;
    }
    let mut val: u32 = 0;
    let mut i: usize = 0;
    while i < n
        invariant
            0 <= i <= n,
            n == s@.len(),
            all_digit_chars(s@.subrange(0, i as int)),
            val == dec_val_chars(s@.subrange(0, i as int)),
        decreases n - i,
    {
        let c = s[i];
        if c < '0' || c > '9' {
            return None;
        }
        let d: u32 = (c as u32) - 48;
        assert(d <= 9);
        if val > (u32::MAX - d) / 10 {
            proof {
                let q = s@.subrange(0, i + 1);
                assert(q.drop_last() =~= s@.subrange(0, i as int));
                assert(dec_val_chars(q) > u32::MAX);
                if all_digit_chars(s@) {
                    lemma_dec_val_chars_monotone(s@, i + 1);
                }
            }
            return None;
        }
        val = val * 10 + d;
        proof {
            let q = s@.subrange(0, i + 1);
            assert(q.drop_last() =~= s@.subrange(0, i as int));
            assert(forall|j: int|
                0 <= j < q.len() ==> '0' <= #[trigger] q[j] <= '9');
        }
        i = i + 1;
    }
    proof {
        assert(s@.subrange(0, n as int) =~= s@);
    }
    Some(val)
}

/// `suf` ends `s`.
pub open spec fn has_suffix_chars(s: Seq<char>, suf: Seq<char>) -> bool {
    suf.len() <= s.len() && s.subrange(s.len() - suf.len(), s.len() as int) == suf
}

/// Whether `suf` ends `s`.
pub fn str_ends_with(s: &str, suf: &str) -> (r: bool)
    ensures
        r == has_suffix_chars(s@, suf@),
{
    let sv = to_chars(s);
    let fv = to_chars(suf);
    if fv.len() > sv.len() {
        return false;
    }
    let start: usize = sv.len() - fv.len();
    let r = matches_at_chars_exec(&sv, &fv, start, false);
    r
}

/// Whether `pre` starts `s`.
pub fn str_starts_with(s: &str, pre: &str) -> (r: bool)
    ensures
        r == (pre@.len() <= s@.len() && s@.subrange(0, pre@.len() as int) == pre@),
{
    let sv = to_chars(s);
    let pv = to_chars(pre);
    if pv.len() > sv.len() {
        return false;
    }
    let r = matches_at_chars_exec(&sv, &pv, 0, false);
    r
}

} // verus!
