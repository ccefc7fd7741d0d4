//! Character-level text operations with the semantics of their `str`
//! counterparts: equality, trimming, ASCII case folding, prefix tests,
//! replacement and decimal formatting.

use vstd::prelude::*;

verus! {

/// Appends `c` by `String::push`.  Trusted: the string's characters after
/// the call are those before it followed by `c`.
#[verifier::external_body]
fn string_push(s: &mut String, c: char)
    ensures
        final(s)@ == old(s)@.push(c),
{
    s.push(c)
}

/// The characters of a string slice.
pub fn chars_of(s: &str) -> (r: Vec<char>)
    ensures
        r@ == s@,
{
    let n = s.unicode_len();
    let mut v: Vec<char> = Vec::new();
    let mut i: usize = 0;
    while i < n
        invariant
            n == s@.len(),
            i <= n,
            v@ == s@.take(i as int),
        decreases n - i,
    {
        let c = s.get_char(i);
        v.push(c);
        proof {
            assert(v@ =~= s@.take(i as int + 1));
        }
        i += 1;
    }
    proof {
        assert(s@.take(n as int) =~= s@);
    }
    v
}

/// A string holding the given characters.
pub fn string_from_chars(v: &Vec<char>) -> (r: String)
    ensures
        r@ == v@,
{
    let mut s = String::new();
    let mut i: usize = 0;
    while i < v.len()
        invariant
            i <= v@.len(),
            s@ == v@.take(i as int),
        decreases v.len() - i,
    {
        string_push(&mut s, v[i]);
        proof {
            assert(s@ =~= v@.take(i as int + 1));
        }
        i += 1;
    }
    proof {
        assert(v@.take(v@.len() as int) =~= v@);
    }
    s
}

/// Whether two string slices hold the same characters.
pub fn str_eq(a: &str, b: &str) -> (r: bool)
    ensures
        r == (a@ == b@),
{
    let n = a.unicode_len();
    let m = b.unicode_len();
    if n != m {
        return false;
    }
    let mut i: usize = 0;
    while i < n
        invariant
            n == a@.len(),
            m == b@.len(),
            n == m,
            i <= n,
            forall|k: int| 0 <= k < i ==> a@[k] == b@[k],
        decreases n - i,
    {
        if a.get_char(i) != b.get_char(i) {
            return false;
        }
        i += 1;
    }
    proof {
        assert(a@ =~= b@);
    }
    true
}

/// `s` begins with `prefix`.
pub open spec fn spec_starts_with(s: Seq<char>, prefix: Seq<char>) -> bool {
    prefix.len() <= s.len() && s.subrange(0, prefix.len() as int) == prefix
}

pub fn starts_with(s: &Vec<char>, prefix: &str) -> (r: bool)
    ensures
        r == spec_starts_with(s@, prefix@),
{
    let p = chars_of(prefix);
    if p.len() > s.len() {
        return false;
    }
    let mut i: usize = 0;
    while i < p.len()
        invariant
            p@ == prefix@,
            p@.len() <= s@.len(),
            i <= p@.len(),
            forall|k: int| 0 <= k < i ==> s@[k] == p@[k],
        decreases p.len() - i,
    {
        if s[i] != p[i] {
            proof {
                assert(s@.subrange(0, p@.len() as int)[i as int] != p@[i as int]);
            }
            return false;
        }
        i += 1;
    }
    proof {
        assert(s@.subrange(0, p@.len() as int) =~= p@);
    }
    true
}

/// `char::is_whitespace`: the characters with the Unicode `White_Space`
/// property.
pub open spec fn spec_is_whitespace(c: char) -> bool {
    let u = c as u32;
    (0x09 <= u && u <= 0x0D) || u == 0x20 || u == 0x85 || u == 0xA0 || u == 0x1680 || (0x2000
        <= u && u <= 0x200A) || u == 0x2028 || u == 0x2029 || u == 0x202F || u == 0x205F || u
        == 0x3000
}

pub fn is_whitespace(c: char) -> (r: bool)
    ensures
        r == spec_is_whitespace(c),
{
    let u = c as u32;
    (0x09 <= u && u <= 0x0D) || u == 0x20 || u == 0x85 || u == 0xA0 || u == 0x1680 || (0x2000
        <= u && u <= 0x200A) || u == 0x2028 || u == 0x2029 || u == 0x202F || u == 0x205F || u
        == 0x3000
}

/// Number of leading whitespace characters.
pub open spec fn spec_leading_ws(s: Seq<char>) -> nat
    decreases s.len(),
{
    if s.len() > 0 && spec_is_whitespace(s[0]) {
        1 + spec_leading_ws(s.skip(1))
    } else {
        0
    }
}

/// Number of trailing whitespace characters.
pub open spec fn spec_trailing_ws(s: Seq<char>) -> nat
    decreases s.len(),
{
    if s.len() > 0 && spec_is_whitespace(s.last()) {
        1 + spec_trailing_ws(s.drop_last())
    } else {
        0
    }
}

/// `str::trim`: without leading and trailing whitespace.
pub open spec fn spec_trim(s: Seq<char>) -> Seq<char> {
    let t = s.skip(spec_leading_ws(s) as int);
    t.take(t.len() - spec_trailing_ws(t))
}

proof fn lemma_leading_ws_bound(s: Seq<char>)
    ensures
        spec_leading_ws(s) <= s.len(),
    decreases s.len(),
{
    if s.len() > 0 && spec_is_whitespace(s[0]) {
        lemma_leading_ws_bound(s.skip(1));
    }
}

proof fn lemma_trailing_ws_bound(s: Seq<char>)
    ensures
        spec_trailing_ws(s) <= s.len(),
    decreases s.len(),
{
    if s.len() > 0 && spec_is_whitespace(s.last()) {
        lemma_trailing_ws_bound(s.drop_last());
    }
}

pub fn trim(s: &Vec<char>) -> (r: Vec<char>)
    ensures
        r@ == spec_trim(s@),
{
    let n = s.len();
    let mut start: usize = 0;
    proof {
        assert(s@.skip(0) =~= s@);
    }
    while start < n && is_whitespace(s[start])
        invariant
            n == s@.len(),
            start <= n,
            spec_leading_ws(s@) == start + spec_leading_ws(s@.skip(start as int)),
        decreases n - start,
    {
        proof {
            assert(s@.skip(start as int).skip(1) =~= s@.skip(start as int + 1));
        }
        start += 1;
    }
    let ghost t = s@.skip(start as int);
    proof {
        assert(spec_leading_ws(s@.skip(start as int)) == 0);
    }
    let mut end: usize = n;
    proof {
        assert(t.take(n - start) =~= t);
    }
    while end > start && is_whitespace(s[end - 1])
        invariant
            n == s@.len(),
            start <= end <= n,
            t == s@.skip(start as int),
            spec_trailing_ws(t) == (n - end) + spec_trailing_ws(t.take(end - start)),
        decreases end,
    {
        proof {
            assert(t.take(end - start).drop_last() =~= t.take(end - start - 1));
            assert(t.take(end - start).last() == s@[end - 1]);
        }
        end -= 1;
    }
    proof {
        assert(spec_trailing_ws(t.take(end - start)) == 0);
    }
    let mut r: Vec<char> = Vec::new();
    let mut i: usize = start;
    while i < end
        invariant
            start <= i <= end <= n,
            n == s@.len(),
            r@ == s@.subrange(start as int, i as int),
        decreases end - i,
    {
        r.push(s[i]);
        proof {
            assert(r@ =~= s@.subrange(start as int, i as int + 1));
        }
        i += 1;
    }
    proof {
        assert(r@ =~= t.take(t.len() - spec_trailing_ws(t)));
    }
    r
}

/// `char::to_ascii_lowercase`.
pub open spec fn spec_ascii_lower_char(c: char) -> char {
    if 'A' <= c && c <= 'Z' {
        ((c as u32) + 32) as char
    } else {
        c
    }
}

/// `str::to_ascii_lowercase`.
pub open spec fn spec_ascii_lower(s: Seq<char>) -> Seq<char> {
    s.map_values(|c: char| spec_ascii_lower_char(c))
}

pub fn ascii_lower_char(c: char) -> (r: char)
    ensures
        r == spec_ascii_lower_char(c),
{
    if 'A' <= c && c <= 'Z' {
        let u = (c as u32) + 32;
        proof {
            assert(u <= 0x7A);
        }
        let d = u as u8;
        d as char
    } else {
        c
    }
}

pub fn ascii_lower(s: &Vec<char>) -> (r: Vec<char>)
    ensures
        r@ == spec_ascii_lower(s@),
{
    let mut r: Vec<char> = Vec::new();
    let mut i: usize = 0;
    while i < s.len()
        invariant
            i <= s@.len(),
            r@ == spec_ascii_lower(s@.take(i as int)),
        decreases s.len() - i,
    {
        r.push(ascii_lower_char(s[i]));
        proof {
            assert(r@ =~= spec_ascii_lower(s@.take(i as int + 1)));
        }
        i += 1;
    }
    proof {
        assert(s@.take(s@.len() as int) =~= s@);
    }
    r
}

/// `str::replace` with an empty pattern: the replacement before every
/// character and at the end.
pub open spec fn spec_interleave(s: Seq<char>, value: Seq<char>) -> Seq<char>
    decreases s.len(),
{
    if s.len() == 0 {
        value
    } else {
        value + seq![s[0]] + spec_interleave(s.skip(1), value)
    }
}

/// `str::replace`: every non-overlapping occurrence of `needle`, found
/// from left to right, is replaced by `value`.
pub open spec fn spec_replace(s: Seq<char>, needle: Seq<char>, value: Seq<char>) -> Seq<char>
    decreases s.len(),
{
    if needle.len() == 0 {
        spec_interleave(s, value)
    } else if s.len() < needle.len() {
        s
    } else if s.subrange(0, needle.len() as int) == needle {
        value + spec_replace(s.skip(needle.len() as int), needle, value)
    } else {
        seq![s[0]] + spec_replace(s.skip(1), needle, value)
    }
}

fn matches_at(s: &Vec<char>, i: usize, needle: &Vec<char>) -> (r: bool)
    requires
        i + needle@.len() <= s@.len(),
    ensures
        r == (s@.skip(i as int).subrange(0, needle@.len() as int) == needle@),
{
    let sl = s.len();
    let mut k: usize = 0;
    while k < needle.len()
        invariant
            sl == s@.len(),
            i + needle@.len() <= s@.len(),
            k <= needle@.len(),
            forall|j: int| 0 <= j < k ==> s@[i + j] == needle@[j],
        decreases needle.len() - k,
    {
        assert(i + k < s@.len());
        if s[i + k] != needle[k] {
            proof {
                assert(s@.skip(i as int).subrange(0, needle@.len() as int)[k as int] != needle@[k as int]);
            }
            return false;
        }
        k += 1;
    }
    proof {
        assert(s@.skip(i as int).subrange(0, needle@.len() as int) =~= needle@);
    }
    true
}

fn interleave(s: &Vec<char>, value: &Vec<char>) -> (r: Vec<char>)
    ensures
        r@ == spec_interleave(s@, value@),
{
    let mut r: Vec<char> = Vec::new();
    let mut i: usize = 0;
    proof {
        assert(s@.skip(0) =~= s@);
        assert(r@ + spec_interleave(s@, value@) =~= spec_interleave(s@, value@));
    }
    while i < s.len()
        invariant
            i <= s@.len(),
            r@ + spec_interleave(s@.skip(i as int), value@) == spec_interleave(s@, value@),
        decreases s.len() - i,
    {
        let ghost before = r@;
        let mut k: usize = 0;
        while k < value.len()
            invariant
                k <= value@.len(),
                r@ == before + value@.take(k as int),
            decreases value.len() - k,
        {
            r.push(value[k]);
            proof {
                assert(r@ =~= before + value@.take(k as int + 1));
            }
            k += 1;
        }
        r.push(s[i]);
        proof {
            assert(value@.take(value@.len() as int) =~= value@);
            assert(s@.skip(i as int).skip(1) =~= s@.skip(i as int + 1));
            assert(r@ =~= before + (value@ + seq![s@.skip(i as int)[0]]));
            assert(r@ + spec_interleave(s@.skip(i as int + 1), value@) =~= before
                + spec_interleave(s@.skip(i as int), value@));
        }
        i += 1;
    }
    let ghost before = r@;
    let mut k: usize = 0;
    while k < value.len()
        invariant
            k <= value@.len(),
            r@ == before + value@.take(k as int),
        decreases value.len() - k,
    {
        r.push(value[k]);
        proof {
            assert(r@ =~= before + value@.take(k as int + 1));
        }
        k += 1;
    }
    proof {
        assert(value@.take(value@.len() as int) =~= value@);
        assert(s@.skip(s@.len() as int) =~= Seq::<char>::empty());
    }
    r
}

/// Replaces every occurrence of `needle` in `text` by `value`, as
/// `str::replace` does.
pub fn replace_all(text: &Vec<char>, needle: &str, value: &str) -> (r: Vec<char>)
    ensures
        r@ == spec_replace(text@, needle@, value@),
{
    let nd = chars_of(needle);
    let val = chars_of(value);
    if nd.len() == 0 {
        return interleave(text, &val);
    }
    let n = text.len();
    let m = nd.len();
    let mut r: Vec<char> = Vec::new();
    let mut i: usize = 0;
    proof {
        assert(text@.skip(0) =~= text@);
        assert(r@ + spec_replace(text@, nd@, val@) =~= spec_replace(text@, nd@, val@));
    }
    while i < n
        invariant
            n == text@.len(),
            m == nd@.len(),
            m > 0,
            nd@ == needle@,
            val@ == value@,
            i <= n,
            r@ + spec_replace(text@.skip(i as int), nd@, val@) == spec_replace(text@, nd@, val@),
        decreases n - i,
    {
        let ghost rest = text@.skip(i as int);
        if m <= n - i && matches_at(text, i, &nd) {
            let ghost before = r@;
            let mut k: usize = 0;
            while k < val.len()
                invariant
                    k <= val@.len(),
                    r@ == before + val@.take(k as int),
                decreases val.len() - k,
            {
                r.push(val[k]);
                proof {
                    assert(r@ =~= before + val@.take(k as int + 1));
                }
                k += 1;
            }
            proof {
                assert(val@.take(val@.len() as int) =~= val@);
                assert(rest.skip(m as int) =~= text@.skip(i as int + m as int));
                assert(r@ + spec_replace(text@.skip(i as int + m as int), nd@, val@) =~= before
                    + spec_replace(rest, nd@, val@));
            }
            i = i + m;
        } else {
            r.push(text[i]);
            proof {
                if m <= n - i {
                    assert(rest.subrange(0, m as int) != nd@);
                } else {
                    assert(rest.len() < m);
                    assert(spec_replace(rest, nd@, val@) == rest);
                }
                assert(rest.skip(1) =~= text@.skip(i as int + 1));
                if m <= n - i {
                    assert(r@ + spec_replace(text@.skip(i as int + 1), nd@, val@) =~= (r@.drop_last()
                        + spec_replace(rest, nd@, val@)));
                }
            }
            if m > n - i {
                let ghost before = r@.drop_last();
                let mut j: usize = i + 1;
                while j < n
                    invariant
                        i < j <= n,
                        n == text@.len(),
                        r@ == before + text@.subrange(i as int, j as int),
                    decreases n - j,
                {
                    r.push(text[j]);
                    proof {
                        assert(r@ =~= before + text@.subrange(i as int, j as int + 1));
                    }
                    j += 1;
                }
                proof {
                    assert(text@.subrange(i as int, n as int) =~= rest);
                    assert(text@.skip(n as int) =~= Seq::<char>::empty());
                    assert(spec_replace(Seq::<char>::empty(), nd@, val@) == Seq::<char>::empty());
                    assert(r@ + spec_replace(text@.skip(n as int), nd@, val@) =~= before
                        + spec_replace(rest, nd@, val@));
                }
                i = n;
            } else {
                i += 1;
            }
        }
    }
    proof {
        assert(text@.skip(n as int) =~= Seq::<char>::empty());
        assert(spec_replace(Seq::<char>::empty(), nd@, val@) == Seq::<char>::empty());
        assert(r@ =~= r@ + Seq::<char>::empty());
    }
    r
}

/// The decimal digit `d` as a character.
pub open spec fn spec_digit(d: int) -> char {
    if d == 0 {
        '0'
    } else if d == 1 {
        '1'
    } else if d == 2 {
        '2'
    } else if d == 3 {
        '3'
    } else if d == 4 {
        '4'
    } else if d == 5 {
        '5'
    } else if d == 6 {
        '6'
    } else if d == 7 {
        '7'
    } else if d == 8 {
        '8'
    } else {
        '9'
    }
}

/// The decimal representation of `n`, without leading zeros.
pub open spec fn spec_decimal(n: nat) -> Seq<char>
    decreases n,
{
    if n < 10 {
        seq![spec_digit(n as int)]
    } else {
        spec_decimal(n / 10).push(spec_digit((n % 10) as int))
    }
}

/// `{:02}`: padded with zeros on the left to at least two characters.
pub open spec fn spec_pad2(s: Seq<char>) -> Seq<char> {
    if s.len() >= 2 {
        s
    } else {
        Seq::new((2 - s.len()) as nat, |i: int| '0') + s
    }
}

/// The value of a decimal digit character (0 for any other character).
pub open spec fn spec_char_value(c: char) -> int {
    if '0' <= c && c <= '9' {
        c as int - '0' as int
    } else {
        0
    }
}

/// The number a string of decimal digits reads as.
pub open spec fn spec_digits_value(s: Seq<char>) -> int
    decreases s.len(),
{
    if s.len() == 0 {
        0
    } else {
        spec_digits_value(s.drop_last()) * 10 + spec_char_value(s.last())
    }
}

/// The decimal representation of `n` reads back as `n`: it is made of
/// digits only, and has no leading zero unless it is the single `0`.
pub proof fn lemma_decimal_reads_back(n: nat)
    ensures
        spec_digits_value(spec_decimal(n)) == n,
        spec_decimal(n).len() >= 1,
        forall|i: int|
            0 <= i < spec_decimal(n).len() ==> '0' <= #[trigger] spec_decimal(n)[i] <= '9',
        n >= 10 ==> spec_decimal(n)[0] != '0',
        n < 10 <==> spec_decimal(n).len() == 1,
    decreases n,
{
    if n < 10 {
        lemma_digit_value(n as int);
        let d = spec_decimal(n);
        assert(d.drop_last() =~= Seq::<char>::empty());
        assert(spec_digits_value(d) == spec_digits_value(d.drop_last()) * 10 + spec_char_value(
            d.last(),
        ));
    } else {
        lemma_digit_value((n % 10) as int);
        lemma_decimal_reads_back(n / 10);
        let d = spec_decimal(n);
        assert(d.drop_last() =~= spec_decimal(n / 10));
        assert(d.last() == spec_digit((n % 10) as int));
        assert(spec_digits_value(d) == spec_digits_value(d.drop_last()) * 10 + spec_char_value(
            d.last(),
        ));
        assert((n / 10) * 10 + n % 10 == n);
        assert(forall|i: int| 0 <= i < d.len() - 1 ==> d[i] == spec_decimal(n / 10)[i]);
    }
}

proof fn lemma_digit_value(d: int)
    requires
        0 <= d < 10,
    ensures
        spec_char_value(spec_digit(d)) == d,
        '0' <= spec_digit(d) <= '9',
        d != 0 ==> spec_digit(d) != '0',
{
    assert('0' as int == 48);
    assert('9' as int == 57);
    if d == 0 {
    } else if d == 1 {
        assert('1' as int == 49);
    } else if d == 2 {
        assert('2' as int == 50);
    } else if d == 3 {
        assert('3' as int == 51);
    } else if d == 4 {
        assert('4' as int == 52);
    } else if d == 5 {
        assert('5' as int == 53);
    } else if d == 6 {
        assert('6' as int == 54);
    } else if d == 7 {
        assert('7' as int == 55);
    } else if d == 8 {
        assert('8' as int == 56);
    }
}

/// Zeros padded on the left do not change the number a string reads as.
pub proof fn lemma_pad2_value(s: Seq<char>)
    ensures
        spec_digits_value(spec_pad2(s)) == spec_digits_value(s),
        spec_pad2(s).len() >= 2,
        s.len() >= 2 ==> spec_pad2(s) == s,
{
    if s.len() < 2 {
        let z = Seq::new((2 - s.len()) as nat, |i: int| '0');
        lemma_zeros_prefix_value(z, s);
    }
}

pub proof fn lemma_zeros_prefix_value(z: Seq<char>, s: Seq<char>)
    requires
        forall|i: int| 0 <= i < z.len() ==> #[trigger] z[i] == '0',
    ensures
        spec_digits_value(z + s) == spec_digits_value(s),
    decreases s.len(),
{
    if s.len() == 0 {
        assert(z + s =~= z);
        lemma_zeros_value(z);
    } else {
        assert((z + s).drop_last() =~= z + s.drop_last());
        assert((z + s).last() == s.last());
        lemma_zeros_prefix_value(z, s.drop_last());
    }
}

proof fn lemma_zeros_value(z: Seq<char>)
    requires
        forall|i: int| 0 <= i < z.len() ==> #[trigger] z[i] == '0',
    ensures
        spec_digits_value(z) == 0,
    decreases z.len(),
{
    if z.len() > 0 {
        assert(z.last() == '0');
        lemma_zeros_value(z.drop_last());
    }
}

fn digit(d: u64) -> (r: char)
    requires
        d < 10,
    ensures
        r == spec_digit(d as int),
{
    if d == 0 {
        '0'
    } else if d == 1 {
        '1'
    } else if d == 2 {
        '2'
    } else if d == 3 {
        '3'
    } else if d == 4 {
        '4'
    } else if d == 5 {
        '5'
    } else if d == 6 {
        '6'
    } else if d == 7 {
        '7'
    } else if d == 8 {
        '8'
    } else {
        '9'
    }
}

pub fn decimal(n: u64) -> (r: Vec<char>)
    ensures
        r@ == spec_decimal(n as nat),
    decreases n,
{
    if n < 10 {
        vec![digit(n)]
    } else {
        let mut v = decimal(n / 10);
        v.push(digit(n % 10));
        v
    }
}

pub fn pad2(s: Vec<char>) -> (r: Vec<char>)
    ensures
        r@ == spec_pad2(s@),
{
    if s.len() >= 2 {
        s
    } else {
        let mut r: Vec<char> = Vec::new();
        let pad: usize = 2 - s.len();
        let mut i: usize = 0;
        while i < pad
            invariant
                i <= pad,
                pad == 2 - s@.len(),
                r@ == Seq::new(i as nat, |k: int| '0'),
            decreases pad - i,
        {
            r.push('0');
            proof {
                assert(r@ =~= Seq::new((i + 1) as nat, |k: int| '0'));
            }
            i += 1;
        }
        let mut j: usize = 0;
        while j < s.len()
            invariant
                j <= s@.len(),
                pad == 2 - s@.len(),
                r@ == Seq::new(pad as nat, |k: int| '0') + s@.take(j as int),
            decreases s.len() - j,
        {
            r.push(s[j]);
            proof {
                assert(r@ =~= Seq::new(pad as nat, |k: int| '0') + s@.take(j as int + 1));
            }
            j += 1;
        }
        proof {
            assert(s@.take(s@.len() as int) =~= s@);
        }
        r
    }
}

} // verus!
