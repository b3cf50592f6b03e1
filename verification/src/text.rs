//! Text routines over character sequences.

use vstd::prelude::*;
use vstd::utf8::*;

verus! {

/// `String::push`: appends one character at the end.
pub assume_specification[ String::push ](s: &mut String, c: char)
    ensures
        final(s)@ == old(s)@.push(c),
;

/// The characters of `s`, in order.
pub fn chars_of(s: &str) -> (r: Vec<char>)
    ensures
        r@ == s@,
{
    let mut out: Vec<char> = Vec::new();
    for c in it: s.chars()
        invariant
            it.seq() == s@,
            out@ == s@.take(it.index()),
    {
        out.push(c);
        proof {
            assert(s@.take(it.index() + 1) =~= s@.take(it.index()).push(s@[it.index()]));
        }
    }
    proof {
        assert(s@.take(s@.len() as int) =~= s@);
    }
    out
}

/// The string made of `cs[from..to]`.
pub fn string_of(cs: &Vec<char>, from: usize, to: usize) -> (r: String)
    requires
        from <= to <= cs@.len(),
    ensures
        r@ == cs@.subrange(from as int, to as int),
{
    let mut out = String::new();
    let mut i: usize = from;
    while i < to
        invariant
            from <= i <= to <= cs@.len(),
            out@ == cs@.subrange(from as int, i as int),
        decreases to - i,
    {
        out.push(cs[i]);
        i += 1;
        proof {
            assert(cs@.subrange(from as int, i as int) =~= cs@.subrange(from as int, i - 1).push(cs@[i - 1]));
        }
    }
    out
}

/// Whether two strings hold the same characters.
pub fn str_eq(a: &str, b: &str) -> (r: bool)
    ensures
        r == (a@ == b@),
{
    let x = a.as_bytes();
    let y = b.as_bytes();
    proof {
        encode_utf8_decode_utf8(a@);
        encode_utf8_decode_utf8(b@);
    }
    bytes_eq(x, y)
}

/// Whether two byte strings are the same.
pub fn bytes_eq(x: &[u8], y: &[u8]) -> (r: bool)
    ensures
        r == (x@ == y@),
{
    if x.len() != y.len() {
        return false;
    }
    let mut i: usize = 0;
    while i < x.len()
        invariant
            x@.len() == y@.len(),
            i <= x@.len(),
            forall|j: int| 0 <= j < i ==> x@[j] == y@[j],
        decreases x@.len() - i,
    {
        if x[i] != y[i] {
            return false;
        }
        i += 1;
    }
    proof {
        assert(x@ =~= y@);
    }
    true
}

/// ASCII lower case of one character; every other character is itself.
pub open spec fn lower_char(c: char) -> char {
    if 'A' <= c && c <= 'Z' {
        ((c as u32) + 32) as char
    } else {
        c
    }
}

/// ASCII lower case of a text, character by character.
pub open spec fn lower(s: Seq<char>) -> Seq<char> {
    s.map_values(|c: char| lower_char(c))
}

/// [`lower_char`] for one executable character.
pub fn to_lower_char(c: char) -> (r: char)
    ensures
        r == lower_char(c),
{
    if 'A' <= c && c <= 'Z' {
        let b: u8 = c as u8;
        (b + 32) as char
    } else {
        c
    }
}

/// The text in ASCII lower case.
pub fn to_lower(s: &str) -> (r: String)
    ensures
        r@ == lower(s@),
{
    let cs = chars_of(s);
    let mut out = String::new();
    let mut i: usize = 0;
    while i < cs.len()
        invariant
            cs@ == s@,
            i <= cs@.len(),
            out@ == lower(s@.take(i as int)),
        decreases cs@.len() - i,
    {
        out.push(to_lower_char(cs[i]));
        i += 1;
        proof {
            assert(lower(s@.take(i as int)) =~= lower(s@.take(i - 1)).push(lower_char(s@[i - 1])));
        }
    }
    proof {
        assert(s@.take(s@.len() as int) =~= s@);
    }
    out
}

/// Whether a character has the Unicode property White_Space.
pub open spec fn is_white(c: char) -> bool {
    ||| 0x09 <= c as u32 <= 0x0d
    ||| c as u32 == 0x20
    ||| c as u32 == 0x85
    ||| c as u32 == 0xa0
    ||| c as u32 == 0x1680
    ||| 0x2000 <= c as u32 <= 0x200a
    ||| c as u32 == 0x2028
    ||| c as u32 == 0x2029
    ||| c as u32 == 0x202f
    ||| c as u32 == 0x205f
    ||| c as u32 == 0x3000
}

/// [`is_white`] for one executable character.
pub fn white(c: char) -> (r: bool)
    ensures
        r == is_white(c),
{
    let n: u32 = c as u32;
    (0x09 <= n && n <= 0x0d) || n == 0x20 || n == 0x85 || n == 0xa0 || n == 0x1680 || (0x2000 <= n
        && n <= 0x200a) || n == 0x2028 || n == 0x2029 || n == 0x202f || n == 0x205f || n == 0x3000
}

/// A text without its leading white space.
pub open spec fn trim_start(s: Seq<char>) -> Seq<char>
    decreases s.len(),
{
    if s.len() > 0 && is_white(s[0]) {
        trim_start(s.skip(1))
    } else {
        s
    }
}

/// A text without its trailing white space.
pub open spec fn trim_end(s: Seq<char>) -> Seq<char>
    decreases s.len(),
{
    if s.len() > 0 && is_white(s.last()) {
        trim_end(s.drop_last())
    } else {
        s
    }
}

/// A text without leading and trailing white space.
pub open spec fn trimmed(s: Seq<char>) -> Seq<char> {
    trim_end(trim_start(s))
}

/// The bounds of `cs[from..to]` without the white space at its ends.
pub fn trim_bounds(cs: &Vec<char>, from: usize, to: usize) -> (r: (usize, usize))
    requires
        from <= to <= cs@.len(),
    ensures
        from <= r.0 <= r.1 <= to,
        cs@.subrange(r.0 as int, r.1 as int) == trimmed(cs@.subrange(from as int, to as int)),
{
    let mut a: usize = from;
    let mut b: usize = to;
    let ghost whole = cs@.subrange(from as int, to as int);
    while a < b && white(cs[a])
        invariant
            from <= a <= b <= cs@.len(),
            b == to,
            whole == cs@.subrange(from as int, to as int),
            trim_start(whole) == trim_start(cs@.subrange(a as int, b as int)),
        decreases b - a,
    {
        proof {
            assert(cs@.subrange(a as int, b as int).skip(1) =~= cs@.subrange(a + 1, b as int));
        }
        a += 1;
    }
    proof {
        assert(a < b ==> cs@.subrange(a as int, b as int)[0] == cs@[a as int]);
        assert(trim_start(whole) == cs@.subrange(a as int, b as int));
    }
    while a < b && white(cs[b - 1])
        invariant
            from <= a <= b <= to <= cs@.len(),
            trimmed(whole) == trim_end(cs@.subrange(a as int, b as int)),
        decreases b - a,
    {
        proof {
            assert(cs@.subrange(a as int, b as int).last() == cs@[b - 1]);
            assert(cs@.subrange(a as int, b as int).drop_last() =~= cs@.subrange(a as int, b - 1));
        }
        b -= 1;
    }
    proof {
        assert(a < b ==> cs@.subrange(a as int, b as int).last() == cs@[b - 1]);
    }
    (a, b)
}

/// The text without leading and trailing white space.
pub fn trim(s: &str) -> (r: String)
    ensures
        r@ == trimmed(s@),
{
    let cs = chars_of(s);
    let (a, b) = trim_bounds(&cs, 0, cs.len());
    proof {
        assert(cs@.subrange(0, cs@.len() as int) =~= s@);
    }
    string_of(&cs, a, b)
}

/// The texts of a list of strings.
pub open spec fn texts(v: Seq<String>) -> Seq<Seq<char>> {
    v.map_values(|x: String| x@)
}

/// The pieces of a text between occurrences of `sep`: one more than there are
/// separators, empty pieces kept.
pub open spec fn split(s: Seq<char>, sep: char) -> Seq<Seq<char>>
    decreases s.len(),
{
    if s.len() == 0 {
        seq![Seq::<char>::empty()]
    } else {
        let front = split(s.drop_last(), sep);
        if s.last() == sep {
            front.push(Seq::<char>::empty())
        } else {
            front.update(front.len() - 1, front.last().push(s.last()))
        }
    }
}

/// A list of texts with `sep` between neighbours.
pub open spec fn join(pieces: Seq<Seq<char>>, sep: char) -> Seq<char>
    decreases pieces.len(),
{
    if pieces.len() == 0 {
        Seq::empty()
    } else if pieces.len() == 1 {
        pieces[0]
    } else {
        join(pieces.drop_last(), sep).push(sep) + pieces.last()
    }
}

/// Splitting loses nothing: the pieces hold no separator, and joined with it
/// they are the text again.
pub proof fn split_join(s: Seq<char>, sep: char)
    ensures
        split(s, sep).len() >= 1,
        forall|i: int| 0 <= i < split(s, sep).len() ==> !(#[trigger] split(s, sep)[i]).contains(sep),
        join(split(s, sep), sep) == s,
    decreases s.len(),
{
    if s.len() > 0 {
        let front = split(s.drop_last(), sep);
        split_join(s.drop_last(), sep);
        assert(s =~= s.drop_last().push(s.last()));
        if s.last() == sep {
            let all = front.push(Seq::<char>::empty());
            assert(all.drop_last() =~= front);
            assert(join(all, sep) =~= join(front, sep).push(sep));
            assert forall|i: int| 0 <= i < all.len() implies !(#[trigger] all[i]).contains(sep) by {
                if i < front.len() {
                    assert(all[i] == front[i]);
                }
            }
        } else {
            let all = front.update(front.len() - 1, front.last().push(s.last()));
            assert(all.drop_last() =~= front.drop_last());
            assert(all.last() == front.last().push(s.last()));
            assert(join(all, sep) =~= join(front, sep).push(s.last()));
            assert forall|i: int| 0 <= i < all.len() implies !(#[trigger] all[i]).contains(sep) by {
                if i < front.len() - 1 {
                    assert(all[i] == front[i]);
                } else {
                    assert(!front[i].contains(sep));
                    assert forall|k: int| 0 <= k < all[i].len() implies all[i][k] != sep by {
                        if k < front[i].len() {
                            assert(front[i][k] != sep);
                        }
                    }
                }
            }
        }
    } else {
        assert(join(seq![Seq::<char>::empty()], sep) =~= s);
    }
}

/// The pieces of the text between occurrences of `sep`.
pub fn split_on(s: &str, sep: char) -> (r: Vec<String>)
    ensures
        texts(r@) == split(s@, sep),
{
    let cs = chars_of(s);
    let mut out: Vec<String> = Vec::new();
    let mut cur = String::new();
    let mut i: usize = 0;
    proof {
        assert(texts(out@).push(cur@) =~= split(s@.take(0), sep));
    }
    while i < cs.len()
        invariant
            cs@ == s@,
            i <= cs@.len(),
            texts(out@).push(cur@) == split(s@.take(i as int), sep),
        decreases cs@.len() - i,
    {
        let c = cs[i];
        let ghost before = texts(out@).push(cur@);
        proof {
            assert(s@.take(i + 1).drop_last() =~= s@.take(i as int));
            assert(s@.take(i + 1).last() == c);
        }
        if c == sep {
            out.push(cur);
            cur = String::new();
            proof {
                assert(texts(out@) =~= before);
            }
        } else {
            cur.push(c);
            proof {
                assert(texts(out@).push(cur@) =~= before.update(before.len() - 1, before.last().push(c)));
            }
        }
        i += 1;
    }
    let ghost last = cur@;
    let ghost head = texts(out@);
    out.push(cur);
    proof {
        assert(s@.take(s@.len() as int) =~= s@);
        assert(texts(out@) =~= head.push(last));
    }
    out
}

/// The two parts of the text around the first `sep`.
pub fn split_once(s: &str, sep: char) -> (r: Option<(String, String)>)
    ensures
        r is None <==> !s@.contains(sep),
        r matches Some(p) ==> s@ == p.0@.push(sep) + p.1@ && !p.0@.contains(sep),
{
    let cs = chars_of(s);
    let mut i: usize = 0;
    while i < cs.len()
        invariant
            cs@ == s@,
            i <= cs@.len(),
            forall|j: int| 0 <= j < i ==> s@[j] != sep,
        decreases cs@.len() - i,
    {
        if cs[i] == sep {
            let a = string_of(&cs, 0, i);
            let b = string_of(&cs, i + 1, cs.len());
            proof {
                assert(s@ =~= a@.push(sep) + b@);
                assert(s@[i as int] == sep);
            }
            return Some((a, b));
        }
        i += 1;
    }
    None
}

/// Whether `needle` occurs in `hay` as a run of neighbouring characters.
pub open spec fn occurs(hay: Seq<char>, needle: Seq<char>) -> bool {
    exists|k: int| #[trigger] occurs_at(hay, needle, k)
}

/// Whether `needle` occurs in `hay` from position `k` on.
pub open spec fn occurs_at(hay: Seq<char>, needle: Seq<char>, k: int) -> bool {
    0 <= k && k + needle.len() <= hay.len() && hay.subrange(k, k + needle.len()) == needle
}

/// Whether `needle` occurs in `hay`.
pub fn contains(hay: &str, needle: &str) -> (r: bool)
    ensures
        r == occurs(hay@, needle@),
{
    let h = chars_of(hay);
    let n = chars_of(needle);
    if n.len() > h.len() {
        return false;
    }
    let total: usize = h.len();
    let mut k: usize = 0;
    while k <= h.len() - n.len()
        invariant
            h@ == hay@,
            n@ == needle@,
            total == h@.len(),
            n@.len() <= h@.len(),
            k <= h@.len() - n@.len() + 1,
            forall|j: int| 0 <= j < k ==> !occurs_at(hay@, needle@, j),
        decreases h@.len() - n@.len() + 1 - k,
    {
        let mut i: usize = 0;
        let mut same = true;
        while i < n.len() && same
            invariant
                h@ == hay@,
                n@ == needle@,
                total == h@.len(),
                i <= n@.len(),
                k + n@.len() <= h@.len(),
                same ==> forall|j: int| 0 <= j < i ==> h@[k + j] == n@[j],
                !same ==> exists|j: int| 0 <= j < n@.len() && h@[k + j] != n@[j],
            decreases n@.len() - i,
        {
            if h[k + i] != n[i] {
                same = false;
            }
            i += 1;
        }
        if same {
            proof {
                assert(hay@.subrange(k as int, k + needle@.len()) =~= needle@);
                assert(occurs_at(hay@, needle@, k as int));
            }
            return true;
        }
        proof {
            let j = choose|j: int| 0 <= j < n@.len() && h@[k + j] != n@[j];
            assert(hay@.subrange(k as int, k + needle@.len())[j] == h@[k + j]);
        }
        if k == h.len() - n.len() {
            return false;
        }
        k += 1;
    }
    false
}

/// The text without `suffix`, where it ends in it.
pub fn strip_suffix(s: &str, suffix: &str) -> (r: Option<String>)
    ensures
        r is Some <==> suffix@.is_suffix_of(s@),
        r matches Some(p) ==> p@ + suffix@ == s@,
{
    let a = chars_of(s);
    let b = chars_of(suffix);
    if b.len() > a.len() {
        return None;
    }
    let total: usize = a.len();
    let cut: usize = total - b.len();
    let mut i: usize = 0;
    while i < b.len()
        invariant
            a@ == s@,
            b@ == suffix@,
            cut + b@.len() == a@.len(),
            total == a@.len(),
            i <= b@.len(),
            forall|j: int| 0 <= j < i ==> a@[cut + j] == b@[j],
        decreases b@.len() - i,
    {
        if a[cut + i] != b[i] {
            proof {
                assert(s@.subrange(cut as int, s@.len() as int)[i as int] != suffix@[i as int]);
            }
            return None;
        }
        i += 1;
    }
    let p = string_of(&a, 0, cut);
    proof {
        assert(s@.subrange(cut as int, s@.len() as int) =~= suffix@);
        assert(p@ + suffix@ =~= s@);
    }
    Some(p)
}

/// The character of a decimal digit.
pub open spec fn digit(d: int) -> char {
    ('0' as u32 + d) as char
}

/// A number in decimal notation, without leading zeros.
pub open spec fn decimal(n: nat) -> Seq<char>
    decreases n,
{
    if n < 10 {
        seq![digit(n as int)]
    } else {
        decimal(n / 10).push(digit((n % 10) as int))
    }
}

/// Appends a number in decimal notation.
pub fn push_decimal(out: &mut String, n: u64)
    ensures
        final(out)@ == old(out)@ + decimal(n as nat),
    decreases n,
{
    if n >= 10 {
        push_decimal(out, n / 10);
    }
    let d: u8 = (n % 10) as u8;
    out.push((48 + d) as char);
    proof {
        assert(out@ =~= old(out)@ + decimal(n as nat));
    }
}

/// The number in decimal notation.
pub fn to_decimal(n: u64) -> (r: String)
    ensures
        r@ == decimal(n as nat),
{
    let mut out = String::new();
    push_decimal(&mut out, n);
    proof {
        assert(out@ =~= decimal(n as nat));
    }
    out
}

/// Whether a character is an ASCII digit.
pub open spec fn is_digit(c: char) -> bool {
    '0' <= c && c <= '9'
}

/// Whether every character is an ASCII digit.
pub open spec fn all_digits(s: Seq<char>) -> bool {
    forall|i: int| 0 <= i < s.len() ==> is_digit(#[trigger] s[i])
}

/// The number that a run of digits stands for.
pub open spec fn digits_value(s: Seq<char>) -> nat
    decreases s.len(),
{
    if s.len() == 0 {
        0
    } else {
        digits_value(s.drop_last()) * 10 + (s.last() as u32 - '0' as u32) as nat
    }
}

/// The number not above `max` that a text stands for: digits, after at most
/// one plus sign.
pub open spec fn parsed_number(s: Seq<char>, max: nat) -> Option<nat> {
    let d = if s.len() > 0 && s[0] == '+' {
        s.skip(1)
    } else {
        s
    };
    if d.len() > 0 && all_digits(d) && digits_value(d) <= max {
        Some(digits_value(d))
    } else {
        None
    }
}

proof fn digits_value_grows(s: Seq<char>, k: int)
    requires
        0 <= k <= s.len(),
    ensures
        digits_value(s.take(k)) <= digits_value(s),
    decreases s.len() - k,
{
    if k < s.len() {
        assert(s.take(k + 1).drop_last() =~= s.take(k));
        digits_value_grows(s, k + 1);
    } else {
        assert(s.take(k) =~= s);
    }
}

/// The unsigned number that the text stands for.
pub fn parse_u64(s: &str) -> (r: Option<u64>)
    ensures
        r is Some <==> parsed_number(s@, u64::MAX as nat) is Some,
        r matches Some(n) ==> parsed_number(s@, u64::MAX as nat) == Some(n as nat),
{
    let cs = chars_of(s);
    let start: usize = if cs.len() > 0 && cs[0] == '+' { 1 } else { 0 };
    let ghost d = cs@.skip(start as int);
    proof {
        assert(s@.skip(0) =~= s@);
    }
    if start == cs.len() {
        return None;
    }
    let mut acc: u64 = 0;
    let mut i: usize = start;
    while i < cs.len()
        invariant
            cs@ == s@,
            d == cs@.skip(start as int),
            start < cs@.len(),
            start == (if s@.len() > 0 && s@[0] == '+' { 1int } else { 0int }),
            d == (if s@.len() > 0 && s@[0] == '+' { s@.skip(1) } else { s@ }),
            start <= i <= cs@.len(),
            all_digits(d.take(i - start)),
            acc == digits_value(d.take(i - start)),
        decreases cs@.len() - i,
    {
        let c = cs[i];
        if !('0' <= c && c <= '9') {
            proof {
                assert(d[i - start] == c);
            }
            return None;
        }
        let v: u64 = (c as u32 - '0' as u32) as u64;
        proof {
            assert(d.take(i + 1 - start).drop_last() =~= d.take(i - start));
            assert(d.take(i + 1 - start).last() == c);
            digits_value_grows(d, i + 1 - start);
        }
        if acc > (u64::MAX - v) / 10 {
            return None;
        }
        acc = acc * 10 + v;
        proof {
            assert forall|j: int| 0 <= j < i + 1 - start implies is_digit(#[trigger] d.take(i + 1 - start)[j]) by {
                if j < i - start {
                    assert(d.take(i - start)[j] == d[j]);
                }
            }
        }
        i += 1;
    }
    proof {
        assert(d.take(d.len() as int) =~= d);
    }
    Some(acc)
}

/// The number that the text stands for, where it fits a `usize`.
pub fn parse_usize(s: &str) -> (r: Option<usize>)
    ensures
        r is Some <==> parsed_number(s@, usize::MAX as nat) is Some,
        r matches Some(n) ==> parsed_number(s@, usize::MAX as nat) == Some(n as nat),
{
    match parse_u64(s) {
        Some(n) => if n <= usize::MAX as u64 {
            Some(n as usize)
        } else {
            None
        },
        None => None,
    }
}

/// Two texts one after the other.
pub fn cat(a: &str, b: &str) -> (r: String)
    ensures
        r@ == a@ + b@,
{
    let mut out = String::new();
    out.append(a);
    out.append(b);
    proof {
        assert(out@ =~= a@ + b@);
    }
    out
}

/// Lower case changes nothing but the letters from A to Z, each of which
/// becomes the letter of the same place from a to z; so it is lost on a text
/// that is in lower case already.
pub proof fn lower_is_by_letter(s: Seq<char>)
    ensures
        lower(s).len() == s.len(),
        forall|i: int|
            0 <= i < s.len() ==> if 65 <= s[i] as u32 <= 90 {
                (#[trigger] lower(s)[i]) as u32 - 97 == s[i] as u32 - 65
            } else {
                lower(s)[i] == s[i]
            },
        lower(lower(s)) == lower(s),
{
    assert(lower(lower(s)) =~= lower(s));
}

/// White space is the blank, the tab and the other white space of Unicode; no
/// visible ASCII character is.
pub proof fn white_space_is_invisible(c: char)
    ensures
        is_white(' '),
        is_white('\t'),
        is_white('\n'),
        is_white('\r'),
        33 <= c as u32 <= 126 ==> !is_white(c),
        c as u32 <= 8 ==> !is_white(c),
        0x3001 <= c as u32 ==> !is_white(c),
{
}

/// Trimming takes white space off both ends and nothing else: what is left
/// neither begins nor ends with any.
pub proof fn trimming_takes_the_ends(s: Seq<char>)
    ensures
        exists|a: int, b: int|
            {
                &&& 0 <= a <= b <= s.len()
                &&& trimmed(s) == #[trigger] s.subrange(a, b)
                &&& forall|i: int| 0 <= i < s.len() && !(a <= i < b) ==> is_white(#[trigger] s[i])
                &&& a < b ==> !is_white(s[a]) && !is_white(s[b - 1])
            },
{
    let a = leading(s);
    let t = trim_start(s);
    let b = trailing(t);
    assert(trimmed(s) =~= s.subrange(a, a + b));
    assert forall|i: int| 0 <= i < s.len() && !(a <= i < a + b) implies is_white(
        #[trigger] s[i],
    ) by {
        if i >= a + b {
            assert(t[i - a] == s[i]);
        }
    }
    if b > 0 {
        assert(t[0] == s[a]);
        assert(t[b - 1] == s[a + b - 1]);
    }
}

proof fn leading(s: Seq<char>) -> (a: int)
    ensures
        0 <= a <= s.len(),
        trim_start(s) == s.skip(a),
        forall|i: int| 0 <= i < a ==> is_white(#[trigger] s[i]),
        a < s.len() ==> !is_white(s[a]),
    decreases s.len(),
{
    if s.len() > 0 && is_white(s[0]) {
        let rest = s.skip(1);
        let a = leading(rest);
        assert(rest.skip(a) =~= s.skip(a + 1));
        assert forall|i: int| 0 <= i < a + 1 implies is_white(#[trigger] s[i]) by {
            if i > 0 {
                assert(rest[i - 1] == s[i]);
            }
        }
        if a < rest.len() {
            assert(rest[a] == s[a + 1]);
        }
        a + 1
    } else {
        assert(s.skip(0) =~= s);
        0
    }
}

proof fn trailing(s: Seq<char>) -> (b: int)
    ensures
        0 <= b <= s.len(),
        trim_end(s) == s.take(b),
        forall|i: int| b <= i < s.len() ==> is_white(#[trigger] s[i]),
        b > 0 ==> !is_white(s[b - 1]),
    decreases s.len(),
{
    if s.len() > 0 && is_white(s.last()) {
        let rest = s.drop_last();
        let b = trailing(rest);
        assert(rest.take(b) =~= s.take(b));
        assert forall|i: int| b <= i < s.len() implies is_white(#[trigger] s[i]) by {
            if i < rest.len() {
                assert(rest[i] == s[i]);
            }
        }
        b
    } else {
        assert(s.take(s.len() as int) =~= s);
        s.len() as int
    }
}

/// A text without white space at its ends is left as it is.
pub proof fn trimming_leaves_the_rest(s: Seq<char>)
    requires
        s.len() > 0 ==> !is_white(s[0]) && !is_white(s.last()),
    ensures
        trimmed(s) == s,
{
}

/// Pieces without a separator are found again in the text that joins them.
pub proof fn join_split(pieces: Seq<Seq<char>>, sep: char)
    requires
        pieces.len() > 0,
        forall|i: int| 0 <= i < pieces.len() ==> !(#[trigger] pieces[i]).contains(sep),
    ensures
        split(join(pieces, sep), sep) == pieces,
    decreases pieces.len(),
{
    let last = pieces.last();
    assert(!pieces[pieces.len() - 1].contains(sep));
    if pieces.len() == 1 {
        split_tail(Seq::empty(), last, sep);
        assert(Seq::<char>::empty() + last =~= last);
        assert(Seq::<char>::empty() + last =~= join(pieces, sep));
        assert(split(last, sep) =~= pieces);
    } else {
        let before = pieces.drop_last();
        assert forall|i: int| 0 <= i < before.len() implies !(#[trigger] before[i]).contains(
            sep,
        ) by {
            assert(before[i] == pieces[i]);
        }
        join_split(before, sep);
        let head = join(before, sep).push(sep);
        assert(head.drop_last() =~= join(before, sep));
        assert(split(head, sep) =~= before.push(Seq::empty()));
        split_tail(head, last, sep);
        assert(split(head + last, sep) =~= pieces);
    }
}

/// A text without a separator goes on the last piece of what stands before.
proof fn split_tail(head: Seq<char>, tail: Seq<char>, sep: char)
    requires
        !tail.contains(sep),
    ensures
        split(head, sep).len() > 0,
        split(head + tail, sep) == split(head, sep).update(
            split(head, sep).len() - 1,
            split(head, sep).last() + tail,
        ),
    decreases tail.len(),
{
    split_join(head, sep);
    let front = split(head, sep);
    if tail.len() == 0 {
        assert(head + tail =~= head);
        assert(front.last() + tail =~= front.last());
        assert(front.update(front.len() - 1, front.last() + tail) =~= front);
    } else {
        let less = tail.drop_last();
        assert(tail.last() != sep) by {
            assert(tail.contains(tail[tail.len() - 1]));
        }
        assert forall|c: char| less.contains(c) implies tail.contains(c) by {
            let i = choose|i: int| 0 <= i < less.len() && less[i] == c;
            assert(tail[i] == c);
        }
        split_tail(head, less, sep);
        assert((head + tail).drop_last() =~= head + less);
        assert((front.last() + less).push(tail.last()) =~= front.last() + tail);
        assert(split(head + tail, sep) =~= front.update(front.len() - 1, front.last() + tail));
    }
}

/// A text occurs in another if and only if that is it with something before
/// and something behind, perhaps nothing.
pub proof fn occurs_between(hay: Seq<char>, needle: Seq<char>, before: Seq<char>, behind: Seq<char>)
    ensures
        hay == before + needle + behind ==> occurs(hay, needle),
        occurs(hay, needle) ==> exists|k: int|
            0 <= k <= hay.len() - needle.len() && hay == #[trigger] hay.take(k) + needle + hay.skip(
                k + needle.len(),
            ),
{
    if hay == before + needle + behind {
        assert(hay.subrange(before.len() as int, (before.len() + needle.len()) as int) =~= needle);
        assert(occurs_at(hay, needle, before.len() as int));
    }
    if occurs(hay, needle) {
        let k = choose|k: int| #[trigger] occurs_at(hay, needle, k);
        assert(hay =~= hay.take(k) + hay.subrange(k, k + needle.len()) + hay.skip(
            k + needle.len(),
        ));
    }
}

/// The decimal notation of a number is a run of digits without a leading zero
/// that stands for this number.
pub proof fn decimal_stands_for_its_number(n: nat)
    ensures
        digits_value(decimal(n)) == n,
        all_digits(decimal(n)),
        decimal(n).len() > 0,
        n > 0 ==> decimal(n)[0] != '0',
        n < 10 ==> decimal(n).len() == 1 && decimal(n)[0] as u32 == 48 + n,
    decreases n,
{
    if n < 10 {
        assert(decimal(n).drop_last() =~= Seq::empty());
        assert(digits_value(Seq::<char>::empty()) == 0);
    } else {
        decimal_stands_for_its_number(n / 10);
        let front = decimal(n / 10);
        let all = decimal(n);
        assert(all.drop_last() =~= front);
        assert forall|i: int| 0 <= i < all.len() implies is_digit(#[trigger] all[i]) by {
            if i < front.len() {
                assert(all[i] == front[i]);
            }
        }
        assert(all[0] == front[0]);
    }
}

/// One more digit makes ten times the number and the digit.
pub proof fn digits_count_in_tens(s: Seq<char>, d: int)
    requires
        0 <= d <= 9,
    ensures
        digits_value(s.push((48 + d) as char)) == 10 * digits_value(s) + d,
        is_digit((48 + d) as char),
{
    assert(s.push((48 + d) as char).drop_last() =~= s);
}

/// A number is read from its decimal notation, with or without a plus sign,
/// where it is within bounds; nothing is read from a text that holds anything
/// but digits behind its sign, or none.
pub proof fn numbers_are_read_back(n: nat, max: nat, s: Seq<char>, i: int)
    ensures
        parsed_number(decimal(n), max) == if n <= max {
            Some(n)
        } else {
            None
        },
        parsed_number(seq!['+'] + decimal(n), max) == parsed_number(decimal(n), max),
        s.len() == 0 ==> parsed_number(s, max) is None,
        1 <= i < s.len() && !(48 <= s[i] as u32 <= 57) ==> parsed_number(s, max) is None,
        s.len() > 0 && !(48 <= s[0] as u32 <= 57) && s[0] != '+' ==> parsed_number(s, max) is None,
        parsed_number(s, max) matches Some(v) ==> v <= max,
{
    decimal_stands_for_its_number(n);
    assert(is_digit(decimal(n)[0]));
    assert((seq!['+'] + decimal(n)).skip(1) =~= decimal(n));
    let d = if s.len() > 0 && s[0] == '+' {
        s.skip(1)
    } else {
        s
    };
    if 1 <= i < s.len() && !(48 <= s[i] as u32 <= 57) {
        if s[0] == '+' {
            assert(!is_digit(d[i - 1]));
        } else {
            assert(!is_digit(d[i]));
        }
    }
    if s.len() > 0 && !(48 <= s[0] as u32 <= 57) && s[0] != '+' {
        assert(!is_digit(d[0]));
    }
}

/// As many spaces as make a text of some length one of a width.
pub open spec fn spaces(len: nat, width: nat) -> Seq<char> {
    Seq::new(
        if len < width {
            (width - len) as nat
        } else {
            0
        },
        |i: int| ' ',
    )
}

/// A text and its spaces have the width, unless the text alone is longer.
pub proof fn spaces_fill_the_width(len: nat, width: nat)
    ensures
        len <= width ==> len + spaces(len, width).len() == width,
        width <= len ==> spaces(len, width).len() == 0,
        forall|i: int|
            0 <= i < spaces(len, width).len() ==> (#[trigger] spaces(len, width)[i]) == ' ',
{
}

/// Spaces that make a text one of a width.
fn fill(s: &str, width: usize) -> (r: String)
    ensures
        r@ == spaces(s@.len(), width as nat),
{
    let mut i: usize = chars_of(s).len();
    let mut out = String::new();
    while i < width
        invariant
            s@.len() <= i,
            out@ == spaces(s@.len(), i as nat),
            i <= width || s@.len() == i,
        decreases width - i,
    {
        out.push(' ');
        i += 1;
        assert(out@ =~= spaces(s@.len(), i as nat));
    }
    assert(out@ =~= spaces(s@.len(), width as nat));
    out
}

/// A text with spaces behind it, up to a width.
pub fn pad_end(s: &str, width: usize) -> (r: String)
    ensures
        r@ == s@ + spaces(s@.len(), width as nat),
{
    cat(s, fill(s, width).as_str())
}

/// A text with spaces before it, up to a width.
pub fn pad_start(s: &str, width: usize) -> (r: String)
    ensures
        r@ == spaces(s@.len(), width as nat) + s@,
{
    cat(fill(s, width).as_str(), s)
}

} // verus!
