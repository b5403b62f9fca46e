//! Character-level helpers shared by the rest of the library: white space,
//! ASCII case, hexadecimal and decimal text.

use vstd::prelude::*;

verus! {

/// Unicode `White_Space` code points: what `str::trim` removes.
pub open spec fn is_ws(c: char) -> bool {
    let u = c as u32;
    ||| (0x09 <= u <= 0x0d)
    ||| u == 0x20
    ||| u == 0x85
    ||| u == 0xa0
    ||| u == 0x1680
    ||| (0x2000 <= u <= 0x200a)
    ||| u == 0x2028
    ||| u == 0x2029
    ||| u == 0x202f
    ||| u == 0x205f
    ||| u == 0x3000
}

/// `s` without its leading and trailing white space.
pub open spec fn trim_ws(s: Seq<char>) -> Seq<char>
    decreases s.len(),
{
    if s.len() == 0 {
        s
    } else if is_ws(s[0]) {
        trim_ws(s.drop_first())
    } else if is_ws(s.last()) {
        trim_ws(s.drop_last())
    } else {
        s
    }
}

/// `str::trim` (std): leading and trailing Unicode white space removed.
#[verifier::external_body]
pub(crate) fn trim(s: &str) -> (r: &str)
    ensures
        r@ == trim_ws(s@),
{
    s.trim()
}

/// `String::push` (std): appends one character.
#[verifier::external_body]
pub(crate) fn push_char(s: &mut String, c: char)
    ensures
        final(s)@ == old(s)@.push(c),
{
    s.push(c)
}

/// The characters of `s`, in order.
pub fn chars_of(s: &str) -> (v: Vec<char>)
    ensures
        v@ == s@,
{
    let mut v: Vec<char> = Vec::new();
    for c in it: s.chars()
        invariant
            v@ == it.seq().take(it.index() as int),
            it.seq() == s@,
    {
        v.push(c);
    }
    v
}

/// A `String` holding exactly the characters `v[from..to]`.
pub fn string_of(v: &Vec<char>, from: usize, to: usize) -> (s: String)
    requires
        from <= to <= v.len(),
    ensures
        s@ == v@.subrange(from as int, to as int),
{
    let mut s = String::new();
    let mut i = from;
    while i < to
        invariant
            from <= i <= to <= v.len(),
            s@ == v@.subrange(from as int, i as int),
        decreases to - i,
    {
        push_char(&mut s, v[i]);
        i += 1;
        assert(s@ =~= v@.subrange(from as int, i as int));
    }
    s
}

/// `a` and `b` hold the same characters.
pub fn same_text(a: &str, b: &str) -> (r: bool)
    ensures
        r == (a@ == b@),
{
    let x = chars_of(a);
    let y = chars_of(b);
    if x.len() != y.len() {
        return false;
    }
    let mut i: usize = 0;
    while i < x.len()
        invariant
            x@ == a@,
            y@ == b@,
            x.len() == y.len(),
            i <= x.len(),
            forall|j: int| 0 <= j < i ==> x@[j] == y@[j],
        decreases x.len() - i,
    {
        if x[i] != y[i] {
            return false;
        }
        i += 1;
    }
    assert(x@ =~= y@);
    true
}

/// `p` is a prefix of `s`.
pub open spec fn has_prefix(s: Seq<char>, p: Seq<char>) -> bool {
    p.len() <= s.len() && s.take(p.len() as int) == p
}

/// `s.starts_with(p)`.
pub fn starts_with(s: &str, p: &str) -> (r: bool)
    ensures
        r == has_prefix(s@, p@),
{
    let x = chars_of(s);
    let y = chars_of(p);
    if y.len() > x.len() {
        return false;
    }
    let mut i: usize = 0;
    while i < y.len()
        invariant
            x@ == s@,
            y@ == p@,
            y.len() <= x.len(),
            i <= y.len(),
            forall|j: int| 0 <= j < i ==> x@[j] == y@[j],
        decreases y.len() - i,
    {
        if x[i] != y[i] {
            assert(s@.take(p@.len() as int)[i as int] != p@[i as int]);
            return false;
        }
        i += 1;
    }
    assert(s@.take(p@.len() as int) =~= p@);
    true
}

// ---------------------------------------------------------------- order

/// `a` sorts strictly before `b`: lexicographically, by code point (for
/// UTF-8 text this is the byte order that `str`'s `Ord` uses).
pub open spec fn text_lt(a: Seq<char>, b: Seq<char>) -> bool
    decreases a.len(),
{
    if b.len() == 0 {
        false
    } else if a.len() == 0 {
        true
    } else if a[0] != b[0] {
        (a[0] as int) < (b[0] as int)
    } else {
        text_lt(a.drop_first(), b.drop_first())
    }
}

/// No text sorts before itself.
pub proof fn lemma_text_lt_irreflexive(a: Seq<char>)
    ensures
        !text_lt(a, a),
    decreases a.len(),
{
    if a.len() > 0 {
        lemma_text_lt_irreflexive(a.drop_first());
    }
}

/// Two different texts are ordered one way and not the other.
pub proof fn lemma_text_lt_total(a: Seq<char>, b: Seq<char>)
    ensures
        a != b ==> (text_lt(a, b) || text_lt(b, a)),
        !(text_lt(a, b) && text_lt(b, a)),
    decreases a.len(),
{
    if a.len() > 0 && b.len() > 0 && a[0] == b[0] {
        lemma_text_lt_total(a.drop_first(), b.drop_first());
        if a != b {
            assert(a =~= seq![a[0]] + a.drop_first());
            assert(b =~= seq![b[0]] + b.drop_first());
        }
    } else if a.len() > 0 && b.len() > 0 {
        assert((a[0] as int) != (b[0] as int));
    } else if a.len() == 0 && b.len() == 0 {
        assert(a =~= b);
    }
}

/// The text order is transitive.
pub proof fn lemma_text_lt_transitive(a: Seq<char>, b: Seq<char>, c: Seq<char>)
    requires
        text_lt(a, b),
        text_lt(b, c),
    ensures
        text_lt(a, c),
    decreases a.len(),
{
    if a.len() > 0 && b.len() > 0 && c.len() > 0 && a[0] == b[0] && b[0] == c[0] {
        lemma_text_lt_transitive(a.drop_first(), b.drop_first(), c.drop_first());
    }
}

/// Comparing from position `i` on, after equal characters there.
proof fn lemma_text_lt_step(a: Seq<char>, b: Seq<char>, i: int)
    requires
        0 <= i < a.len(),
        i < b.len(),
        a[i] == b[i],
    ensures
        text_lt(a.skip(i), b.skip(i)) == text_lt(a.skip(i + 1), b.skip(i + 1)),
{
    assert(a.skip(i).drop_first() =~= a.skip(i + 1));
    assert(b.skip(i).drop_first() =~= b.skip(i + 1));
}

/// `a < b` for text.
pub fn text_less(a: &str, b: &str) -> (r: bool)
    ensures
        r == text_lt(a@, b@),
{
    let x = chars_of(a);
    let y = chars_of(b);
    let mut i: usize = 0;
    assert(a@.skip(0) =~= a@ && b@.skip(0) =~= b@);
    while i < x.len() && i < y.len() && x[i] == y[i]
        invariant
            x@ == a@,
            y@ == b@,
            i <= x.len(),
            i <= y.len(),
            text_lt(a@, b@) == text_lt(a@.skip(i as int), b@.skip(i as int)),
        decreases x.len() - i,
    {
        proof {
            lemma_text_lt_step(a@, b@, i as int);
        }
        i += 1;
    }
    if i == y.len() {
        assert(b@.skip(i as int).len() == 0);
        false
    } else if i == x.len() {
        assert(a@.skip(i as int).len() == 0);
        true
    } else {
        assert(a@.skip(i as int)[0] == x@[i as int]);
        assert(b@.skip(i as int)[0] == y@[i as int]);
        x[i] < y[i]
    }
}

/// A `String` with the characters of `s`.
pub fn owned(s: &str) -> (r: String)
    ensures
        r@ == s@,
{
    String::from_str(s)
}

// ---------------------------------------------------------------- ASCII case

pub open spec fn is_ascii_upper(c: char) -> bool {
    'A' <= c <= 'Z'
}

pub open spec fn is_ascii_alnum(c: char) -> bool {
    ('a' <= c <= 'z') || ('A' <= c <= 'Z') || ('0' <= c <= '9')
}

/// `char::to_ascii_lowercase`.
pub open spec fn ascii_lower(c: char) -> char {
    if is_ascii_upper(c) {
        ((c as u32) + 32) as char
    } else {
        c
    }
}

/// `str::to_ascii_lowercase`.
pub open spec fn lower_seq(s: Seq<char>) -> Seq<char> {
    s.map_values(|c: char| ascii_lower(c))
}

/// `str::eq_ignore_ascii_case`.
pub open spec fn eq_ignore_case(a: Seq<char>, b: Seq<char>) -> bool {
    lower_seq(a) == lower_seq(b)
}

/// `char::to_ascii_lowercase` (std).
#[verifier::external_body]
pub(crate) fn lower_char(c: char) -> (r: char)
    ensures
        r == ascii_lower(c),
{
    c.to_ascii_lowercase()
}

pub fn is_ascii_alnum_char(c: char) -> (r: bool)
    ensures
        r == is_ascii_alnum(c),
{
    ('a' <= c && c <= 'z') || ('A' <= c && c <= 'Z') || ('0' <= c && c <= '9')
}

/// `s` with its ASCII upper-case letters lowered.
pub fn to_ascii_lowercase(s: &str) -> (r: String)
    ensures
        r@ == lower_seq(s@),
{
    let v = chars_of(s);
    let mut r = String::new();
    let mut i: usize = 0;
    while i < v.len()
        invariant
            v@ == s@,
            i <= v.len(),
            r@ == lower_seq(v@.take(i as int)),
        decreases v.len() - i,
    {
        let c = lower_char(v[i]);
        push_char(&mut r, c);
        i += 1;
        assert(lower_seq(v@.take(i as int)) =~= lower_seq(v@.take(i - 1)).push(c));
    }
    assert(v@.take(v.len() as int) =~= v@);
    r
}

/// ASCII-case-insensitive comparison of two texts.
pub fn eq_ignore_ascii_case(a: &str, b: &str) -> (r: bool)
    ensures
        r == eq_ignore_case(a@, b@),
{
    let x = chars_of(a);
    let y = chars_of(b);
    if x.len() != y.len() {
        assert(lower_seq(a@).len() != lower_seq(b@).len());
        return false;
    }
    let mut i: usize = 0;
    while i < x.len()
        invariant
            x@ == a@,
            y@ == b@,
            x.len() == y.len(),
            i <= x.len(),
            forall|j: int| 0 <= j < i ==> ascii_lower(x@[j]) == ascii_lower(y@[j]),
        decreases x.len() - i,
    {
        if lower_char(x[i]) != lower_char(y[i]) {
            assert(lower_seq(a@)[i as int] != lower_seq(b@)[i as int]);
            return false;
        }
        i += 1;
    }
    assert(lower_seq(a@) =~= lower_seq(b@));
    true
}

// ---------------------------------------------------------------- hexadecimal

/// Lower-case hexadecimal digit of `n` (`0 <= n < 16`).
pub open spec fn hex_digit(n: int) -> char {
    if n < 10 {
        (('0' as int) + n) as char
    } else {
        (('a' as int) + n - 10) as char
    }
}

/// Lower-case hexadecimal text of `bytes`, two digits per byte.
pub open spec fn hex_lower(bytes: Seq<u8>) -> Seq<char>
    decreases bytes.len(),
{
    if bytes.len() == 0 {
        Seq::empty()
    } else {
        hex_lower(bytes.drop_last()) + seq![
            hex_digit(bytes.last() as int / 16),
            hex_digit(bytes.last() as int % 16),
        ]
    }
}

pub open spec fn is_hex_lower_char(c: char) -> bool {
    ('0' <= c <= '9') || ('a' <= c <= 'f')
}

/// The hex text of `bytes` is twice as long and made of `0-9a-f` only.
pub proof fn lemma_hex_lower_shape(bytes: Seq<u8>)
    ensures
        hex_lower(bytes).len() == 2 * bytes.len(),
        forall|i: int| 0 <= i < hex_lower(bytes).len() ==> is_hex_lower_char(#[trigger] hex_lower(bytes)[i]),
    decreases bytes.len(),
{
    if bytes.len() > 0 {
        lemma_hex_lower_shape(bytes.drop_last());
        let h = hex_lower(bytes.drop_last());
        let t = seq![hex_digit(bytes.last() as int / 16), hex_digit(bytes.last() as int % 16)];
        assert forall|i: int| 0 <= i < hex_lower(bytes).len() implies is_hex_lower_char(#[trigger] hex_lower(bytes)[i]) by {
            if i < h.len() {
                assert(hex_lower(bytes)[i] == h[i]);
            } else {
                assert(hex_lower(bytes)[i] == t[i - h.len()]);
            }
        }
    }
}

// ---------------------------------------------------------------- decimal

pub open spec fn is_digit(c: char) -> bool {
    '0' <= c <= '9'
}

pub open spec fn all_digits(s: Seq<char>) -> bool {
    forall|i: int| 0 <= i < s.len() ==> is_digit(#[trigger] s[i])
}

/// The number written by the decimal digits `s`.
pub open spec fn decimal_value(s: Seq<char>) -> nat
    decreases s.len(),
{
    if s.len() == 0 {
        0
    } else {
        decimal_value(s.drop_last()) * 10 + ((s.last() as int) - ('0' as int)) as nat
    }
}

/// What `u16::from_str` accepts: an optional `+`, then at least one digit,
/// and a value that fits.
pub open spec fn parse_u16_spec(s: Seq<char>) -> Option<u16> {
    let d = if s.len() > 0 && s[0] == '+' { s.drop_first() } else { s };
    if d.len() > 0 && all_digits(d) && decimal_value(d) <= u16::MAX {
        Some(decimal_value(d) as u16)
    } else {
        None
    }
}

/// What `i64::from_str` accepts: an optional `+` or `-`, then at least one
/// digit, and a value that fits.
pub open spec fn parse_i64_spec(s: Seq<char>) -> Option<i64> {
    if s.len() > 0 && s[0] == '-' {
        let d = s.drop_first();
        if d.len() > 0 && all_digits(d) && decimal_value(d) <= 0x8000_0000_0000_0000 {
            Some((-(decimal_value(d) as int)) as i64)
        } else {
            None
        }
    } else {
        let d = if s.len() > 0 && s[0] == '+' { s.drop_first() } else { s };
        if d.len() > 0 && all_digits(d) && decimal_value(d) <= i64::MAX {
            Some(decimal_value(d) as i64)
        } else {
            None
        }
    }
}

/// Reads the digits `v[from..]`. Returns `None` when one of them is not a
/// digit, or when there are none; otherwise the value, or `u64::MAX` as soon
/// as the value exceeds `limit`.
fn digits_value(v: &Vec<char>, from: usize, limit: u64) -> (r: Option<u64>)
    requires
        from <= v.len(),
        9 <= limit < u64::MAX,
    ensures
        ({
            let d = v@.subrange(from as int, v.len() as int);
            match r {
                None => !(d.len() > 0 && all_digits(d)),
                Some(x) => d.len() > 0 && all_digits(d) && (if decimal_value(d) <= limit {
                    x == decimal_value(d)
                } else {
                    x == u64::MAX
                }),
            }
        }),
{
    if from == v.len() {
        return None;
    }
    let mut acc: u64 = 0;
    let mut big = false;
    let mut i = from;
    while i < v.len()
        invariant
            from <= i <= v.len(),
            9 <= limit < u64::MAX,
            all_digits(v@.subrange(from as int, i as int)),
            big ==> decimal_value(v@.subrange(from as int, i as int)) > limit,
            !big ==> acc == decimal_value(v@.subrange(from as int, i as int)) && acc <= limit,
        decreases v.len() - i,
    {
        let c = v[i];
        if !('0' <= c && c <= '9') {
            assert(v@.subrange(from as int, v.len() as int)[i - from] == c);
            return None;
        }
        let ghost p = v@.subrange(from as int, i as int);
        let ghost q = v@.subrange(from as int, i + 1);
        assert(q.drop_last() =~= p);
        assert(q.last() == c);
        let d: u64 = ((c as u32) - ('0' as u32)) as u64;
        if !big {
            if acc > (limit - d) / 10 {
                big = true;
                assert(acc * 10 + d > limit) by (nonlinear_arith)
                    requires acc > (limit - d) / 10, d <= 9, 9 <= limit;
            } else {
                assert(acc * 10 + d <= limit) by (nonlinear_arith)
                    requires acc <= (limit - d) / 10, d <= 9, 9 <= limit;
                acc = acc * 10 + d;
            }
        } else {
            assert(decimal_value(q) >= decimal_value(p));
        }
        i += 1;
        assert(all_digits(v@.subrange(from as int, i as int)));
    }
    if big {
        Some(u64::MAX)
    } else {
        Some(acc)
    }
}

/// `u16::from_str`, as a function of the text.
pub fn parse_u16(s: &str) -> (r: Option<u16>)
    ensures
        r == parse_u16_spec(s@),
{
    let v = chars_of(s);
    let from: usize = if v.len() > 0 && v[0] == '+' { 1 } else { 0 };
    let ghost d = if s@.len() > 0 && s@[0] == '+' { s@.drop_first() } else { s@ };
    assert(v@.subrange(from as int, v.len() as int) =~= d);
    match digits_value(&v, from, 65535) {
        None => None,
        Some(x) => {
            if x <= 65535 {
                Some(x as u16)
            } else {
                None
            }
        },
    }
}

/// `i64::from_str`, as a function of the text.
pub fn parse_i64(s: &str) -> (r: Option<i64>)
    ensures
        r == parse_i64_spec(s@),
{
    let v = chars_of(s);
    if v.len() > 0 && v[0] == '-' {
        assert(v@.subrange(1, v.len() as int) =~= s@.drop_first());
        match digits_value(&v, 1, 0x8000_0000_0000_0000) {
            None => None,
            Some(x) => {
                if x <= 0x8000_0000_0000_0000 {
                    if x == 0x8000_0000_0000_0000 {
                        Some(i64::MIN)
                    } else {
                        Some(-(x as i64))
                    }
                } else {
                    None
                }
            },
        }
    } else {
        let from: usize = if v.len() > 0 && v[0] == '+' { 1 } else { 0 };
        let ghost d = if s@.len() > 0 && s@[0] == '+' { s@.drop_first() } else { s@ };
        assert(v@.subrange(from as int, v.len() as int) =~= d);
        match digits_value(&v, from, 0x7fff_ffff_ffff_ffff) {
            None => None,
            Some(x) => {
                if x <= 0x7fff_ffff_ffff_ffff {
                    Some(x as i64)
                } else {
                    None
                }
            },
        }
    }
}

// ---------------------------------------------------------------- decimal text

/// Decimal digits of `n`, most significant first, no leading zeros.
pub open spec fn decimal_text(n: nat) -> Seq<char>
    decreases n,
{
    if n < 10 {
        seq![(('0' as int) + n) as char]
    } else {
        decimal_text(n / 10) + seq![(('0' as int) + n % 10) as char]
    }
}

/// `n.to_string()` for a non-negative `n`.
pub fn decimal_string(n: u64) -> (r: String)
    ensures
        r@ == decimal_text(n as nat),
    decreases n,
{
    if n < 10 {
        let mut s = String::new();
        push_char(&mut s, ((n as u8) + 48) as char);
        s
    } else {
        let mut s = decimal_string(n / 10);
        push_char(&mut s, (((n % 10) as u8) + 48) as char);
        s
    }
}

/// Decimal text of a signed integer, with a leading `-` when negative.
pub open spec fn signed_text(n: int) -> Seq<char> {
    if n < 0 {
        seq!['-'] + decimal_text((-n) as nat)
    } else {
        decimal_text(n as nat)
    }
}

/// `n.to_string()`.
pub fn signed_string(n: i64) -> (r: String)
    ensures
        r@ == signed_text(n as int),
{
    if n < 0 {
        let magnitude: u64 = if n == i64::MIN { 9_223_372_036_854_775_808u64 } else { (-n) as u64 };
        let mut s = String::new();
        push_char(&mut s, '-');
        let digits = decimal_string(magnitude);
        let r = s.concat(digits.as_str());
        assert(r@ =~= seq!['-'] + decimal_text((-(n as int)) as nat));
        r
    } else {
        decimal_string(n as u64)
    }
}

// ---------------------------------------------------------------- filtering

proof fn lemma_filter_push_one<A>(s: Seq<A>, p: spec_fn(A) -> bool, c: A)
    ensures
        s.push(c).filter(p) == (if p(c) { s.filter(p).push(c) } else { s.filter(p) }),
{
    reveal(Seq::filter);
    assert(s.push(c).drop_last() =~= s);
}

/// Filtering keeps a sequence whose items all pass unchanged.
pub proof fn lemma_filter_all_kept<A>(s: Seq<A>, p: spec_fn(A) -> bool)
    requires
        forall|i: int| 0 <= i < s.len() ==> p(#[trigger] s[i]),
    ensures
        s.filter(p) == s,
    decreases s.len(),
{
    reveal(Seq::filter);
    if s.len() > 0 {
        lemma_filter_all_kept(s.drop_last(), p);
        assert(s.drop_last().push(s.last()) =~= s);
    }
}

/// Every item of a filtered sequence satisfies the filter.
pub proof fn lemma_filter_only_kept<A>(s: Seq<A>, p: spec_fn(A) -> bool)
    ensures
        forall|i: int| 0 <= i < s.filter(p).len() ==> p(#[trigger] s.filter(p)[i]),
    decreases s.len(),
{
    reveal(Seq::filter);
    if s.len() > 0 {
        lemma_filter_only_kept(s.drop_last(), p);
        lemma_filter_push_one(s.drop_last(), p, s.last());
        assert(s.drop_last().push(s.last()) =~= s);
    }
}

pub proof fn lemma_filter_step<A>(s: Seq<A>, p: spec_fn(A) -> bool, i: int)
    requires
        0 <= i < s.len(),
    ensures
        s.take(i + 1).filter(p) == (if p(s[i]) { s.take(i).filter(p).push(s[i]) } else { s.take(i).filter(p) }),
{
    lemma_filter_push_one(s.take(i), p, s[i]);
    assert(s.take(i + 1) =~= s.take(i).push(s[i]));
}

} // verus!
