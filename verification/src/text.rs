//! Character-level helpers on strings: trimming, path joining, number
//! formatting. Each one is specified over the `Seq<char>` view of its input.
use vstd::prelude::*;

verus! {

/// `s` with every trailing `c` removed (what `str::trim_end_matches(c)` gives).
pub open spec fn trim_end_char(s: Seq<char>, c: char) -> Seq<char>
    decreases s.len(),
{
    if s.len() > 0 && s.last() == c {
        trim_end_char(s.drop_last(), c)
    } else {
        s
    }
}

/// `s` with every leading `c` removed (what `str::trim_start_matches(c)` gives).
pub open spec fn trim_start_char(s: Seq<char>, c: char) -> Seq<char>
    decreases s.len(),
{
    if s.len() > 0 && s[0] == c {
        trim_start_char(s.drop_first(), c)
    } else {
        s
    }
}

/// `base` and `tail` joined by one `/`, after the trailing slashes of `base`
/// are removed: `format!("{}/{}", base.trim_end_matches('/'), tail)`.
pub open spec fn join_path_spec(base: Seq<char>, tail: Seq<char>) -> Seq<char> {
    trim_end_char(base, '/') + seq!['/'] + tail
}

/// Appends one character to a string.
#[verifier::external_body]
pub(crate) fn push_char(s: &mut String, c: char)
    ensures
        final(s)@ == old(s)@.push(c),
{
    s.push(c);
}

/// The characters of `s`, in order.
pub fn chars_of(s: &str) -> (r: Vec<char>)
    ensures
        r@ == s@,
{
    broadcast use vstd::string::group_string_axioms;
    let mut r: Vec<char> = Vec::new();
    for c in it: s.chars()
        invariant
            r@ == it.seq().take(it.index() as int),
            it.seq() == s@,
    {
        r.push(c);
    }
    r
}


/// Trimming every trailing `c` from `s.take(k)` gives the same as from `s`,
/// when all characters from `k` on are `c`.
pub proof fn lemma_trim_end_suffix(s: Seq<char>, c: char, k: int)
    requires
        0 <= k <= s.len(),
        forall|i: int| k <= i < s.len() ==> s[i] == c,
    ensures
        trim_end_char(s, c) == trim_end_char(s.take(k), c),
    decreases s.len(),
{
    if k < s.len() {
        assert(s.last() == c);
        assert(s.drop_last().take(k) =~= s.take(k));
        lemma_trim_end_suffix(s.drop_last(), c, k);
    } else {
        assert(s.take(k) =~= s);
    }
}

/// Trimming every leading `c` from `s` gives the same as from `s.skip(k)`,
/// when all characters before `k` are `c`.
pub proof fn lemma_trim_start_prefix(s: Seq<char>, c: char, k: int)
    requires
        0 <= k <= s.len(),
        forall|i: int| 0 <= i < k ==> s[i] == c,
    ensures
        trim_start_char(s, c) == trim_start_char(s.skip(k), c),
    decreases k,
{
    if k > 0 {
        assert(s.drop_first().skip(k - 1) =~= s.skip(k));
        lemma_trim_start_prefix(s.drop_first(), c, k - 1);
    } else {
        assert(s.skip(0) =~= s);
    }
}

/// Appends the characters `cs[from..to]` to `s`.
pub fn push_chars(s: &mut String, cs: &Vec<char>, from: usize, to: usize)
    requires
        from <= to <= cs@.len(),
    ensures
        final(s)@ == old(s)@ + cs@.subrange(from as int, to as int),
{
    let mut i = from;
    while i < to
        invariant
            from <= i <= to <= cs@.len(),
            s@ == old(s)@ + cs@.subrange(from as int, i as int),
        decreases to - i,
    {
        push_char(s, cs[i]);
        assert(cs@.subrange(from as int, i + 1) =~= cs@.subrange(from as int, i as int).push(cs@[i as int]));
        i = i + 1;
    }
}

/// Appends `t` to `s`.
pub fn push_str(s: &mut String, t: &str)
    ensures
        final(s)@ == old(s)@ + t@,
{
    let cs = chars_of(t);
    push_chars(s, &cs, 0, cs.len());
    assert(cs@.subrange(0, cs@.len() as int) =~= t@);
}

/// The length of `cs` once every trailing `c` is left out.
pub fn trimmed_end_len(cs: &Vec<char>, c: char) -> (k: usize)
    ensures
        k <= cs@.len(),
        cs@.take(k as int) == trim_end_char(cs@, c),
{
    let mut k = cs.len();
    while k > 0 && cs[k - 1] == c
        invariant
            k <= cs@.len(),
            forall|i: int| k <= i < cs@.len() ==> cs@[i] == c,
        decreases k,
    {
        k = k - 1;
    }
    proof {
        lemma_trim_end_suffix(cs@, c, k as int);
        let t = cs@.take(k as int);
        if t.len() > 0 {
            assert(t.last() == cs@[k - 1]);
        }
    }
    k
}

/// The number of leading `c` in `cs`.
pub fn trimmed_start_len(cs: &Vec<char>, c: char) -> (k: usize)
    ensures
        k <= cs@.len(),
        cs@.skip(k as int) == trim_start_char(cs@, c),
{
    let mut k: usize = 0;
    while k < cs.len() && cs[k] == c
        invariant
            k <= cs@.len(),
            forall|i: int| 0 <= i < k ==> cs@[i] == c,
        decreases cs@.len() - k,
    {
        k = k + 1;
    }
    proof {
        lemma_trim_start_prefix(cs@, c, k as int);
        let t = cs@.skip(k as int);
        if t.len() > 0 {
            assert(t[0] == cs@[k as int]);
        }
    }
    k
}

/// `s` with every trailing `c` removed.
pub fn trim_end_matches_char(s: &str, c: char) -> (r: String)
    ensures
        r@ == trim_end_char(s@, c),
{
    let cs = chars_of(s);
    let k = trimmed_end_len(&cs, c);
    let mut r = String::new();
    push_chars(&mut r, &cs, 0, k);
    assert(cs@.subrange(0, k as int) =~= cs@.take(k as int));
    r
}

/// `s` with every leading `c` removed.
pub fn trim_start_matches_char(s: &str, c: char) -> (r: String)
    ensures
        r@ == trim_start_char(s@, c),
{
    let cs = chars_of(s);
    let k = trimmed_start_len(&cs, c);
    let mut r = String::new();
    push_chars(&mut r, &cs, k, cs.len());
    assert(cs@.subrange(k as int, cs@.len() as int) =~= cs@.skip(k as int));
    r
}

/// `base` without its trailing slashes, a `/`, then `tail`.
pub fn join_path(base: &str, tail: &str) -> (r: String)
    ensures
        r@ == join_path_spec(base@, tail@),
{
    let mut r = trim_end_matches_char(base, '/');
    push_char(&mut r, '/');
    push_str(&mut r, tail);
    r
}


/// The decimal digit for `d` (`0 <= d < 10`).
pub open spec fn digit_char(d: int) -> char {
    ((48 + d) as u8) as char
}

/// The decimal representation of `n`, without leading zeros.
pub open spec fn decimal(n: nat) -> Seq<char>
    decreases n,
{
    if n < 10 {
        seq![digit_char(n as int)]
    } else {
        decimal(n / 10).push(digit_char((n % 10) as int))
    }
}

/// `s` padded on the left with `0` to at least two characters (`{:0>2}`).
pub open spec fn pad2(s: Seq<char>) -> Seq<char> {
    if s.len() == 0 {
        seq!['0', '0']
    } else if s.len() == 1 {
        seq!['0'] + s
    } else {
        s
    }
}

/// The lowercase hexadecimal digit for `d` (`0 <= d < 16`).
pub open spec fn hex_char(d: int) -> char {
    if d < 10 {
        digit_char(d)
    } else {
        ((87 + d) as u8) as char
    }
}

/// The last `width` lowercase hexadecimal digits of `n`, most significant
/// first; for `n < 16^width` this is `format!("{:0width$x}", n)`.
pub open spec fn hex_digits(n: nat, width: nat) -> Seq<char>
    decreases width,
{
    if width == 0 {
        Seq::empty()
    } else {
        hex_digits(n / 16, (width - 1) as nat).push(hex_char((n % 16) as int))
    }
}

/// Decimal representations have at least one character.
pub proof fn lemma_decimal_nonempty(n: nat)
    ensures
        decimal(n).len() >= 1,
    decreases n,
{
    if n >= 10 {
        lemma_decimal_nonempty(n / 10);
    }
}

/// The decimal digit for `d`.
pub fn digit(d: u8) -> (c: char)
    requires
        d < 10,
    ensures
        c == digit_char(d as int),
{
    ((48u8 + d) as char)
}

/// Appends the decimal representation of `n` to `s`.
pub fn push_decimal(s: &mut String, n: u128)
    ensures
        final(s)@ == old(s)@ + decimal(n as nat),
    decreases n,
{
    if n >= 10 {
        push_decimal(s, n / 10);
    }
    push_char(s, digit((n % 10) as u8));
}

/// Appends the decimal representation of `n` to `s`, padded with `0` to two
/// characters.
pub fn push_decimal_pad2(s: &mut String, n: u128)
    ensures
        final(s)@ == old(s)@ + pad2(decimal(n as nat)),
{
    proof {
        lemma_decimal_nonempty(n as nat);
    }
    if n < 10 {
        push_char(s, '0');
    }
    push_decimal(s, n);
    proof {
        if n < 10 {
            assert(decimal(n as nat).len() == 1);
        } else {
            lemma_decimal_nonempty(n as nat / 10);
        }
    }
}

/// Appends `width` lowercase hexadecimal digits of `n` to `s`.
pub fn push_hex(s: &mut String, n: u64, width: u8)
    ensures
        final(s)@ == old(s)@ + hex_digits(n as nat, width as nat),
    decreases width,
{
    if width > 0 {
        push_hex(s, n / 16, width - 1);
        let d = (n % 16) as u8;
        let c = if d < 10 {
            digit(d)
        } else {
            ((87u8 + d) as char)
        };
        push_char(s, c);
    }
}


/// The decimal representation of an integer, with a leading `-` when
/// negative.
pub open spec fn int_text(n: int) -> Seq<char> {
    if n < 0 {
        seq!['-'] + decimal((-n) as nat)
    } else {
        decimal(n as nat)
    }
}

/// Appends the decimal representation of `n` to `s`.
pub fn push_int(s: &mut String, n: i64)
    ensures
        final(s)@ == old(s)@ + int_text(n as int),
{
    if n < 0 {
        push_char(s, '-');
        let m: u128 = (0i128 - n as i128) as u128;
        push_decimal(s, m);
    } else {
        push_decimal(s, n as u128);
    }
}

/// What follows the last `c` in `s`; all of `s` when there is none
/// (`s.split(c).last()`).
pub open spec fn after_last(s: Seq<char>, c: char) -> Seq<char>
    decreases s.len(),
{
    if s.len() == 0 {
        s
    } else if s.last() == c {
        Seq::empty()
    } else {
        after_last(s.drop_last(), c).push(s.last())
    }
}

/// What precedes the first `c` in `s`; all of `s` when there is none
/// (`s.split(c).next()`).
pub open spec fn before_first(s: Seq<char>, c: char) -> Seq<char>
    decreases s.len(),
{
    if s.len() == 0 {
        s
    } else if s[0] == c {
        Seq::empty()
    } else {
        seq![s[0]] + before_first(s.drop_first(), c)
    }
}

/// `after_last` is the part after position `k` when `k` is the last `c`.
pub proof fn lemma_after_last(s: Seq<char>, c: char, k: int)
    requires
        0 <= k <= s.len(),
        forall|i: int| k <= i < s.len() ==> s[i] != c,
        k > 0 ==> s[k - 1] == c,
    ensures
        after_last(s, c) == s.skip(k),
    decreases s.len(),
{
    if s.len() == 0 {
    } else if k == s.len() {
        assert(s.skip(k) =~= Seq::<char>::empty());
    } else {
        lemma_after_last(s.drop_last(), c, k);
        assert(s.drop_last().skip(k).push(s.last()) =~= s.skip(k));
    }
}

/// `before_first` is the part before position `k` when `k` is the first `c`.
pub proof fn lemma_before_first(s: Seq<char>, c: char, k: int)
    requires
        0 <= k <= s.len(),
        forall|i: int| 0 <= i < k ==> s[i] != c,
        k < s.len() ==> s[k] == c,
    ensures
        before_first(s, c) == s.take(k),
    decreases s.len(),
{
    if s.len() == 0 {
        assert(s.take(k) =~= s);
    } else if k == 0 {
        assert(s.take(k) =~= Seq::<char>::empty());
    } else {
        assert forall|i: int| 0 <= i < k - 1 implies s.drop_first()[i] != c by {
            assert(s.drop_first()[i] == s[i + 1]);
        }
        lemma_before_first(s.drop_first(), c, k - 1);
        assert(seq![s[0]] + s.drop_first().take(k - 1) =~= s.take(k));
    }
}

/// The characters of `s` after its last `c`.
pub fn after_last_char(s: &str, c: char) -> (r: String)
    ensures
        r@ == after_last(s@, c),
{
    let cs = chars_of(s);
    let mut k = cs.len();
    while k > 0 && cs[k - 1] != c
        invariant
            k <= cs@.len(),
            forall|i: int| k <= i < cs@.len() ==> cs@[i] != c,
        decreases k,
    {
        k = k - 1;
    }
    proof {
        lemma_after_last(cs@, c, k as int);
    }
    let mut r = String::new();
    push_chars(&mut r, &cs, k, cs.len());
    assert(cs@.subrange(k as int, cs@.len() as int) =~= cs@.skip(k as int));
    r
}

/// The characters of `s` before its first `c`.
pub fn before_first_char(s: &str, c: char) -> (r: String)
    ensures
        r@ == before_first(s@, c),
{
    let cs = chars_of(s);
    let mut k: usize = 0;
    while k < cs.len() && cs[k] != c
        invariant
            k <= cs@.len(),
            forall|i: int| 0 <= i < k ==> cs@[i] != c,
        decreases cs@.len() - k,
    {
        k = k + 1;
    }
    proof {
        lemma_before_first(cs@, c, k as int);
    }
    let mut r = String::new();
    push_chars(&mut r, &cs, 0, k);
    assert(cs@.subrange(0, k as int) =~= cs@.take(k as int));
    r
}

/// Whether the characters of `s` are `t`.
pub fn str_equals(s: &str, t: &str) -> (r: bool)
    ensures
        r == (s@ == t@),
{
    let a = chars_of(s);
    let b = chars_of(t);
    if a.len() != b.len() {
        return false;
    }
    let mut i: usize = 0;
    while i < a.len()
        invariant
            a@ == s@,
            b@ == t@,
            a@.len() == b@.len(),
            i <= a@.len(),
            forall|j: int| 0 <= j < i ==> a@[j] == b@[j],
        decreases a@.len() - i,
    {
        if a[i] != b[i] {
            return false;
        }
        i = i + 1;
    }
    assert(a@ =~= b@);
    true
}


/// Whether `s` begins with `prefix`.
pub open spec fn starts_with(s: Seq<char>, prefix: Seq<char>) -> bool {
    prefix.len() <= s.len() && s.take(prefix.len() as int) == prefix
}

/// Whether `s` begins with `prefix`.
pub fn starts_with_str(s: &str, prefix: &str) -> (r: bool)
    ensures
        r == starts_with(s@, prefix@),
{
    let a = chars_of(s);
    let b = chars_of(prefix);
    if b.len() > a.len() {
        return false;
    }
    let mut i: usize = 0;
    while i < b.len()
        invariant
            a@ == s@,
            b@ == prefix@,
            b@.len() <= a@.len(),
            i <= b@.len(),
            forall|j: int| 0 <= j < i ==> a@[j] == b@[j],
        decreases b@.len() - i,
    {
        if a[i] != b[i] {
            assert(s@.take(prefix@.len() as int)[i as int] != prefix@[i as int]);
            return false;
        }
        i = i + 1;
    }
    assert(s@.take(prefix@.len() as int) =~= prefix@);
    true
}


/// Whether `c` is white space in Unicode (the `White_Space` property, as
/// `char::is_whitespace` tests it).
pub open spec fn is_white_space(c: char) -> bool {
    let u = c as u32;
    (0x9 <= u <= 0xD) || u == 0x20 || u == 0x85 || u == 0xA0 || u == 0x1680
        || (0x2000 <= u <= 0x200A) || u == 0x2028 || u == 0x2029 || u == 0x202F
        || u == 0x205F || u == 0x3000
}

/// Whether `c` is white space in Unicode.
pub fn white_space(c: char) -> (r: bool)
    ensures
        r == is_white_space(c),
{
    let u = c as u32;
    (0x9 <= u && u <= 0xD) || u == 0x20 || u == 0x85 || u == 0xA0 || u == 0x1680
        || (0x2000 <= u && u <= 0x200A) || u == 0x2028 || u == 0x2029 || u == 0x202F
        || u == 0x205F || u == 0x3000
}

/// `s` without leading white space.
pub open spec fn trim_ws_start(s: Seq<char>) -> Seq<char>
    decreases s.len(),
{
    if s.len() > 0 && is_white_space(s[0]) {
        trim_ws_start(s.drop_first())
    } else {
        s
    }
}

/// `s` without trailing white space.
pub open spec fn trim_ws_end(s: Seq<char>) -> Seq<char>
    decreases s.len(),
{
    if s.len() > 0 && is_white_space(s.last()) {
        trim_ws_end(s.drop_last())
    } else {
        s
    }
}

/// `s` without leading and trailing white space (`str::trim`).
pub open spec fn trim_ws(s: Seq<char>) -> Seq<char> {
    trim_ws_end(trim_ws_start(s))
}

/// Skipping leading white space.
pub proof fn lemma_trim_ws_start(s: Seq<char>, k: int)
    requires
        0 <= k <= s.len(),
        forall|i: int| 0 <= i < k ==> is_white_space(#[trigger] s[i]),
        k < s.len() ==> !is_white_space(s[k]),
    ensures
        trim_ws_start(s) == s.skip(k),
    decreases k,
{
    if k > 0 {
        assert forall|i: int| 0 <= i < k - 1 implies is_white_space(#[trigger] s.drop_first()[i]) by {
            assert(s.drop_first()[i] == s[i + 1]);
        }
        assert(s.drop_first().skip(k - 1) =~= s.skip(k));
        lemma_trim_ws_start(s.drop_first(), k - 1);
    } else {
        assert(s.skip(0) =~= s);
    }
}

/// Dropping trailing white space.
pub proof fn lemma_trim_ws_end(s: Seq<char>, k: int)
    requires
        0 <= k <= s.len(),
        forall|i: int| k <= i < s.len() ==> is_white_space(#[trigger] s[i]),
        k > 0 ==> !is_white_space(s[k - 1]),
    ensures
        trim_ws_end(s) == s.take(k),
    decreases s.len(),
{
    if k < s.len() {
        assert(s.drop_last().take(k) =~= s.take(k));
        lemma_trim_ws_end(s.drop_last(), k);
    } else {
        assert(s.take(k) =~= s);
    }
}

/// `s` without leading and trailing white space.
pub fn trim(s: &str) -> (r: String)
    ensures
        r@ == trim_ws(s@),
{
    let cs = chars_of(s);
    let mut start: usize = 0;
    while start < cs.len() && white_space(cs[start])
        invariant
            start <= cs@.len(),
            forall|i: int| 0 <= i < start ==> is_white_space(#[trigger] cs@[i]),
        decreases cs@.len() - start,
    {
        start = start + 1;
    }
    let mut end: usize = cs.len();
    while end > start && white_space(cs[end - 1])
        invariant
            start <= end <= cs@.len(),
            forall|i: int| end <= i < cs@.len() ==> is_white_space(#[trigger] cs@[i]),
        decreases end,
    {
        end = end - 1;
    }
    proof {
        lemma_trim_ws_start(cs@, start as int);
        let t = cs@.skip(start as int);
        assert forall|i: int| end - start <= i < t.len() implies is_white_space(#[trigger] t[i]) by {
            assert(t[i] == cs@[i + start]);
        }
        if end > start {
            assert(t[end - start - 1] == cs@[end - 1]);
        }
        lemma_trim_ws_end(t, end - start);
        assert(t.take(end - start) =~= cs@.subrange(start as int, end as int));
    }
    let mut r = String::new();
    push_chars(&mut r, &cs, start, end);
    r
}


/// `c` with ASCII capitals made small (`char::to_ascii_lowercase`).
pub open spec fn ascii_lower_char(c: char) -> char {
    if 'A' <= c && c <= 'Z' {
        ((c as u32) + 32) as char
    } else {
        c
    }
}

/// `s` with ASCII capitals made small (`str::to_ascii_lowercase`).
pub open spec fn ascii_lower(s: Seq<char>) -> Seq<char> {
    s.map_values(|c: char| ascii_lower_char(c))
}

/// `s` with ASCII capitals made small.
pub fn to_ascii_lowercase(s: &str) -> (r: String)
    ensures
        r@ == ascii_lower(s@),
{
    let cs = chars_of(s);
    let mut r = String::new();
    let mut i: usize = 0;
    while i < cs.len()
        invariant
            i <= cs@.len(),
            cs@ == s@,
            r@ == ascii_lower(cs@.take(i as int)),
        decreases cs@.len() - i,
    {
        let c = cs[i];
        let l = if 'A' <= c && c <= 'Z' {
            ((c as u8) + 32) as char
        } else {
            c
        };
        push_char(&mut r, l);
        assert(ascii_lower(cs@.take(i + 1)) =~= ascii_lower(cs@.take(i as int)).push(ascii_lower_char(c)));
        i = i + 1;
    }
    assert(cs@.take(cs@.len() as int) =~= cs@);
    r
}

} // verus!
