//! Character and string helpers shared by the name normalisations and the
//! message builders: Unicode whitespace, trimming, ASCII case, prefix/suffix
//! tests, decimal formatting and joining.
use vstd::prelude::*;
use vstd::string::*;

verus! {

/// The code points that carry the Unicode `White_Space` property, which is what
/// `char::is_whitespace` and `str::trim` go by.
pub open spec fn is_white_space(c: char) -> bool {
    let v = c as u32;
    ||| 0x09 <= v <= 0x0d
    ||| v == 0x20
    ||| v == 0x85
    ||| v == 0xa0
    ||| v == 0x1680
    ||| 0x2000 <= v <= 0x200a
    ||| v == 0x2028
    ||| v == 0x2029
    ||| v == 0x202f
    ||| v == 0x205f
    ||| v == 0x3000
}

/// Whether `c` is Unicode whitespace.
pub fn is_whitespace(c: char) -> (r: bool)
    ensures
        r == is_white_space(c),
{
    let v: u32 = c as u32;
    (0x09 <= v && v <= 0x0d) || v == 0x20 || v == 0x85 || v == 0xa0 || v == 0x1680 || (0x2000
        <= v && v <= 0x200a) || v == 0x2028 || v == 0x2029 || v == 0x202f || v == 0x205f || v
        == 0x3000
}

/// The ASCII lower-case form of a character: `A`..`Z` become `a`..`z`, every
/// other character stays as it is (this is `char::to_ascii_lowercase`).
pub open spec fn ascii_lower(c: char) -> char {
    if 'A' <= c && c <= 'Z' {
        ((c as u32) + 32) as char
    } else {
        c
    }
}

/// Whether `c` is an ASCII capital letter.
pub open spec fn is_ascii_upper(c: char) -> bool {
    'A' <= c && c <= 'Z'
}

/// The ASCII lower-case form of a character.
pub fn to_ascii_lower(c: char) -> (r: char)
    ensures
        r == ascii_lower(c),
{
    if 'A' <= c && c <= 'Z' {
        let v: u32 = c as u32 + 32;
        proof {
            assert(0x61 <= v <= 0x7a);
        }
        char_from_ascii(v)
    } else {
        c
    }
}

/// The character of an ASCII code.
fn char_from_ascii(v: u32) -> (r: char)
    requires
        v < 128,
    ensures
        r == v as char,
        r as u32 == v,
{
    let b: u8 = v as u8;
    b as char
}

/// `s` with leading whitespace removed.
pub open spec fn trim_start_spec(s: Seq<char>) -> Seq<char>
    decreases s.len(),
{
    if s.len() > 0 && is_white_space(s[0]) {
        trim_start_spec(s.drop_first())
    } else {
        s
    }
}

/// `s` with trailing whitespace removed.
pub open spec fn trim_end_spec(s: Seq<char>) -> Seq<char>
    decreases s.len(),
{
    if s.len() > 0 && is_white_space(s.last()) {
        trim_end_spec(s.drop_last())
    } else {
        s
    }
}

/// `s` without leading and trailing whitespace, as `str::trim` gives it.
pub open spec fn trim_spec(s: Seq<char>) -> Seq<char> {
    trim_end_spec(trim_start_spec(s))
}

proof fn lemma_trim_start_skip(s: Seq<char>, i: int)
    requires
        0 <= i <= s.len(),
        forall|j: int| 0 <= j < i ==> is_white_space(#[trigger] s[j]),
    ensures
        trim_start_spec(s) == trim_start_spec(s.skip(i)),
    decreases i,
{
    if i > 0 {
        assert(s.skip(1) == s.drop_first());
        lemma_trim_start_skip(s.drop_first(), i - 1);
        assert(s.drop_first().skip(i - 1) == s.skip(i));
    } else {
        assert(s.skip(0) == s);
    }
}

proof fn lemma_trim_end_take(s: Seq<char>, k: int)
    requires
        0 <= k <= s.len(),
        forall|j: int| k <= j < s.len() ==> is_white_space(#[trigger] s[j]),
    ensures
        trim_end_spec(s) == trim_end_spec(s.take(k)),
    decreases s.len() - k,
{
    if k < s.len() {
        assert(s.take(s.len() - 1) == s.drop_last());
        lemma_trim_end_take(s.drop_last(), k);
        assert(s.drop_last().take(k) == s.take(k));
    } else {
        assert(s.take(k) == s);
    }
}

/// Appends one character to a string (`String::push`).
#[verifier::external_body]
pub(crate) fn push_char(s: &mut String, c: char)
    ensures
        final(s)@ == old(s)@.push(c),
{
    s.push(c);
}

/// Appends the characters `s[from..to]` to `out`.
pub fn push_range(out: &mut String, s: &str, from: usize, to: usize)
    requires
        from <= to <= s@.len(),
    ensures
        final(out)@ == old(out)@ + s@.subrange(from as int, to as int),
{
    let mut i = from;
    while i < to
        invariant
            from <= i <= to <= s@.len(),
            out@ == old(out)@ + s@.subrange(from as int, i as int),
        decreases to - i,
    {
        let c = s.get_char(i);
        push_char(out, c);
        assert(s@.subrange(from as int, i + 1) == s@.subrange(from as int, i as int).push(c));
        i += 1;
    }
}

/// A copy of `s` as an owned string.
pub fn owned(s: &str) -> (r: String)
    ensures
        r@ == s@,
{
    let mut r = String::new();
    r.append(s);
    r
}

/// `s` without leading and trailing whitespace.
pub fn trim(s: &str) -> (r: String)
    ensures
        r@ == trim_spec(s@),
        all_ascii(s@) ==> all_ascii(r@),
{
    let n = s.unicode_len();
    let mut start: usize = 0;
    while start < n && is_whitespace(s.get_char(start))
        invariant
            n == s@.len(),
            start <= n,
            forall|j: int| 0 <= j < start ==> is_white_space(#[trigger] s@[j]),
        decreases n - start,
    {
        start += 1;
    }
    let mut end: usize = n;
    while end > start && is_whitespace(s.get_char(end - 1))
        invariant
            n == s@.len(),
            start <= end <= n,
            forall|j: int| end <= j < n ==> is_white_space(#[trigger] s@[j]),
        decreases end,
    {
        end -= 1;
    }
    proof {
        lemma_trim_start_skip(s@, start as int);
        let rest = s@.skip(start as int);
        if start < n {
            assert(rest[0] == s@[start as int]);
            assert(!is_white_space(rest[0]));
            assert(trim_start_spec(rest) == rest);
        } else {
            assert(rest.len() == 0);
        }
        assert forall|j: int| end - start <= j < rest.len() implies is_white_space(#[trigger] rest[j]) by {
            assert(rest[j] == s@[start + j]);
        }
        lemma_trim_end_take(rest, end - start);
        let kept = rest.take(end - start);
        if end > start {
            assert(kept.last() == s@[end - 1]);
        }
        assert(trim_end_spec(kept) == kept);
        assert(kept == s@.subrange(start as int, end as int));
        assert(all_ascii(s@) ==> all_ascii(kept)) by {
            if all_ascii(s@) {
                assert forall|i: int| 0 <= i < kept.len() implies (#[trigger] kept[i] as u32) < 128 by {
                    assert(kept[i] == s@[start + i]);
                }
            }
        }
    }
    let mut r = String::new();
    push_range(&mut r, s, start, end);
    r
}

/// Whether two strings hold the same characters.
pub fn same_text(a: &str, b: &str) -> (r: bool)
    ensures
        r == (a@ == b@),
{
    let n = a.unicode_len();
    if n != b.unicode_len() {
        return false;
    }
    let mut i: usize = 0;
    while i < n
        invariant
            n == a@.len(),
            n == b@.len(),
            i <= n,
            forall|j: int| 0 <= j < i ==> a@[j] == b@[j],
        decreases n - i,
    {
        if a.get_char(i) != b.get_char(i) {
            return false;
        }
        i += 1;
    }
    assert(a@ == b@);
    true
}

/// Whether `s` begins with `p`.
pub open spec fn has_prefix(s: Seq<char>, p: Seq<char>) -> bool {
    p.len() <= s.len() && s.take(p.len() as int) == p
}

/// Whether `s` ends with `p`.
pub open spec fn has_suffix(s: Seq<char>, p: Seq<char>) -> bool {
    p.len() <= s.len() && s.skip(s.len() - p.len()) == p
}

/// Whether `p` occurs in `s` at position `i`.
pub open spec fn occurs_at(s: Seq<char>, p: Seq<char>, i: int) -> bool {
    0 <= i && i + p.len() <= s.len() && s.subrange(i, i + p.len()) == p
}

/// Whether `p` occurs somewhere in `s`.
pub open spec fn has_infix(s: Seq<char>, p: Seq<char>) -> bool {
    exists|i: int| occurs_at(s, p, i)
}

/// Whether the characters of `p` stand in `s` from position `at` on.
fn matches_at(s: &str, p: &str, at: usize) -> (r: bool)
    requires
        at + p@.len() <= s@.len(),
    ensures
        r == (s@.subrange(at as int, at + p@.len()) == p@),
{
    let m = p.unicode_len();
    let _n = s.unicode_len();
    let mut j: usize = 0;
    while j < m
        invariant
            m == p@.len(),
            _n == s@.len(),
            at + m <= s@.len(),
            j <= m,
            forall|k: int| 0 <= k < j ==> s@[at + k] == p@[k],
        decreases m - j,
    {
        if s.get_char(at + j) != p.get_char(j) {
            assert(s@.subrange(at as int, at + m)[j as int] != p@[j as int]);
            return false;
        }
        j += 1;
    }
    assert(s@.subrange(at as int, at + m) == p@);
    true
}

/// Whether `s` begins with `p` (`str::starts_with`).
pub fn starts_with(s: &str, p: &str) -> (r: bool)
    ensures
        r == has_prefix(s@, p@),
{
    let n = s.unicode_len();
    let m = p.unicode_len();
    if m > n {
        return false;
    }
    let r = matches_at(s, p, 0);
    assert(s@.subrange(0, m as int) == s@.take(m as int));
    r
}

/// Whether `s` ends with `p` (`str::ends_with`).
pub fn ends_with(s: &str, p: &str) -> (r: bool)
    ensures
        r == has_suffix(s@, p@),
{
    let n = s.unicode_len();
    let m = p.unicode_len();
    if m > n {
        return false;
    }
    let r = matches_at(s, p, n - m);
    assert(s@.subrange(n - m, n as int) == s@.skip(n - m));
    r
}

/// Whether `p` occurs in `s` (`str::contains` with a string pattern).
pub fn contains(s: &str, p: &str) -> (r: bool)
    ensures
        r == has_infix(s@, p@),
{
    let n = s.unicode_len();
    let m = p.unicode_len();
    if m > n {
        return false;
    }
    if m == 0 {
        assert(s@.subrange(0, 0) =~= p@);
        assert(occurs_at(s@, p@, 0));
        return true;
    }
    let mut i: usize = 0;
    while i <= n - m
        invariant
            n == s@.len(),
            m == p@.len(),
            0 < m <= n,
            i <= n - m + 1,
            forall|k: int| 0 <= k < i ==> !occurs_at(s@, p@, k),
        decreases n - m + 1 - i,
    {
        if matches_at(s, p, i) {
            assert(occurs_at(s@, p@, i as int));
            return true;
        }
        i += 1;
    }
    assert forall|k: int| !occurs_at(s@, p@, k) by {
        if 0 <= k && k + m <= n {
            assert(k < i);
        }
    }
    false
}

/// `s` with every occurrence of `c` removed (`str::replace(c, "")`).
pub open spec fn without_char(s: Seq<char>, c: char) -> Seq<char>
    decreases s.len(),
{
    if s.len() == 0 {
        s
    } else if s.last() == c {
        without_char(s.drop_last(), c)
    } else {
        without_char(s.drop_last(), c).push(s.last())
    }
}

/// Removes every occurrence of `c` from `s`.
pub fn remove_char(s: &str, c: char) -> (r: String)
    ensures
        r@ == without_char(s@, c),
{
    let n = s.unicode_len();
    let mut r = String::new();
    let mut i: usize = 0;
    while i < n
        invariant
            n == s@.len(),
            i <= n,
            r@ == without_char(s@.take(i as int), c),
        decreases n - i,
    {
        let d = s.get_char(i);
        assert(s@.take(i + 1).drop_last() == s@.take(i as int));
        if d != c {
            push_char(&mut r, d);
        }
        i += 1;
    }
    assert(s@.take(n as int) == s@);
    r
}

/// The decimal digits of a natural number, without leading zeros (`0` is "0").
pub open spec fn digits(n: nat) -> Seq<char>
    decreases n,
{
    if n < 10 {
        seq![digit_char(n)]
    } else {
        digits(n / 10).push(digit_char(n % 10))
    }
}

/// The character of a decimal digit.
pub open spec fn digit_char(d: nat) -> char {
    (48 + d) as char
}

/// The decimal text of an integer, with a leading `-` when it is negative, as
/// `{}` formats it.
pub open spec fn decimal(n: int) -> Seq<char> {
    if n < 0 {
        seq!['-'] + digits((-n) as nat)
    } else {
        digits(n as nat)
    }
}

/// `seq` of `w - t.len()` zeros followed by `t`, or `t` when it is long enough:
/// the `{:0w}` padding of a non-negative number.
pub open spec fn zero_padded(t: Seq<char>, w: nat) -> Seq<char> {
    if t.len() >= w {
        t
    } else {
        Seq::new((w - t.len()) as nat, |i: int| '0') + t
    }
}

proof fn lemma_digits_nonempty(n: nat)
    ensures
        digits(n).len() >= 1,
    decreases n,
{
    if n >= 10 {
        lemma_digits_nonempty(n / 10);
    }
}

/// Appends the decimal digits of `n` to `out`.
pub fn push_digits(out: &mut String, n: u64)
    ensures
        final(out)@ == old(out)@ + digits(n as nat),
    decreases n,
{
    if n >= 10 {
        push_digits(out, n / 10);
        let d: u32 = (n % 10) as u32;
        push_char(out, char_from_ascii(48 + d));
        assert(old(out)@ + digits(n as nat) == (old(out)@ + digits((n / 10) as nat)).push(
            digit_char((n % 10) as nat),
        ));
    } else {
        let d: u32 = n as u32;
        push_char(out, char_from_ascii(48 + d));
        assert(digits(n as nat) == seq![digit_char(n as nat)]);
    }
}

/// The decimal text of an unsigned number.
pub fn u64_text(n: u64) -> (r: String)
    ensures
        r@ == decimal(n as int),
{
    let mut r = String::new();
    push_digits(&mut r, n);
    r
}

/// The decimal text of a signed number.
pub fn i64_text(n: i64) -> (r: String)
    ensures
        r@ == decimal(n as int),
{
    let mut r = String::new();
    if n < 0 {
        push_char(&mut r, '-');
        let m: u64 = if n == i64::MIN {
            9223372036854775808u64
        } else {
            (-n) as u64
        };
        push_digits(&mut r, m);
        assert(r@ == seq!['-'] + digits((-n) as nat));
    } else {
        push_digits(&mut r, n as u64);
        assert(r@ == Seq::<char>::empty() + digits(n as nat));
    }
    r
}

/// The decimal text of `n` padded with zeros to at least `w` characters.
pub fn padded_text(n: u64, w: usize) -> (r: String)
    ensures
        r@ == zero_padded(decimal(n as int), w as nat),
{
    let mut digits_text = String::new();
    push_digits(&mut digits_text, n);
    assert(digits_text@ == digits(n as nat));
    let len = digits_text.as_str().unicode_len();
    let mut r = String::new();
    if len < w {
        let mut i: usize = 0;
        while i < w - len
            invariant
                len < w,
                i <= w - len,
                r@ == Seq::new(i as nat, |k: int| '0'),
            decreases w - len - i,
        {
            push_char(&mut r, '0');
            assert(r@ == Seq::new((i + 1) as nat, |k: int| '0'));
            i += 1;
        }
    }
    r.append(digits_text.as_str());
    r
}

/// `parts` joined with `sep` between neighbours, as `[T]::join` gives it.
pub open spec fn joined(parts: Seq<Seq<char>>, sep: Seq<char>) -> Seq<char>
    decreases parts.len(),
{
    if parts.len() == 0 {
        Seq::empty()
    } else if parts.len() == 1 {
        parts[0]
    } else {
        joined(parts.drop_last(), sep) + sep + parts.last()
    }
}

/// The views of a list of strings.
pub open spec fn texts(v: Seq<String>) -> Seq<Seq<char>> {
    v.map_values(|s: String| s@)
}

/// Joins `parts` with `sep` between neighbours.
pub fn join(parts: &Vec<String>, sep: &str) -> (r: String)
    ensures
        r@ == joined(texts(parts@), sep@),
{
    let mut r = String::new();
    let n = parts.len();
    let mut i: usize = 0;
    while i < n
        invariant
            n == parts@.len(),
            i <= n,
            r@ == joined(texts(parts@.take(i as int)), sep@),
        decreases n - i,
    {
        let ghost before = texts(parts@.take(i as int));
        let ghost after = texts(parts@.take(i + 1));
        assert(after.drop_last() == before);
        assert(after.last() == parts@[i as int]@);
        if i != 0 {
            r.append(sep);
        } else {
            assert(after.len() == 1);
        }
        r.append(parts[i].as_str());
        i += 1;
    }
    assert(parts@.take(n as int) == parts@);
    r
}

/// A lower-case hexadecimal digit of a value below 16.
pub open spec fn hex_digit(d: nat) -> char {
    if d < 10 {
        (48 + d) as char
    } else {
        (87 + d) as char
    }
}

/// The `n` lowest hexadecimal digits of `v`, most significant first.
pub open spec fn hex_digits(v: nat, n: nat) -> Seq<char>
    decreases n,
{
    if n == 0 {
        Seq::empty()
    } else {
        hex_digits(v / 16, (n - 1) as nat).push(hex_digit(v % 16))
    }
}

/// Appends the `n` lowest hexadecimal digits of `v` to `out`.
fn push_hex(out: &mut String, v: u128, n: u32)
    ensures
        final(out)@ == old(out)@ + hex_digits(v as nat, n as nat),
    decreases n,
{
    if n > 0 {
        push_hex(out, v / 16, n - 1);
        let d: u32 = (v % 16) as u32;
        let c = if d < 10 {
            char_from_ascii(48 + d)
        } else {
            char_from_ascii(87 + d)
        };
        push_char(out, c);
        assert(old(out)@ + hex_digits(v as nat, n as nat) == (old(out)@ + hex_digits(
            (v / 16) as nat,
            (n - 1) as nat,
        )).push(hex_digit((v % 16) as nat)));
    } else {
        assert(old(out)@ + hex_digits(v as nat, 0) == old(out)@);
    }
}

/// The hyphenated text of a UUID with the value `v`: 32 lower-case
/// hexadecimal digits, most significant first, in groups of 8, 4, 4, 4 and 12
/// separated by `-`.
pub open spec fn uuid_hyphenated(v: u128) -> Seq<char> {
    hex_digits((v as nat) / 0x1_0000_0000_0000_0000_0000_0000, 8) + "-"@ + hex_digits(
        ((v as nat) / 0x1_0000_0000_0000_0000_0000) % 0x1_0000,
        4,
    ) + "-"@ + hex_digits(((v as nat) / 0x1_0000_0000_0000_0000) % 0x1_0000, 4) + "-"@
        + hex_digits(((v as nat) / 0x1_0000_0000_0000) % 0x1_0000, 4) + "-"@ + hex_digits(
        (v as nat) % 0x1_0000_0000_0000,
        12,
    )
}

/// The hyphenated text of the UUID with the value `v`, as UUIDs are shown.
pub fn uuid_text(v: u128) -> (r: String)
    ensures
        r@ == uuid_hyphenated(v),
{
    let mut r = String::new();
    push_hex(&mut r, v / 0x1_0000_0000_0000_0000_0000_0000, 8);
    r.append("-");
    push_hex(&mut r, (v / 0x1_0000_0000_0000_0000_0000) % 0x1_0000, 4);
    r.append("-");
    push_hex(&mut r, (v / 0x1_0000_0000_0000_0000) % 0x1_0000, 4);
    r.append("-");
    push_hex(&mut r, (v / 0x1_0000_0000_0000) % 0x1_0000, 4);
    r.append("-");
    push_hex(&mut r, v % 0x1_0000_0000_0000, 12);
    r
}

/// What `str::to_lowercase` gives for a text: its characters mapped by the
/// Unicode `Lowercase` mapping, with the final-sigma rule.
pub uninterp spec fn lowercased(s: Seq<char>) -> Seq<char>;

/// Whether every character of `s` is ASCII.
pub open spec fn all_ascii(s: Seq<char>) -> bool {
    forall|i: int| 0 <= i < s.len() ==> (#[trigger] s[i] as u32) < 128
}

/// The lower-case form of `s` (`str::to_lowercase`). Its result is named, not
/// written out: the mapping is Unicode's case table. The contract also states
/// what the table gives for ASCII text: each character in its ASCII
/// lower-case form.
#[verifier::external_body]
pub(crate) fn to_lowercase(s: &str) -> (r: String)
    ensures
        r@ == lowercased(s@),
        all_ascii(s@) ==> r@ == s@.map_values(|c: char| ascii_lower(c)),
{
    s.to_lowercase()
}

/// What `char::is_alphanumeric` says of a character: whether it has the
/// Unicode `Alphabetic` property or a numeric general category.
pub uninterp spec fn alphanumeric(c: char) -> bool;

/// Whether an ASCII character is a letter or a digit.
pub open spec fn ascii_alphanumeric(c: char) -> bool {
    ('a' <= c && c <= 'z') || ('A' <= c && c <= 'Z') || ('0' <= c && c <= '9')
}

/// Whether `c` is alphabetic or numeric (`char::is_alphanumeric`). Its result
/// is named, not written out: it rests on Unicode's property tables. The
/// contract also states what the tables give for ASCII: letters and digits
/// are alphanumeric, every other ASCII character is not.
#[verifier::external_body]
pub(crate) fn is_alphanumeric(c: char) -> (r: bool)
    ensures
        r == alphanumeric(c),
        (c as u32) < 128 ==> r == ascii_alphanumeric(c),
{
    c.is_alphanumeric()
}

} // verus!
