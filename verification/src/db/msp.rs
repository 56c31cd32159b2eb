//! Mobility service providers: the normalised names under which they are
//! kept, and which of their tariffs the filters let through.
use vstd::prelude::*;

use crate::pattern::{any_pattern_finds, regex_finds, regex_is_match};
use crate::text::{
    all_ascii, alphanumeric, ascii_alphanumeric, ascii_lower, is_alphanumeric, is_ascii_upper,
    is_white_space, is_whitespace, push_char, to_ascii_lower, trim, trim_end_spec, trim_spec,
    trim_start_spec,
};

verus! {

/// A mobility service provider.
#[derive(Debug)]
pub struct Msp {
    pub id: uuid::Uuid,
    pub name: String,
    pub operator_id: uuid::Uuid,
}

/// German letters that names spell without their marks.
pub open spec fn folded(c: char) -> char {
    if c == 'ä' {
        'a'
    } else if c == 'ü' {
        'u'
    } else if c == 'ö' {
        'o'
    } else if c == 'ß' {
        's'
    } else {
        c
    }
}

/// The normalised characters of `s`, read from the left; `in_space` says
/// whether the last kept character was whitespace. Characters that are
/// neither alphanumeric nor whitespace are dropped, letters are lower-cased
/// in ASCII, umlauts and `ß` are folded, and each run of whitespace becomes a
/// single `_`.
pub open spec fn name_chars(s: Seq<char>, in_space: bool) -> Seq<char>
    decreases s.len(),
{
    if s.len() == 0 {
        Seq::empty()
    } else {
        let c = s[0];
        let rest = s.drop_first();
        if !(alphanumeric(c) || is_white_space(c)) {
            name_chars(rest, in_space)
        } else {
            let l = ascii_lower(c);
            if is_white_space(l) {
                if in_space {
                    name_chars(rest, true)
                } else {
                    seq!['_'] + name_chars(rest, true)
                }
            } else {
                seq![folded(l)] + name_chars(rest, false)
            }
        }
    }
}

/// `name_chars` for text whose letters and digits are the ASCII ones.
pub open spec fn ascii_name_chars(s: Seq<char>, in_space: bool) -> Seq<char>
    decreases s.len(),
{
    if s.len() == 0 {
        Seq::empty()
    } else {
        let c = s[0];
        let rest = s.drop_first();
        if !(ascii_alphanumeric(c) || is_white_space(c)) {
            ascii_name_chars(rest, in_space)
        } else {
            let l = ascii_lower(c);
            if is_white_space(l) {
                if in_space {
                    ascii_name_chars(rest, true)
                } else {
                    seq!['_'] + ascii_name_chars(rest, true)
                }
            } else {
                seq![folded(l)] + ascii_name_chars(rest, false)
            }
        }
    }
}

/// Where `alphanumeric` agrees with the ASCII letters and digits on every
/// character, `name_chars` is `ascii_name_chars`.
proof fn lemma_ascii_name_chars(s: Seq<char>, in_space: bool)
    requires
        forall|i: int| 0 <= i < s.len() ==> alphanumeric(#[trigger] s[i]) == ascii_alphanumeric(s[i]),
    ensures
        name_chars(s, in_space) == ascii_name_chars(s, in_space),
    decreases s.len(),
{
    if s.len() > 0 {
        let rest = s.drop_first();
        assert forall|i: int| 0 <= i < rest.len() implies alphanumeric(#[trigger] rest[i])
            == ascii_alphanumeric(rest[i]) by {
            assert(rest[i] == s[i + 1]);
        }
        assert(alphanumeric(s[0]) == ascii_alphanumeric(s[0]));
        lemma_ascii_name_chars(rest, true);
        lemma_ascii_name_chars(rest, false);
    }
}

/// The normalised form of a provider name: trimmed, then normalised character
/// by character.
pub open spec fn normalized_name(s: Seq<char>) -> Seq<char> {
    name_chars(trim_spec(s), false)
}

/// Whether a character may stand in a normalised name: it is no whitespace,
/// no ASCII capital, and none of `ä`, `ö`, `ü`, `ß`.
pub open spec fn clean_name_char(c: char) -> bool {
    &&& !is_white_space(c)
    &&& !is_ascii_upper(c)
    &&& c != 'ä' && c != 'ö' && c != 'ü' && c != 'ß'
}

proof fn lemma_name_chars_clean(s: Seq<char>, in_space: bool)
    ensures
        name_chars(s, in_space).len() <= s.len(),
        forall|k: int|
            0 <= k < name_chars(s, in_space).len() ==> clean_name_char(
                #[trigger] name_chars(s, in_space)[k],
            ),
    decreases s.len(),
{
    if s.len() > 0 {
        let rest = s.drop_first();
        lemma_name_chars_clean(rest, true);
        lemma_name_chars_clean(rest, false);
        lemma_name_chars_clean(rest, in_space);
        let c = s[0];
        let l = ascii_lower(c);
        if alphanumeric(c) || is_white_space(c) {
            if !is_white_space(l) {
                let f = folded(l);
                assert(clean_name_char(f)) by {
                    if 'A' <= c && c <= 'Z' {
                        assert('a' <= l && l <= 'z');
                    }
                }
                let out = name_chars(s, in_space);
                assert(out == seq![f] + name_chars(rest, false));
                assert forall|k: int| 0 <= k < out.len() implies clean_name_char(#[trigger] out[k]) by {
                    if k > 0 {
                        assert(out[k] == name_chars(rest, false)[k - 1]);
                    }
                }
            } else if !in_space {
                let out = name_chars(s, in_space);
                assert forall|k: int| 0 <= k < out.len() implies clean_name_char(#[trigger] out[k]) by {
                    if k > 0 {
                        assert(out[k] == name_chars(rest, true)[k - 1]);
                    }
                }
            }
        }
    }
}

proof fn lemma_trim_shorter(s: Seq<char>)
    ensures
        trim_spec(s).len() <= s.len(),
{
    lemma_trim_start_shorter(s);
    lemma_trim_end_shorter(trim_start_spec(s));
}

proof fn lemma_trim_start_shorter(s: Seq<char>)
    ensures
        trim_start_spec(s).len() <= s.len(),
    decreases s.len(),
{
    if s.len() > 0 && is_white_space(s[0]) {
        lemma_trim_start_shorter(s.drop_first());
    }
}

proof fn lemma_trim_end_shorter(s: Seq<char>)
    ensures
        trim_end_spec(s).len() <= s.len(),
    decreases s.len(),
{
    if s.len() > 0 && is_white_space(s.last()) {
        lemma_trim_end_shorter(s.drop_last());
    }
}

/// The normalised name of a provider: trimmed, reduced to alphanumeric
/// characters and single `_` for each run of whitespace, lower-cased in
/// ASCII, with `ä`, `ö`, `ü`, `ß` folded to `a`, `o`, `u`, `s`. The result is
/// never longer than the input and holds no whitespace, no ASCII capital and
/// no umlaut.
pub fn normalize_name(id: &str) -> (r: String)
    ensures
        r@ == normalized_name(id@),
        all_ascii(id@) ==> r@ == ascii_name_chars(trim_spec(id@), false),
        r@.len() <= id@.len(),
        forall|k: int| 0 <= k < r@.len() ==> clean_name_char(#[trigger] r@[k]),
{
    let trimmed = trim(id);
    let t = trimmed.as_str();
    let n = t.unicode_len();
    let mut white_space_mode = false;
    let mut out = String::new();
    let mut i: usize = 0;
    assert(t@.skip(0) == t@);
    while i < n
        invariant
            n == t@.len(),
            t@ == trim_spec(id@),
            i <= n,
            name_chars(t@, false) == out@ + name_chars(t@.skip(i as int), white_space_mode),
            forall|k: int|
                0 <= k < i && (t@[k] as u32) < 128 ==> alphanumeric(#[trigger] t@[k])
                    == ascii_alphanumeric(t@[k]),
        decreases n - i,
    {
        let c = t.get_char(i);
        let ghost rest = t@.skip(i as int);
        assert(rest[0] == c);
        assert(rest.drop_first() == t@.skip(i + 1));
        let alnum = is_alphanumeric(c);
        if alnum || is_whitespace(c) {
            let l = to_ascii_lower(c);
            if is_whitespace(l) {
                if !white_space_mode {
                    white_space_mode = true;
                    push_char(&mut out, '_');
                } else {
                }
            } else {
                let f = if l == 'ä' {
                    'a'
                } else if l == 'ü' {
                    'u'
                } else if l == 'ö' {
                    'o'
                } else if l == 'ß' {
                    's'
                } else {
                    l
                };
                push_char(&mut out, f);
                white_space_mode = false;
            }
        }
        i += 1;
    }
    proof {
        assert(t@.skip(n as int) == Seq::<char>::empty());
        assert(out@ == name_chars(t@, false));
        lemma_name_chars_clean(t@, false);
        lemma_trim_shorter(id@);
        if all_ascii(id@) {
            assert(all_ascii(t@));
            assert forall|k: int| 0 <= k < t@.len() implies alphanumeric(#[trigger] t@[k])
                == ascii_alphanumeric(t@[k]) by {
                assert((t@[k] as u32) < 128);
            }
            lemma_ascii_name_chars(t@, false);
        }
    }
    out
}

/// Whether a tariff passes the filter patterns: none of them matches its name
/// or its id (patterns that do not compile are left out).
pub open spec fn passes(filters: Seq<Seq<char>>, tariff_name: Seq<char>, tariff_id: Seq<char>) -> bool {
    !any_pattern_finds(filters, tariff_name) && !any_pattern_finds(filters, tariff_id)
}

/// Whether a tariff passes the filter patterns.
pub fn passes_filters(filters: &Vec<String>, tariff_name: &str, tariff_id: &str) -> (r: bool)
    ensures
        r == passes(crate::text::texts(filters@), tariff_name@, tariff_id@),
{
    let ghost views = crate::text::texts(filters@);
    let n = filters.len();
    let mut i: usize = 0;
    while i < n
        invariant
            n == filters@.len(),
            views == crate::text::texts(filters@),
            i <= n,
            forall|k: int|
                0 <= k < i ==> regex_finds(#[trigger] views[k], tariff_name@) != Some(true)
                    && regex_finds(views[k], tariff_id@) != Some(true),
        decreases n - i,
    {
        let f = filters[i].as_str();
        assert(views[i as int] == f@);
        if regex_is_match(f, tariff_name) == Some(true) || regex_is_match(f, tariff_id) == Some(true) {
            return false;
        }
        i += 1;
    }
    true
}

/// Umlauts and `ß` are folded to their base letters: where the next
/// character of a name is `ä`, `ö`, `ü` or `ß` (and so alphanumeric), the
/// normalised name holds `a`, `o`, `u` or `s` in its place, followed by the
/// rest normalised.
pub proof fn umlauts_fold_to_base_letters(s: Seq<char>, in_space: bool)
    ensures
        alphanumeric('ä') ==> name_chars(seq!['ä'] + s, in_space) == seq!['a'] + name_chars(s, false),
        alphanumeric('ö') ==> name_chars(seq!['ö'] + s, in_space) == seq!['o'] + name_chars(s, false),
        alphanumeric('ü') ==> name_chars(seq!['ü'] + s, in_space) == seq!['u'] + name_chars(s, false),
        alphanumeric('ß') ==> name_chars(seq!['ß'] + s, in_space) == seq!['s'] + name_chars(s, false),
{
    assert((seq!['ä'] + s).drop_first() == s);
    assert((seq!['ö'] + s).drop_first() == s);
    assert((seq!['ü'] + s).drop_first() == s);
    assert((seq!['ß'] + s).drop_first() == s);
}

} // verus!
