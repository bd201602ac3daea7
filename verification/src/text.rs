use vstd::prelude::*;
use vstd::string::StrSliceExecFns;
use vstd::utf8::decode_utf8;
use vstd::utf8::valid_utf8;

use crate::error::Error;

verus! {

/// Relies on `String::from_utf8` of std: it succeeds on exactly the valid
/// UTF-8 byte sequences and decodes them.
#[verifier::external_body]
pub fn string_from_utf8(bytes: Vec<u8>) -> (r: Result<String, Error>)
    ensures
        r is Ok <==> valid_utf8(bytes@),
        r matches Ok(s) ==> s@ == decode_utf8(bytes@),
        r matches Err(e) ==> e == Error::Utf8DecodeError,
{
    match String::from_utf8(bytes) {
        Ok(s) => Ok(s),
        Err(_) => Err(Error::Utf8DecodeError),
    }
}

/// The split of `s` at its first `=`: the text before it and the text after
/// it.  `None` when `s` holds no `=` at all.
pub open spec fn eq_split(s: Seq<char>) -> Option<(Seq<char>, Seq<char>)>
    decreases s.len(),
{
    if s.len() == 0 {
        None
    } else if s[0] == '=' {
        Some((Seq::empty(), s.drop_first()))
    } else {
        match eq_split(s.drop_first()) {
            None => None,
            Some(kv) => Some((seq![s[0]] + kv.0, kv.1)),
        }
    }
}

/// A `key=value` string splits into exactly the text before and the text
/// after its first `=`: the key never holds a `=`, and key, separator and
/// value reassemble the input, however many further `=` the value holds.
/// A string without `=` does not split.
pub proof fn lemma_eq_split_characterization(s: Seq<char>)
    ensures
        eq_split(s) is None <==> !s.contains('='),
        eq_split(s) matches Some(kv) ==> s =~= kv.0 + seq!['='] + kv.1 && !kv.0.contains('='),
    decreases s.len(),
{
    if s.len() == 0 {
    } else if s[0] == '=' {
        assert(s.contains('=')) by {
            assert(s[0] == '=');
        }
        let kv = eq_split(s)->Some_0;
        assert(s =~= kv.0 + seq!['='] + kv.1);
    } else {
        lemma_eq_split_characterization(s.drop_first());
        let rest = s.drop_first();
        if eq_split(s) is None {
            assert(!rest.contains('='));
            assert forall|i: int| 0 <= i < s.len() implies s[i] != '=' by {
                if i == 0 {
                } else {
                    assert(rest[i - 1] != '=');
                }
            }
            assert(!s.contains('='));
        } else {
            let kv = eq_split(rest)->Some_0;
            let kv2 = eq_split(s)->Some_0;
            assert(kv2.0 == seq![s[0]] + kv.0);
            assert(rest =~= kv.0 + seq!['='] + kv.1);
            assert(s =~= seq![s[0]] + rest);
            assert(s =~= kv2.0 + seq!['='] + kv2.1);
            assert forall|i: int| 0 <= i < kv2.0.len() implies kv2.0[i] != '=' by {
                if i == 0 {
                } else {
                    assert(!kv.0.contains('='));
                    assert(kv2.0[i] == kv.0[i - 1]);
                    assert(kv.0.contains(kv.0[i - 1]) || kv.0[i - 1] != '=');
                }
            }
            assert(!kv2.0.contains('='));
        }
        if s.contains('=') && eq_split(s) is None {
            let i = choose|i: int| 0 <= i < s.len() && s[i] == '=';
            assert(i != 0);
            assert(rest[i - 1] == '=');
            assert(rest.contains('='));
        }
        if rest.contains('=') {
            let i = choose|i: int| 0 <= i < rest.len() && rest[i] == '=';
            assert(s[i + 1] == '=');
            assert(s.contains('='));
        }
    }
}

/// The split is the only decomposition of `s` into a `=`-free key, a `=`,
/// and a value.
pub proof fn lemma_eq_split_unique(s: Seq<char>, k: Seq<char>, v: Seq<char>)
    requires
        s =~= k + seq!['='] + v,
        !k.contains('='),
    ensures
        eq_split(s) == Some((k, v)),
    decreases k.len(),
{
    if k.len() == 0 {
        assert(s[0] == '=');
        assert(s.drop_first() =~= v);
    } else {
        assert(k.contains(k[0]) || k[0] != '=') by {
            assert(0 <= 0 < k.len() && k[0] == k[0]);
        }
        assert(s[0] == k[0]);
        assert(s[0] != '=');
        assert(s.drop_first() =~= k.drop_first() + seq!['='] + v);
        assert(!k.drop_first().contains('=')) by {
            if k.drop_first().contains('=') {
                let i = choose|i: int| 0 <= i < k.drop_first().len() && k.drop_first()[i] == '=';
                assert(k[i + 1] == '=');
                assert(k.contains('='));
            }
        }
        lemma_eq_split_unique(s.drop_first(), k.drop_first(), v);
        let kv = eq_split(s)->Some_0;
        assert(kv.0 =~= k);
    }
}

/// Splits a `key=value` string at its first `=`; `None` when no `=` occurs.
pub fn split_key_value(s: &str) -> (r: Option<(String, String)>)
    ensures
        match r {
            Some(kv) => eq_split(s@) == Some((kv.0@, kv.1@)),
            None => eq_split(s@) is None,
        },
{
    let n = s.unicode_len();
    let mut i: usize = 0;
    while i < n
        invariant
            n == s@.len(),
            0 <= i <= n,
            forall|j: int| 0 <= j < i ==> s@[j] != '=',
        decreases n - i,
    {
        if s.get_char(i) == '=' {
            let k = s.substring_char(0, i);
            let v = s.substring_char(i + 1, n);
            proof {
                assert(s@ =~= s@.subrange(0, i as int) + seq!['='] + s@.subrange(
                    i + 1 as int,
                    n as int,
                ));
                assert(!s@.subrange(0, i as int).contains('=')) by {
                    if s@.subrange(0, i as int).contains('=') {
                        let j = choose|j: int|
                            0 <= j < i && s@.subrange(0, i as int)[j] == '=';
                        assert(s@[j] == '=');
                    }
                }
                lemma_eq_split_unique(
                    s@,
                    s@.subrange(0, i as int),
                    s@.subrange(i + 1 as int, n as int),
                );
            }
            return Some((k.to_owned(), v.to_owned()));
        }
        i = i + 1;
    }
    proof {
        assert(!s@.contains('=')) by {
            if s@.contains('=') {
                let j = choose|j: int| 0 <= j < s@.len() && s@[j] == '=';
                assert(s@[j] != '=');
            }
        }
        lemma_eq_split_characterization(s@);
    }
    None
}

/// Whether the character `c` occurs in `s`.
pub fn str_contains_char(s: &str, c: char) -> (r: bool)
    ensures
        r == s@.contains(c),
{
    let n = s.unicode_len();
    let mut i: usize = 0;
    while i < n
        invariant
            n == s@.len(),
            0 <= i <= n,
            forall|j: int| 0 <= j < i ==> s@[j] != c,
        decreases n - i,
    {
        if s.get_char(i) == c {
            return true;
        }
        i = i + 1;
    }
    proof {
        if s@.contains(c) {
            let j = choose|j: int| 0 <= j < s@.len() && s@[j] == c;
            assert(s@[j] != c);
        }
    }
    false
}

/// The code point of `c`, with ASCII capital letters folded to lower case.
pub open spec fn lower_code(c: char) -> u32 {
    if 65 <= c as u32 && c as u32 <= 90 {
        (c as u32 + 32) as u32
    } else {
        c as u32
    }
}

/// Character-wise equality up to ASCII case.
pub open spec fn eq_ignore_ascii_case_seq(a: Seq<char>, b: Seq<char>) -> bool {
    a.len() == b.len() && forall|i: int| 0 <= i < a.len() ==> lower_code(a[i]) == lower_code(b[i])
}

/// Whether `a` and `b` are equal up to ASCII case.
pub fn str_eq_ignore_ascii_case(a: &str, b: &str) -> (r: bool)
    ensures
        r == eq_ignore_ascii_case_seq(a@, b@),
{
    let na = a.unicode_len();
    let nb = b.unicode_len();
    if na != nb {
        return false;
    }
    let mut i: usize = 0;
    while i < na
        invariant
            na == a@.len(),
            na == b@.len(),
            0 <= i <= na,
            forall|j: int| 0 <= j < i ==> lower_code(a@[j]) == lower_code(b@[j]),
        decreases na - i,
    {
        let ca = a.get_char(i) as u32;
        let cb = b.get_char(i) as u32;
        let la = if 65 <= ca && ca <= 90 {
            ca + 32
        } else {
            ca
        };
        let lb = if 65 <= cb && cb <= 90 {
            cb + 32
        } else {
            cb
        };
        if la != lb {
            return false;
        }
        i = i + 1;
    }
    true
}

/// Whether `needle` occurs as a contiguous run inside `hay`.
pub open spec fn contains_seq(hay: Seq<char>, needle: Seq<char>) -> bool {
    exists|i: int|
        0 <= i && i + needle.len() <= hay.len() && #[trigger] hay.subrange(i, i + needle.len())
            == needle
}

/// Whether `hay` matches `needle` starting at position `i`.
fn matches_at(hay: &str, needle: &str, i: usize, hay_len: usize, needle_len: usize) -> (r: bool)
    requires
        hay_len == hay@.len(),
        needle_len == needle@.len(),
        i + needle_len <= hay_len,
    ensures
        r == (hay@.subrange(i as int, i + needle@.len()) == needle@),
{
    let mut j: usize = 0;
    while j < needle_len
        invariant
            hay_len == hay@.len(),
            needle_len == needle@.len(),
            i + needle_len <= hay_len,
            0 <= j <= needle_len,
            forall|j2: int| 0 <= j2 < j ==> hay@[i + j2] == needle@[j2],
        decreases needle_len - j,
    {
        if hay.get_char(i + j) != needle.get_char(j) {
            proof {
                assert(hay@.subrange(i as int, i + needle@.len())[j as int] != needle@[j as int]);
            }
            return false;
        }
        j = j + 1;
    }
    proof {
        assert(hay@.subrange(i as int, i + needle@.len()) =~= needle@);
    }
    true
}

/// Whether the string `needle` occurs as a substring of `hay`.
pub fn str_contains_str(hay: &str, needle: &str) -> (r: bool)
    ensures
        r == contains_seq(hay@, needle@),
{
    let h = hay.unicode_len();
    let n = needle.unicode_len();
    if n > h {
        proof {
            if contains_seq(hay@, needle@) {
                let i = choose|i: int|
                    0 <= i && i + needle@.len() <= hay@.len() && #[trigger] hay@.subrange(
                        i,
                        i + needle@.len(),
                    ) == needle@;
            }
        }
        return false;
    }
    let mut i: usize = 0;
    loop
        invariant
            h == hay@.len(),
            n == needle@.len(),
            n <= h,
            0 <= i <= h - n,
            forall|i2: int|
                0 <= i2 < i ==> #[trigger] hay@.subrange(i2, i2 + needle@.len()) != needle@,
        decreases h - n - i,
    {
        if matches_at(hay, needle, i, h, n) {
            return true;
        }
        if i == h - n {
            proof {
                if contains_seq(hay@, needle@) {
                    let i2 = choose|i2: int|
                        0 <= i2 && i2 + needle@.len() <= hay@.len() && #[trigger] hay@.subrange(
                            i2,
                            i2 + needle@.len(),
                        ) == needle@;
                    assert(i2 <= i);
                }
            }
            return false;
        }
        i = i + 1;
    }
}

} // verus!
