//! Verified text primitives used by the model constructors and the scanner
//! rules: equality, substring search, last-occurrence search, ASCII
//! lower-casing, and the path components (base name, extension) the model is
//! built from.

use vstd::prelude::*;

verus! {

/// Decides whether two strings hold the same characters.
pub fn str_eq(a: &str, b: &str) -> (r: bool)
    ensures
        r == (a@ == b@),
{
    let an: usize = a.unicode_len();
    let bn: usize = b.unicode_len();
    if an != bn {
        proof {
            assert(a@ != b@) by {
                if a@ == b@ {
                    assert(a@.len() == b@.len());
                }
            }
        }
        return false;
    }
    let mut i: usize = 0;
    while i < an
        invariant
            an == a@.len(),
            bn == b@.len(),
            an == bn,
            i <= an,
            forall|j: int| 0 <= j < i ==> a@[j] == b@[j],
        decreases an - i,
    {
        let ca = a.get_char(i);
        let cb = b.get_char(i);
        if ca != cb {
            proof {
                assert(a@ != b@) by {
                    if a@ == b@ {
                        assert(a@[i as int] == b@[i as int]);
                    }
                }
            }
            return false;
        }
        i += 1;
    }
    proof {
        assert(a@ =~= b@);
    }
    true
}

/// The string is non-empty and its first character is a dot.
pub open spec fn starts_with_dot_spec(s: Seq<char>) -> bool {
    s.len() > 0 && s[0] == '.'
}

/// Decides whether the string starts with a dot (a hidden file or directory).
pub fn starts_with_dot(s: &str) -> (r: bool)
    ensures
        r == starts_with_dot_spec(s@),
{
    if s.unicode_len() == 0 {
        false
    } else {
        s.get_char(0) == '.'
    }
}

/// Index of the last occurrence of `c` in `s`, or `-1` when `c` does not
/// occur.
pub open spec fn last_index_of(s: Seq<char>, c: char) -> int
    decreases s.len(),
{
    if s.len() == 0 {
        -1
    } else if s.last() == c {
        s.len() - 1
    } else {
        last_index_of(s.drop_last(), c)
    }
}

/// What `last_index_of` means: it points at an occurrence after which none
/// follows, and it is negative exactly when there is no occurrence at all.
pub proof fn lemma_last_index_of(s: Seq<char>, c: char)
    ensures
        -1 <= last_index_of(s, c) < s.len(),
        last_index_of(s, c) >= 0 ==> s[last_index_of(s, c)] == c,
        forall|j: int| last_index_of(s, c) < j < s.len() ==> s[j] != c,
    decreases s.len(),
{
    if s.len() > 0 && s.last() != c {
        lemma_last_index_of(s.drop_last(), c);
        assert(forall|j: int| last_index_of(s, c) < j < s.len() - 1 ==> s.drop_last()[j] == s[j]);
    }
}

/// Finds the index of the last occurrence of `c` in `s`, if any.
pub fn rfind_char(s: &str, c: char) -> (r: Option<usize>)
    ensures
        r matches Some(k) ==> k == last_index_of(s@, c),
        r is None ==> last_index_of(s@, c) == -1,
{
    let n: usize = s.unicode_len();
    let mut i: usize = n;
    while i > 0
        invariant
            n == s@.len(),
            i <= n,
            forall|j: int| i <= j < n ==> s@[j] != c,
        decreases i,
    {
        i -= 1;
        if s.get_char(i) == c {
            proof {
                lemma_last_index_of(s@, c);
                let l = last_index_of(s@, c);
                assert(l >= 0) by {
                    if l < i as int {
                        assert(s@[i as int] != c);
                    }
                }
                assert(l == i as int) by {
                    if l < i as int {
                        assert(s@[i as int] != c);
                    }
                    if l > i as int {
                        assert(s@[l] != c);
                    }
                }
            }
            return Some(i);
        }
    }
    proof {
        lemma_last_index_of(s@, c);
        let l = last_index_of(s@, c);
        assert(l == -1) by {
            if l >= 0 {
                assert(s@[l] != c);
            }
        }
    }
    None
}

/// `needle` occurs contiguously somewhere in `hay`.
pub open spec fn contains_seq(hay: Seq<char>, needle: Seq<char>) -> bool {
    exists|i: int|
        0 <= i && i + needle.len() <= hay.len() && #[trigger] hay.subrange(i, i + needle.len())
            == needle
}

/// Decides whether `needle` occurs contiguously in `hay`.
pub fn contains_substr(hay: &str, needle: &str) -> (r: bool)
    ensures
        r == contains_seq(hay@, needle@),
{
    let hn: usize = hay.unicode_len();
    let nn: usize = needle.unicode_len();
    if nn > hn {
        return false;
    }
    if nn == 0 {
        proof {
            assert(hay@.subrange(0, 0 + needle@.len() as int) =~= needle@);
        }
        return true;
    }
    let mut i: usize = 0;
    while i <= hn - nn
        invariant
            hn == hay@.len(),
            nn == needle@.len(),
            1 <= nn <= hn,
            i <= hn - nn + 1,
            forall|k: int| 0 <= k < i ==> #[trigger] hay@.subrange(k, k + nn) != needle@,
        decreases hn - nn + 1 - i,
    {
        let mut j: usize = 0;
        let mut hit = true;
        while j < nn
            invariant
                hn == hay@.len(),
                nn == needle@.len(),
                nn <= hn,
                i <= hn - nn,
                j <= nn,
                hit ==> forall|l: int| 0 <= l < j ==> hay@[i + l] == needle@[l],
                !hit ==> hay@.subrange(i as int, i + nn) != needle@,
            decreases nn - j,
        {
            if hay.get_char(i + j) != needle.get_char(j) {
                proof {
                    assert(hay@.subrange(i as int, i + nn) != needle@) by {
                        if hay@.subrange(i as int, i + nn) == needle@ {
                            assert(hay@.subrange(i as int, i + nn)[j as int] == needle@[j as int]);
                        }
                    }
                }
                hit = false;
                j = nn;
            } else {
                j += 1;
            }
        }
        if hit {
            proof {
                assert(hay@.subrange(i as int, i + nn) =~= needle@);
            }
            return true;
        }
        i += 1;
    }
    proof {
        assert(!contains_seq(hay@, needle@)) by {
            if contains_seq(hay@, needle@) {
                let w = choose|w: int|
                    0 <= w && w + needle@.len() <= hay@.len() && #[trigger] hay@.subrange(
                        w,
                        w + needle@.len(),
                    ) == needle@;
                assert(hay@.subrange(w, w + nn) != needle@);
            }
        }
    }
    false
}

/// The suffix of `s` after the last occurrence of `c`; the whole of `s` when
/// `c` does not occur.
pub open spec fn after_last(s: Seq<char>, c: char) -> Seq<char> {
    s.subrange(last_index_of(s, c) + 1, s.len() as int)
}

/// The final path component of a slash-separated path: everything after the
/// last slash, or the whole path when it holds none. A path ending in a
/// slash has an empty base name.
pub fn base_name_of(path: &str) -> (r: String)
    ensures
        r@ == after_last(path@, '/'),
{
    let n: usize = path.unicode_len();
    proof {
        lemma_last_index_of(path@, '/');
    }
    match rfind_char(path, '/') {
        Some(k) => String::from_str(path.substring_char(k + 1, n)),
        None => {
            proof {
                assert(path@.subrange(0, n as int) =~= path@);
            }
            String::from_str(path)
        },
    }
}

/// The extension of a file name: everything after the last dot, provided
/// that dot is neither absent nor the leading character (a leading dot marks
/// a hidden file, not an extension).
pub open spec fn extension_spec(name: Seq<char>) -> Option<Seq<char>> {
    if last_index_of(name, '.') >= 1 {
        Some(after_last(name, '.'))
    } else {
        None
    }
}

/// Extracts the extension of a file name, without its leading dot.
pub fn extension_of(name: &str) -> (r: Option<String>)
    ensures
        match r {
            Some(e) => extension_spec(name@) == Some(e@),
            None => extension_spec(name@) is None,
        },
{
    let n: usize = name.unicode_len();
    proof {
        lemma_last_index_of(name@, '.');
    }
    match rfind_char(name, '.') {
        Some(k) => {
            if k >= 1 {
                Some(String::from_str(name.substring_char(k + 1, n)))
            } else {
                None
            }
        },
        None => None,
    }
}

/// `c` with an ASCII upper-case letter folded to lower case; any other
/// character is unchanged.
pub open spec fn lower_char(c: char) -> char {
    if 65 <= c as u32 <= 90 {
        ((c as u32 + 32) as char)
    } else {
        c
    }
}

/// `s` with every ASCII upper-case letter folded to lower case.
pub open spec fn lower_seq(s: Seq<char>) -> Seq<char> {
    Seq::new(s.len(), |i: int| lower_char(s[i]))
}

/// Folds ASCII upper-case letters to lower case, leaving every other
/// character unchanged.
pub fn ascii_lower(s: &str) -> (r: String)
    ensures
        r@ == lower_seq(s@),
{
    let alphabet = "abcdefghijklmnopqrstuvwxyz";
    proof {
        reveal_strlit("abcdefghijklmnopqrstuvwxyz");
    }
    let n: usize = s.unicode_len();
    let mut r = String::new();
    let mut i: usize = 0;
    while i < n
        invariant
            n == s@.len(),
            i <= n,
            alphabet@.len() == 26,
            forall|k: int| 0 <= k < 26 ==> alphabet@[k] as u32 == 97 + k,
            r@ =~= lower_seq(s@.subrange(0, i as int)),
        decreases n - i,
    {
        let c = s.get_char(i);
        let cu: u32 = c as u32;
        if 65 <= cu && cu <= 90 {
            let k: usize = (cu - 65) as usize;
            let piece = alphabet.substring_char(k, k + 1);
            proof {
                assert(piece@ =~= seq![alphabet@[k as int]]);
                assert(alphabet@[k as int] as u32 == cu + 32);
                assert(alphabet@[k as int] == lower_char(c)) by {
                    vstd::utf8::char_u32_cast(alphabet@[k as int], (cu + 32) as u32);
                }
            }
            r.append(piece);
        } else {
            let piece = s.substring_char(i, i + 1);
            proof {
                assert(piece@ =~= seq![s@[i as int]]);
            }
            r.append(piece);
        }
        proof {
            assert(r@ =~= lower_seq(s@.subrange(0, i as int + 1)));
        }
        i += 1;
    }
    proof {
        assert(s@.subrange(0, n as int) =~= s@);
    }
    r
}

} // verus!
