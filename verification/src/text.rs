//! Verified text utilities: decimal rendering, character search, blank tests
//! and qualified-name splitting, the string groundwork for SQL composition.
use vstd::prelude::*;
use vstd::string::*;

verus! {

/// The digit character for a value below ten.
pub open spec fn digit_char(d: nat) -> char {
    if d == 0 {
        '0'
    } else if d == 1 {
        '1'
    } else if d == 2 {
        '2'
    } else if d == 3 {
        '3'
    } else if d == 4 {
        '4'
    } else if d == 5 {
        '5'
    } else if d == 6 {
        '6'
    } else if d == 7 {
        '7'
    } else if d == 8 {
        '8'
    } else {
        '9'
    }
}

/// The decimal rendering of a natural number, most significant digit first.
pub open spec fn dec_spec(n: nat) -> Seq<char>
    decreases n,
{
    if n < 10 {
        seq![digit_char(n)]
    } else {
        dec_spec(n / 10) + seq![digit_char(n % 10)]
    }
}

fn digit_str(d: usize) -> (r: &'static str)
    requires
        d < 10,
    ensures
        r@ == seq![digit_char(d as nat)],
{
    proof {
        reveal_strlit("0");
        reveal_strlit("1");
        reveal_strlit("2");
        reveal_strlit("3");
        reveal_strlit("4");
        reveal_strlit("5");
        reveal_strlit("6");
        reveal_strlit("7");
        reveal_strlit("8");
        reveal_strlit("9");
    }
    let r: &'static str = if d == 0 {
        "0"
    } else if d == 1 {
        "1"
    } else if d == 2 {
        "2"
    } else if d == 3 {
        "3"
    } else if d == 4 {
        "4"
    } else if d == 5 {
        "5"
    } else if d == 6 {
        "6"
    } else if d == 7 {
        "7"
    } else if d == 8 {
        "8"
    } else {
        "9"
    };
    proof {
        assert(r@ =~= seq![digit_char(d as nat)]);
    }
    r
}

/// The decimal rendering of a machine integer.
pub fn usize_string(n: usize) -> (r: String)
    ensures
        r@ == dec_spec(n as nat),
    decreases n,
{
    if n < 10 {
        String::from_str(digit_str(n))
    } else {
        let mut s = usize_string(n / 10);
        s.append(digit_str(n % 10));
        proof {
            assert(s@ =~= dec_spec(n as nat));
        }
        s
    }
}

/// Character-wise string equality, meaning equality of the views.
pub fn str_eq(a: &str, b: &str) -> (r: bool)
    ensures
        r == (a@ == b@),
{
    let alen = a.unicode_len();
    let blen = b.unicode_len();
    if alen != blen {
        return false;
    }
    let mut i: usize = 0;
    while i < alen
        invariant
            alen == a@.len(),
            blen == b@.len(),
            alen == blen,
            i <= alen,
            forall|j: int| 0 <= j < i ==> a@[j] == b@[j],
        decreases alen - i,
    {
        if a.get_char(i) != b.get_char(i) {
            return false;
        }
        i += 1;
    }
    proof {
        assert(a@ =~= b@);
    }
    true
}

/// Whether the string holds the given character.
pub fn contains_char(s: &str, c: char) -> (r: bool)
    ensures
        r == s@.contains(c),
{
    let len = s.unicode_len();
    let mut i: usize = 0;
    while i < len
        invariant
            len == s@.len(),
            i <= len,
            forall|j: int| 0 <= j < i ==> s@[j] != c,
        decreases len - i,
    {
        if s.get_char(i) == c {
            proof {
                assert(s@[i as int] == c);
            }
            return true;
        }
        i += 1;
    }
    false
}

/// A whitespace character as the blank test understands it.
pub open spec fn is_space(c: char) -> bool {
    c == ' ' || c == '\t' || c == '\n' || c == '\r'
}

/// A string of nothing but whitespace, the empty string included.
pub open spec fn is_blank(s: Seq<char>) -> bool {
    forall|i: int| 0 <= i < s.len() ==> is_space(#[trigger] s[i])
}

/// Whether the string is empty or all whitespace.
pub fn is_blank_str(s: &str) -> (r: bool)
    ensures
        r == is_blank(s@),
{
    let len = s.unicode_len();
    let mut i: usize = 0;
    while i < len
        invariant
            len == s@.len(),
            i <= len,
            forall|j: int| 0 <= j < i ==> is_space(#[trigger] s@[j]),
        decreases len - i,
    {
        let c = s.get_char(i);
        if !(c == ' ' || c == '\t' || c == '\n' || c == '\r') {
            return false;
        }
        i += 1;
    }
    true
}

/// The view of an optional string slice.
pub open spec fn opt_view(o: Option<&str>) -> Option<Seq<char>> {
    match o {
        Some(s) => Some(s@),
        None => None,
    }
}

/// The index of the last occurrence of a character, or minus one when it
/// does not occur.
pub open spec fn last_index(s: Seq<char>, c: char) -> int
    decreases s.len(),
{
    if s.len() == 0 {
        -1
    } else if s[s.len() - 1] == c {
        s.len() - 1
    } else {
        last_index(s.drop_last(), c)
    }
}

/// What `last_index` finds: a position in bounds holding the character, with
/// none of it later; minus one exactly when the character is absent.
pub proof fn lemma_last_index(s: Seq<char>, c: char)
    ensures
        -1 <= last_index(s, c) < s.len(),
        last_index(s, c) >= 0 ==> s[last_index(s, c)] == c,
        forall|j: int| last_index(s, c) < j < s.len() ==> s[j] != c,
        s.contains(c) <==> last_index(s, c) >= 0,
    decreases s.len(),
{
    if s.len() == 0 {
        assert(!s.contains(c));
    } else if s[s.len() - 1] == c {
        assert(s.contains(c));
    } else {
        let t = s.drop_last();
        lemma_last_index(t, c);
        let li = last_index(s, c);
        assert(li == last_index(t, c));
        assert(forall|j: int| li < j < s.len() - 1 ==> s[j] == t[j] && t[j] != c);
        if last_index(t, c) >= 0 {
            assert(s[li] == t[li]);
            assert(s.contains(c));
        } else {
            if s.contains(c) {
                let w = choose|w: int| 0 <= w < s.len() && s[w] == c;
                assert(s[w] != c);
            }
        }
    }
}

/// The index of the first occurrence of a character, or the length of the
/// sequence when it does not occur.
pub open spec fn first_index(s: Seq<char>, c: char) -> int
    decreases s.len(),
{
    if s.len() == 0 {
        0
    } else if s[0] == c {
        0
    } else {
        1 + first_index(s.subrange(1, s.len() as int), c)
    }
}

/// What `first_index` finds: a position in bounds holding the character, with
/// none of it earlier; the length exactly when the character is absent.
pub proof fn lemma_first_index(s: Seq<char>, c: char)
    ensures
        0 <= first_index(s, c) <= s.len(),
        first_index(s, c) < s.len() ==> s[first_index(s, c)] == c,
        forall|j: int| 0 <= j < first_index(s, c) ==> s[j] != c,
        s.contains(c) <==> first_index(s, c) < s.len(),
    decreases s.len(),
{
    if s.len() == 0 {
        assert(!s.contains(c));
    } else if s[0] == c {
        assert(s.contains(c));
    } else {
        let t = s.subrange(1, s.len() as int);
        lemma_first_index(t, c);
        let fi = first_index(s, c);
        assert(fi == 1 + first_index(t, c));
        assert(forall|j: int| 0 <= j < fi ==> s[j] != c) by {
            assert(forall|j: int| 1 <= j < fi ==> s[j] == t[j - 1] && t[j - 1] != c);
        }
        if first_index(t, c) < t.len() {
            assert(s[fi] == t[fi - 1]);
            assert(s.contains(c));
        } else {
            if s.contains(c) {
                let w = choose|w: int| 0 <= w < s.len() && s[w] == c;
                assert(s[w] != c);
            }
        }
    }
}

/// Splits a qualified name at the first separating dot: the piece before it
/// and the piece after it. Nothing comes back of a name without a dot.
pub fn split_qualified(s: &str) -> (r: Option<(String, String)>)
    ensures
        r is None <==> !s@.contains('.'),
        r matches Some(p) ==> p.0@ == s@.subrange(0, first_index(s@, '.')) && p.1@ == s@.subrange(
            first_index(s@, '.') + 1,
            s@.len() as int,
        ),
{
    let len = s.unicode_len();
    let mut i: usize = 0;
    while i < len
        invariant
            len == s@.len(),
            i <= len,
            forall|j: int| 0 <= j < i ==> s@[j] != '.',
        decreases len - i,
    {
        if s.get_char(i) == '.' {
            let a = s.substring_char(0, i);
            let b = s.substring_char(i + 1, len);
            proof {
                assert(s@[i as int] == '.');
                assert(s@.contains('.'));
                lemma_first_index(s@, '.');
                assert(first_index(s@, '.') == i as int);
            }
            return Some((a.to_owned(), b.to_owned()));
        }
        i += 1;
    }
    None
}


/// The strict lexicographic order on character sequences, by code point.
pub open spec fn seq_lt(a: Seq<char>, b: Seq<char>) -> bool
    decreases a.len(),
{
    if b.len() == 0 {
        false
    } else if a.len() == 0 {
        true
    } else if a[0] != b[0] {
        (a[0] as u32) < (b[0] as u32)
    } else {
        seq_lt(a.subrange(1, a.len() as int), b.subrange(1, b.len() as int))
    }
}

/// Nothing is lexicographically below itself and above it at once.
pub proof fn lemma_seq_lt_asym(a: Seq<char>, b: Seq<char>)
    ensures
        seq_lt(a, b) ==> !seq_lt(b, a),
    decreases a.len(),
{
    if a.len() > 0 && b.len() > 0 && a[0] == b[0] {
        lemma_seq_lt_asym(a.subrange(1, a.len() as int), b.subrange(1, b.len() as int));
    }
}

/// Two sequences compare one way or the other, or are equal.
pub proof fn lemma_seq_lt_connex(a: Seq<char>, b: Seq<char>)
    ensures
        seq_lt(a, b) || seq_lt(b, a) || a == b,
    decreases a.len(),
{
    if b.len() == 0 {
        if a.len() == 0 {
            assert(a =~= b);
        }
    } else if a.len() == 0 {
    } else if a[0] != b[0] {
        if (a[0] as u32) == (b[0] as u32) {
            vstd::utf8::char_u32_cast(a[0], a[0] as u32);
            vstd::utf8::char_u32_cast(b[0], b[0] as u32);
        }
    } else {
        let ta = a.subrange(1, a.len() as int);
        let tb = b.subrange(1, b.len() as int);
        lemma_seq_lt_connex(ta, tb);
        if ta == tb {
            assert forall|i: int| 0 <= i < a.len() implies a[i] == b[i] by {
                if i >= 1 {
                    assert(a[i] == ta[i - 1]);
                    assert(b[i] == tb[i - 1]);
                }
            }
            assert(a =~= b);
        }
    }
}

/// The lexicographic order is transitive.
pub proof fn lemma_seq_lt_trans(a: Seq<char>, b: Seq<char>, c: Seq<char>)
    ensures
        seq_lt(a, b) && seq_lt(b, c) ==> seq_lt(a, c),
    decreases a.len(),
{
    if seq_lt(a, b) && seq_lt(b, c) {
        if c.len() == 0 {
        } else if a.len() == 0 {
        } else {
            if b.len() == 0 {
            } else {
                if a[0] == b[0] && b[0] == c[0] {
                    lemma_seq_lt_trans(
                        a.subrange(1, a.len() as int),
                        b.subrange(1, b.len() as int),
                        c.subrange(1, c.len() as int),
                    );
                }
            }
        }
    }
}

/// Lexicographic comparison of two strings, by code point.
pub fn str_lt(a: &str, b: &str) -> (r: bool)
    ensures
        r == seq_lt(a@, b@),
    decreases a@.len(),
{
    let alen = a.unicode_len();
    let blen = b.unicode_len();
    if blen == 0 {
        false
    } else if alen == 0 {
        true
    } else {
        let ca = a.get_char(0);
        let cb = b.get_char(0);
        if ca != cb {
            (ca as u32) < (cb as u32)
        } else {
            let ta = a.substring_char(1, alen);
            let tb = b.substring_char(1, blen);
            str_lt(ta, tb)
        }
    }
}

} // verus!
