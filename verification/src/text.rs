use vstd::prelude::*;
use vstd::string::StrSliceExecFns;
use vstd::string::StringExecFns;

verus! {

/// The sequence of characters that `str::to_lowercase` produces for a given
/// sequence of characters. Unicode case mapping is far too large to state
/// here; the name pins down only that the result depends on the input
/// characters alone.
pub uninterp spec fn lower_of(s: Seq<char>) -> Seq<char>;

/// Relies on `str::to_lowercase`: Unicode lowercasing, a pure function of the
/// character sequence.
#[verifier::external_body]
pub fn lowercase(s: &str) -> (r: String)
    ensures
        r@ == lower_of(s@),
{
    s.to_lowercase()
}

/// Relies on `String::push`: appends the given character to the end of the
/// string (std documentation for `String::push`).
pub assume_specification[ String::push ](s: &mut String, c: char)
    ensures
        final(s)@ == old(s)@.push(c),
;

/// Collects the characters of a string slice into a vector.
pub fn to_chars(s: &str) -> (r: Vec<char>)
    ensures
        r@ == s@,
{
    let n = s.unicode_len();
    let mut v: Vec<char> = Vec::new();
    let mut i: usize = 0;
    while i < n
        invariant
            i <= n,
            n == s@.len(),
            v@ == s@.take(i as int),
        decreases n - i,
    {
        v.push(s.get_char(i));
        proof {
            assert(s@.take(i as int).push(s@[i as int]) =~= s@.take(i + 1 as int));
        }
        i = i + 1;
    }
    proof {
        assert(s@.take(n as int) =~= s@);
    }
    v
}

/// Builds a string from a sequence of characters.
pub fn from_chars(v: &Vec<char>) -> (r: String)
    ensures
        r@ == v@,
{
    let mut s = String::new();
    let mut i: usize = 0;
    while i < v.len()
        invariant
            i <= v.len(),
            s@ == v@.take(i as int),
        decreases v.len() - i,
    {
        s.push(v[i]);
        proof {
            assert(v@.take(i as int).push(v@[i as int]) =~= v@.take(i + 1 as int));
        }
        i = i + 1;
    }
    proof {
        assert(v@.take(v.len() as int) =~= v@);
    }
    s
}

/// Character-wise equality of two string slices.
pub fn str_eq(a: &str, b: &str) -> (r: bool)
    ensures
        r == (a@ == b@),
{
    let an = a.unicode_len();
    let bn = b.unicode_len();
    if an != bn {
        return false;
    }
    let mut i: usize = 0;
    while i < an
        invariant
            i <= an,
            an == a@.len(),
            an == b@.len(),
            forall|j: int| 0 <= j < i ==> a@[j] == b@[j],
        decreases an - i,
    {
        if a.get_char(i) != b.get_char(i) {
            return false;
        }
        i = i + 1;
    }
    proof {
        assert(a@ =~= b@);
    }
    true
}

/// Lexicographic order on character sequences, by Unicode scalar value.
pub open spec fn lex_le(a: Seq<char>, b: Seq<char>) -> bool
    decreases a.len(),
{
    if a.len() == 0 {
        true
    } else if b.len() == 0 {
        false
    } else if a[0] == b[0] {
        lex_le(a.drop_first(), b.drop_first())
    } else {
        (a[0] as u32) < (b[0] as u32)
    }
}

pub open spec fn lex_lt(a: Seq<char>, b: Seq<char>) -> bool {
    lex_le(a, b) && a != b
}

pub proof fn lemma_lex_le_refl(a: Seq<char>)
    ensures
        lex_le(a, a),
    decreases a.len(),
{
    if a.len() > 0 {
        lemma_lex_le_refl(a.drop_first());
    }
}

pub proof fn lemma_lex_le_connected(a: Seq<char>, b: Seq<char>)
    ensures
        lex_le(a, b) || lex_le(b, a),
    decreases a.len(),
{
    if a.len() > 0 && b.len() > 0 {
        if a[0] == b[0] {
            lemma_lex_le_connected(a.drop_first(), b.drop_first());
        } else {
            vstd::utf8::char_u32_cast(a[0], a[0] as u32);
            vstd::utf8::char_u32_cast(b[0], b[0] as u32);
        }
    }
}

pub proof fn lemma_lex_le_antisymmetric(a: Seq<char>, b: Seq<char>)
    requires
        lex_le(a, b),
        lex_le(b, a),
    ensures
        a == b,
    decreases a.len(),
{
    if a.len() > 0 {
        lemma_lex_le_antisymmetric(a.drop_first(), b.drop_first());
        assert(a =~= seq![a[0]] + a.drop_first());
        assert(b =~= seq![b[0]] + b.drop_first());
    } else {
        assert(a =~= b);
    }
}

pub proof fn lemma_lex_le_trans(a: Seq<char>, b: Seq<char>, c: Seq<char>)
    requires
        lex_le(a, b),
        lex_le(b, c),
    ensures
        lex_le(a, c),
    decreases a.len(),
{
    if a.len() > 0 && b.len() > 0 && c.len() > 0 && a[0] == b[0] && b[0] == c[0] {
        lemma_lex_le_trans(a.drop_first(), b.drop_first(), c.drop_first());
    }
}

/// Lexicographic comparison of two character vectors.
pub fn chars_le(a: &Vec<char>, b: &Vec<char>) -> (r: bool)
    ensures
        r == lex_le(a@, b@),
{
    let mut i: usize = 0;
    proof {
        assert(a@.skip(0) =~= a@);
        assert(b@.skip(0) =~= b@);
    }
    loop
        invariant
            i <= a.len(),
            i <= b.len(),
            lex_le(a@, b@) == lex_le(a@.skip(i as int), b@.skip(i as int)),
        decreases a.len() - i,
    {
        if i == a.len() {
            proof {
                assert(a@.skip(i as int).len() == 0);
            }
            return true;
        }
        if i == b.len() {
            proof {
                assert(b@.skip(i as int).len() == 0);
                assert(a@.skip(i as int).len() > 0);
            }
            return false;
        }
        let ca = a[i];
        let cb = b[i];
        proof {
            assert(a@.skip(i as int)[0] == a@[i as int]);
            assert(b@.skip(i as int)[0] == b@[i as int]);
            assert(a@.skip(i as int).drop_first() =~= a@.skip(i as int + 1));
            assert(b@.skip(i as int).drop_first() =~= b@.skip(i as int + 1));
        }
        if ca == cb {
            i = i + 1;
        } else {
            return (ca as u32) < (cb as u32);
        }
    }
}

/// Whether `sub` occurs as a contiguous run inside `s`.
pub open spec fn has_substring(s: Seq<char>, sub: Seq<char>) -> bool {
    exists|k: int|
        0 <= k && k + sub.len() <= s.len() && #[trigger] s.subrange(k, k + sub.len() as int)
            == sub
}

/// Substring search over character vectors.
pub fn chars_contain(s: &Vec<char>, sub: &Vec<char>) -> (r: bool)
    ensures
        r == has_substring(s@, sub@),
{
    let m = sub.len();
    if m > s.len() {
        return false;
    }
    if m == 0 {
        proof {
            assert(s@.subrange(0, 0 + sub@.len() as int) =~= sub@);
        }
        return true;
    }
    let mut k: usize = 0;
    while k <= s.len() - m
        invariant
            m == sub.len(),
            1 <= m <= s.len(),
            k <= s.len() - m + 1,
            forall|k2: int|
                0 <= k2 < k ==> #[trigger] s@.subrange(k2, k2 + m as int) != sub@,
        decreases s.len() - m - k + 1,
    {
        let mut j: usize = 0;
        let mut mismatch = false;
        while j < m
            invariant
                m == sub.len(),
                m <= s.len(),
                k + m <= s.len(),
                j <= m,
                !mismatch ==> forall|j2: int| 0 <= j2 < j ==> s@[k + j2] == sub@[j2],
                mismatch ==> s@.subrange(k as int, k + m as int) != sub@,
            decreases m - j,
        {
            if s[k + j] != sub[j] {
                proof {
                    assert(s@.subrange(k as int, k + m as int)[j as int] == s@[k + j]);
                }
                mismatch = true;
                j = m;
            } else {
                j = j + 1;
            }
        }
        if !mismatch {
            proof {
                assert(s@.subrange(k as int, k + m as int) =~= sub@);
            }
            return true;
        }
        k = k + 1;
    }
    proof {
        assert forall|k2: int| 0 <= k2 && k2 + sub@.len() <= s@.len() implies #[trigger] s@
            .subrange(k2, k2 + sub@.len() as int) != sub@ by {
            assert(k2 < k);
        }
    }
    false
}

/// Case-insensitive containment: the lowercased needle occurs inside the
/// lowercased haystack. This is the matching rule used wherever an entity is
/// looked up by a fragment of its name.
pub open spec fn ci_contains(hay: Seq<char>, needle: Seq<char>) -> bool {
    has_substring(lower_of(hay), lower_of(needle))
}

pub fn ci_contains_exec(hay: &str, needle: &str) -> (r: bool)
    ensures
        r == ci_contains(hay@, needle@),
{
    let hl = lowercase(hay);
    let nl = lowercase(needle);
    let hv = to_chars(hl.as_str());
    let nv = to_chars(nl.as_str());
    chars_contain(&hv, &nv)
}

/// The Unicode White_Space characters: the separators that whitespace token
/// splitting honours.
pub open spec fn is_space(c: char) -> bool {
    let u = c as u32;
    u == 0x20 || (0x09 <= u && u <= 0x0D) || u == 0x85 || u == 0xA0 || u == 0x1680 || (0x2000
        <= u && u <= 0x200A) || u == 0x2028 || u == 0x2029 || u == 0x202F || u == 0x205F || u
        == 0x3000
}

pub fn is_space_exec(c: char) -> (r: bool)
    ensures
        r == is_space(c),
{
    let u = c as u32;
    u == 0x20 || (0x09 <= u && u <= 0x0D) || u == 0x85 || u == 0xA0 || u == 0x1680 || (0x2000
        <= u && u <= 0x200A) || u == 0x2028 || u == 0x2029 || u == 0x202F || u == 0x205F || u
        == 0x3000
}

/// Index of the last character that is not whitespace, or -1 when there is
/// none.
pub open spec fn last_nonspace(s: Seq<char>) -> int
    decreases s.len(),
{
    if s.len() == 0 {
        -1
    } else if !is_space(s.last()) {
        s.len() - 1
    } else {
        last_nonspace(s.drop_last())
    }
}

/// Start of the run of non-whitespace characters that ends just before `i`.
pub open spec fn tok_start(s: Seq<char>, i: int) -> int
    decreases i,
{
    if i <= 0 {
        0
    } else if is_space(s[i - 1]) {
        i
    } else {
        tok_start(s, i - 1)
    }
}

/// The last whitespace-separated token of `s`; when `s` holds no token at
/// all, `s` itself (split, take the last piece, fall back to the whole).
pub open spec fn last_token(s: Seq<char>) -> Seq<char> {
    let e = last_nonspace(s);
    if e < 0 {
        s
    } else {
        s.subrange(tok_start(s, e + 1), e + 1)
    }
}

/// Copies a character vector.
pub fn copy_chars(v: &Vec<char>) -> (r: Vec<char>)
    ensures
        r@ == v@,
{
    let mut out: Vec<char> = Vec::new();
    let mut i: usize = 0;
    while i < v.len()
        invariant
            i <= v.len(),
            out@ == v@.take(i as int),
        decreases v.len() - i,
    {
        out.push(v[i]);
        proof {
            assert(v@.take(i as int).push(v@[i as int]) =~= v@.take(i + 1 as int));
        }
        i = i + 1;
    }
    proof {
        assert(v@.take(v.len() as int) =~= v@);
    }
    out
}

/// Extracts the last whitespace-separated token.
pub fn last_token_exec(v: &Vec<char>) -> (r: Vec<char>)
    ensures
        r@ == last_token(v@),
{
    let mut e: usize = v.len();
    proof {
        assert(v@.take(v.len() as int) =~= v@);
    }
    while e > 0 && is_space_exec(v[e - 1])
        invariant
            e <= v.len(),
            last_nonspace(v@) == last_nonspace(v@.take(e as int)),
        decreases e,
    {
        proof {
            assert(v@.take(e as int).drop_last() =~= v@.take(e as int - 1));
        }
        e = e - 1;
    }
    if e == 0 {
        return copy_chars(v);
    }
    proof {
        assert(v@.take(e as int).last() == v@[e as int - 1]);
        assert(last_nonspace(v@) == e as int - 1);
    }
    let top = e;
    let mut st: usize = e;
    while st > 0 && !is_space_exec(v[st - 1])
        invariant
            st <= top,
            top <= v.len(),
            tok_start(v@, top as int) == tok_start(v@, st as int),
        decreases st,
    {
        st = st - 1;
    }
    proof {
        assert(tok_start(v@, top as int) == st as int);
    }
    let mut out: Vec<char> = Vec::new();
    let mut i: usize = st;
    while i < top
        invariant
            st <= i <= top,
            top <= v.len(),
            out@ == v@.subrange(st as int, i as int),
        decreases top - i,
    {
        out.push(v[i]);
        proof {
            assert(v@.subrange(st as int, i as int).push(v@[i as int]) =~= v@.subrange(
                st as int,
                i + 1 as int,
            ));
        }
        i = i + 1;
    }
    out
}

/// Index of the first character that is not whitespace, or the length when
/// every character is.
pub open spec fn first_nonspace(s: Seq<char>) -> int
    decreases s.len(),
{
    if s.len() == 0 {
        0
    } else if !is_space(s[0]) {
        0
    } else {
        1 + first_nonspace(s.drop_first())
    }
}

pub proof fn lemma_first_nonspace_props(s: Seq<char>)
    ensures
        0 <= first_nonspace(s) <= s.len(),
        first_nonspace(s) < s.len() ==> !is_space(s[first_nonspace(s)]),
        forall|j: int| 0 <= j < first_nonspace(s) ==> is_space(#[trigger] s[j]),
    decreases s.len(),
{
    if s.len() > 0 && is_space(s[0]) {
        lemma_first_nonspace_props(s.drop_first());
        assert forall|j: int| 0 <= j < first_nonspace(s) implies is_space(#[trigger] s[j]) by {
            if j > 0 {
                assert(s[j] == s.drop_first()[j - 1]);
            }
        }
    }
}

pub proof fn lemma_last_nonspace_props(s: Seq<char>)
    ensures
        -1 <= last_nonspace(s) < s.len(),
        last_nonspace(s) >= 0 ==> !is_space(s[last_nonspace(s)]),
        forall|j: int| last_nonspace(s) < j < s.len() ==> is_space(#[trigger] s[j]),
    decreases s.len(),
{
    if s.len() > 0 && is_space(s.last()) {
        lemma_last_nonspace_props(s.drop_last());
        assert forall|j: int| last_nonspace(s) < j < s.len() implies is_space(
            #[trigger] s[j],
        ) by {
            if j < s.len() - 1 {
                assert(s[j] == s.drop_last()[j]);
            }
        }
    }
}

/// `s` with leading and trailing whitespace removed.
pub open spec fn trimmed(s: Seq<char>) -> Seq<char> {
    let e = last_nonspace(s);
    if e < 0 {
        Seq::<char>::empty()
    } else {
        s.subrange(first_nonspace(s), e + 1)
    }
}

pub fn trim_exec(s: &str) -> (r: String)
    ensures
        r@ == trimmed(s@),
{
    let v = to_chars(s);
    let mut e: usize = v.len();
    proof {
        assert(v@.take(v.len() as int) =~= v@);
    }
    while e > 0 && is_space_exec(v[e - 1])
        invariant
            e <= v.len(),
            last_nonspace(v@) == last_nonspace(v@.take(e as int)),
        decreases e,
    {
        proof {
            assert(v@.take(e as int).drop_last() =~= v@.take(e as int - 1));
        }
        e = e - 1;
    }
    if e == 0 {
        return String::new();
    }
    proof {
        assert(v@.take(e as int).last() == v@[e as int - 1]);
        assert(last_nonspace(v@) == e as int - 1);
        lemma_first_nonspace_props(v@);
        lemma_last_nonspace_props(v@);
    }
    let mut st: usize = 0;
    while st < e && is_space_exec(v[st])
        invariant
            st <= e,
            e <= v.len(),
            first_nonspace(v@) == st as int + first_nonspace(v@.skip(st as int)),
        decreases e - st,
    {
        proof {
            assert(v@.skip(st as int)[0] == v@[st as int]);
            assert(v@.skip(st as int).drop_first() =~= v@.skip(st as int + 1));
        }
        st = st + 1;
    }
    proof {
        if st < e {
            assert(v@.skip(st as int).len() > 0);
            assert(v@.skip(st as int)[0] == v@[st as int]);
            assert(first_nonspace(v@) == st as int);
        } else {
            // Impossible: a non-whitespace character sits at e - 1, so the
            // scan cannot run past it.
            lemma_first_nonspace_props(v@.skip(e as int));
            assert(first_nonspace(v@) >= e as int);
            if first_nonspace(v@) < v@.len() {
                assert(is_space(v@[first_nonspace(v@)]));
                assert(!is_space(v@[first_nonspace(v@)]));
            } else {
                assert(is_space(v@[e as int - 1]));
            }
            assert(false);
        }
    }
    let mut out: Vec<char> = Vec::new();
    let mut i: usize = st;
    while i < e
        invariant
            st <= i <= e,
            e <= v.len(),
            out@ == v@.subrange(st as int, i as int),
        decreases e - i,
    {
        out.push(v[i]);
        proof {
            assert(v@.subrange(st as int, i as int).push(v@[i as int]) =~= v@.subrange(
                st as int,
                i + 1 as int,
            ));
        }
        i = i + 1;
    }
    from_chars(&out)
}

/// ASCII case folding: the letters A through Z fold to their lower-case
/// forms; everything else is itself.
pub open spec fn ascii_fold(c: char) -> int {
    let u = c as u32;
    if 65 <= u && u <= 90 {
        u + 32
    } else {
        u as int
    }
}

/// Equality up to ASCII case.
pub open spec fn ascii_eq_ic(a: Seq<char>, b: Seq<char>) -> bool {
    a.len() == b.len() && forall|i: int|
        0 <= i < a.len() ==> ascii_fold(#[trigger] a[i]) == ascii_fold(b[i])
}

pub fn ascii_eq_ignore_case(a: &str, b: &str) -> (r: bool)
    ensures
        r == ascii_eq_ic(a@, b@),
{
    let an = a.unicode_len();
    let bn = b.unicode_len();
    if an != bn {
        return false;
    }
    let mut i: usize = 0;
    while i < an
        invariant
            i <= an,
            an == a@.len(),
            an == b@.len(),
            forall|j: int| 0 <= j < i ==> ascii_fold(#[trigger] a@[j]) == ascii_fold(b@[j]),
        decreases an - i,
    {
        let ca = a.get_char(i) as u32;
        let cb = b.get_char(i) as u32;
        let fa = if 65 <= ca && ca <= 90 {
            ca + 32
        } else {
            ca
        };
        let fb = if 65 <= cb && cb <= 90 {
            cb + 32
        } else {
            cb
        };
        if fa != fb {
            return false;
        }
        i = i + 1;
    }
    true
}

/// Whether `p` is a prefix of `s`.
pub open spec fn has_prefix(s: Seq<char>, p: Seq<char>) -> bool {
    p.len() <= s.len() && s.subrange(0, p.len() as int) == p
}

pub fn starts_with_exec(s: &str, p: &str) -> (r: bool)
    ensures
        r == has_prefix(s@, p@),
{
    let sn = s.unicode_len();
    let pn = p.unicode_len();
    if pn > sn {
        return false;
    }
    let mut i: usize = 0;
    while i < pn
        invariant
            i <= pn,
            pn == p@.len(),
            sn == s@.len(),
            pn <= sn,
            forall|j: int| 0 <= j < i ==> s@[j] == p@[j],
        decreases pn - i,
    {
        if s.get_char(i) != p.get_char(i) {
            proof {
                assert(s@.subrange(0, p@.len() as int)[i as int] == s@[i as int]);
            }
            return false;
        }
        i = i + 1;
    }
    proof {
        assert(s@.subrange(0, p@.len() as int) =~= p@);
    }
    true
}

/// Index of the first occurrence of `sep`, or -1.
pub open spec fn char_index(s: Seq<char>, sep: char) -> int
    decreases s.len(),
{
    if s.len() == 0 {
        -1
    } else if s[0] == sep {
        0
    } else {
        let r = char_index(s.drop_first(), sep);
        if r == -1 {
            -1
        } else {
            r + 1
        }
    }
}

pub proof fn lemma_char_index_at(s: Seq<char>, sep: char, i: int)
    requires
        0 <= i < s.len(),
        s[i] == sep,
        forall|j: int| 0 <= j < i ==> s[j] != sep,
    ensures
        char_index(s, sep) == i,
    decreases s.len(),
{
    if i > 0 {
        assert(forall|j: int| 0 <= j < i - 1 ==> #[trigger] s.drop_first()[j] != sep);
        lemma_char_index_at(s.drop_first(), sep, i - 1);
    }
}

pub proof fn lemma_char_index_none(s: Seq<char>, sep: char)
    requires
        forall|j: int| 0 <= j < s.len() ==> s[j] != sep,
    ensures
        char_index(s, sep) == -1,
    decreases s.len(),
{
    if s.len() > 0 {
        assert(forall|j: int| 0 <= j < s.len() - 1 ==> #[trigger] s.drop_first()[j] != sep);
        lemma_char_index_none(s.drop_first(), sep);
    }
}

pub proof fn lemma_char_index_props(s: Seq<char>, sep: char)
    ensures
        char_index(s, sep) == -1 ==> forall|j: int| 0 <= j < s.len() ==> s[j] != sep,
        char_index(s, sep) != -1 ==> 0 <= char_index(s, sep) < s.len() && s[char_index(s, sep)]
            == sep,
    decreases s.len(),
{
    if s.len() > 0 && s[0] != sep {
        lemma_char_index_props(s.drop_first(), sep);
        if char_index(s, sep) == -1 {
            assert forall|j: int| 0 <= j < s.len() implies s[j] != sep by {
                if j > 0 {
                    assert(s[j] == s.drop_first()[j - 1]);
                }
            }
        }
    }
}

/// The pieces of `s` between occurrences of `sep`; n separators give n + 1
/// pieces, empty pieces included.
pub open spec fn split_on(s: Seq<char>, sep: char) -> Seq<Seq<char>>
    decreases s.len(),
{
    let i = char_index(s, sep);
    if i < 0 || i >= s.len() {
        seq![s]
    } else {
        seq![s.take(i)] + split_on(s.skip(i + 1), sep)
    }
}

/// Finds the first occurrence of a character.
pub fn find_char(v: &Vec<char>, sep: char) -> (r: Option<usize>)
    ensures
        ({
            let ix = char_index(v@, sep);
            match r {
                Some(i) => ix == i as int,
                None => ix == -1,
            }
        }),
{
    let mut i: usize = 0;
    while i < v.len()
        invariant
            i <= v@.len(),
            forall|j: int| 0 <= j < i ==> #[trigger] v@[j] != sep,
        decreases v@.len() - i,
    {
        if v[i] == sep {
            proof {
                lemma_char_index_at(v@, sep, i as int);
            }
            return Some(i);
        }
        i = i + 1;
    }
    proof {
        lemma_char_index_none(v@, sep);
    }
    None
}

/// Splits on a separator character.
pub fn split_chars(v: &Vec<char>, sep: char) -> (r: Vec<Vec<char>>)
    ensures
        r.deep_view() == split_on(v@, sep),
    decreases v@.len(),
{
    match find_char(v, sep) {
        None => {
            let whole = copy_chars(v);
            let mut out: Vec<Vec<char>> = Vec::new();
            out.push(whole);
            proof {
                assert(out.deep_view() =~~= seq![v@]);
            }
            out
        },
        Some(i) => {
            let n = v.len();
            proof {
                lemma_char_index_props(v@, sep);
                assert(i < n);
            }
            let mut head: Vec<char> = Vec::new();
            let mut j: usize = 0;
            while j < i
                invariant
                    j <= i,
                    i < v@.len(),
                    head@ == v@.subrange(0, j as int),
                decreases i - j,
            {
                head.push(v[j]);
                proof {
                    assert(v@.subrange(0, j as int).push(v@[j as int]) =~= v@.subrange(
                        0,
                        j + 1 as int,
                    ));
                }
                j = j + 1;
            }
            let mut tail: Vec<char> = Vec::new();
            let mut k: usize = i + 1;
            while k < v.len()
                invariant
                    i < v@.len(),
                    i + 1 <= k <= v@.len(),
                    tail@ == v@.subrange(i + 1 as int, k as int),
                decreases v@.len() - k,
            {
                tail.push(v[k]);
                proof {
                    assert(v@.subrange(i + 1 as int, k as int).push(v@[k as int]) =~= v@.subrange(
                        i + 1 as int,
                        k + 1 as int,
                    ));
                }
                k = k + 1;
            }
            proof {
                assert(tail@ =~= v@.skip(i + 1 as int));
                assert(head@ =~= v@.take(i as int));
            }
            let mut rest = split_chars(&tail, sep);
            rest.insert(0, head);
            proof {
                assert(rest.deep_view() =~~= seq![v@.take(i as int)] + split_on(
                    v@.skip(i + 1 as int),
                    sep,
                ));
            }
            rest
        },
    }
}

/// Spaces become underscores; every other character is kept.
pub open spec fn under_of(s: Seq<char>) -> Seq<char> {
    s.map_values(|c: char| if c == ' ' { '_' } else { c })
}

/// The record part of a family's deterministic id: the lowercased last name
/// with spaces replaced by underscores.
pub open spec fn family_key_spec(last: Seq<char>) -> Seq<char> {
    under_of(lower_of(last))
}

/// The full deterministic family id, `family:` followed by the record key.
pub open spec fn family_id_spec(last: Seq<char>) -> Seq<char> {
    "family:"@ + family_key_spec(last)
}

pub fn family_key(last_name: &str) -> (r: String)
    ensures
        r@ == family_key_spec(last_name@),
{
    let low = lowercase(last_name);
    let lv = to_chars(low.as_str());
    let mut out: Vec<char> = Vec::new();
    let mut i: usize = 0;
    while i < lv.len()
        invariant
            i <= lv.len(),
            out@ == under_of(lv@.take(i as int)),
        decreases lv.len() - i,
    {
        let c = lv[i];
        if c == ' ' {
            out.push('_');
        } else {
            out.push(c);
        }
        proof {
            assert(under_of(lv@.take(i + 1 as int)) =~= under_of(lv@.take(i as int)).push(
                if lv@[i as int] == ' ' {
                    '_'
                } else {
                    lv@[i as int]
                },
            ));
        }
        i = i + 1;
    }
    proof {
        assert(lv@.take(lv.len() as int) =~= lv@);
    }
    from_chars(&out)
}

pub fn family_id(last_name: &str) -> (r: String)
    ensures
        r@ == family_id_spec(last_name@),
{
    let mut s = String::from_str("family:");
    let k = family_key(last_name);
    s.append(k.as_str());
    s
}

pub fn concat2(a: &str, b: &str) -> (r: String)
    ensures
        r@ == a@ + b@,
{
    let mut s = String::from_str(a);
    s.append(b);
    s
}

pub fn concat3(a: &str, b: &str, c: &str) -> (r: String)
    ensures
        r@ == a@ + b@ + c@,
{
    let mut s = String::from_str(a);
    s.append(b);
    s.append(c);
    s
}

pub fn concat4(a: &str, b: &str, c: &str, d: &str) -> (r: String)
    ensures
        r@ == a@ + b@ + c@ + d@,
{
    let mut s = String::from_str(a);
    s.append(b);
    s.append(c);
    s.append(d);
    s
}

pub fn concat5(a: &str, b: &str, c: &str, d: &str, e: &str) -> (r: String)
    ensures
        r@ == a@ + b@ + c@ + d@ + e@,
{
    let mut s = String::from_str(a);
    s.append(b);
    s.append(c);
    s.append(d);
    s.append(e);
    s
}

pub fn concat6(a: &str, b: &str, c: &str, d: &str, e: &str, f: &str) -> (r: String)
    ensures
        r@ == a@ + b@ + c@ + d@ + e@ + f@,
{
    let mut s = String::from_str(a);
    s.append(b);
    s.append(c);
    s.append(d);
    s.append(e);
    s.append(f);
    s
}

pub open spec fn digit_char(d: int) -> char {
    if d == 0 {
        '0'
    } else if d == 1 {
        '1'
    } else if d == 2 {
        '2'
    } else if d == 3 {
        '3'
    } else if d == 4 {
        '4'
    } else if d == 5 {
        '5'
    } else if d == 6 {
        '6'
    } else if d == 7 {
        '7'
    } else if d == 8 {
        '8'
    } else {
        '9'
    }
}

/// Decimal rendering of a non-negative integer.
pub open spec fn dec_str(n: int) -> Seq<char>
    decreases n,
{
    if n < 10 {
        seq![digit_char(n)]
    } else {
        dec_str(n / 10).push(digit_char(n % 10))
    }
}

fn digit_exec(d: u64) -> (c: char)
    requires
        d < 10,
    ensures
        c == digit_char(d as int),
{
    if d == 0 {
        '0'
    } else if d == 1 {
        '1'
    } else if d == 2 {
        '2'
    } else if d == 3 {
        '3'
    } else if d == 4 {
        '4'
    } else if d == 5 {
        '5'
    } else if d == 6 {
        '6'
    } else if d == 7 {
        '7'
    } else if d == 8 {
        '8'
    } else {
        '9'
    }
}

/// Appends the decimal rendering of `n`.
pub fn push_u64(n: u64, out: &mut String)
    ensures
        final(out)@ == old(out)@ + dec_str(n as int),
    decreases n,
{
    if n >= 10 {
        push_u64(n / 10, out);
    }
    let c = digit_exec(n % 10);
    out.push(c);
    proof {
        if n >= 10 {
            assert((old(out)@ + dec_str(n as int / 10)).push(digit_char(n as int % 10)) =~= old(
                out,
            )@ + dec_str(n as int));
        } else {
            assert(old(out)@.push(digit_char(n as int)) =~= old(out)@ + dec_str(n as int));
        }
    }
}

pub fn u64_to_string(n: u64) -> (r: String)
    ensures
        r@ == dec_str(n as int),
{
    let mut s = String::new();
    push_u64(n, &mut s);
    proof {
        assert(Seq::<char>::empty() + dec_str(n as int) =~= dec_str(n as int));
    }
    s
}

/// A cent amount rendered as dollars with two decimal places.
pub open spec fn money_str(c: int) -> Seq<char> {
    let m = if c < 0 {
        -c
    } else {
        c
    };
    let sign: Seq<char> = if c < 0 {
        seq!['-']
    } else {
        Seq::<char>::empty()
    };
    sign + dec_str(m / 100) + seq!['.', digit_char((m / 10) % 10), digit_char(m % 10)]
}

pub fn format_cents(c: i64) -> (r: String)
    ensures
        r@ == money_str(c as int),
{
    let mag: u64 = if c < 0 {
        (-(c as i128)) as u64
    } else {
        c as u64
    };
    let mut s = String::new();
    if c < 0 {
        s.push('-');
    }
    push_u64(mag / 100, &mut s);
    s.push('.');
    let d1 = digit_exec((mag / 10) % 10);
    s.push(d1);
    let d2 = digit_exec(mag % 10);
    s.push(d2);
    proof {
        let m: int = if c < 0 {
            -(c as int)
        } else {
            c as int
        };
        let sign: Seq<char> = if c < 0 {
            seq!['-']
        } else {
            Seq::<char>::empty()
        };
        assert(mag as int == m);
        assert(s@ =~= sign + dec_str(m / 100) + seq![
            '.',
            digit_char((m / 10) % 10),
            digit_char(m % 10),
        ]);
    }
    s
}

} // verus!
