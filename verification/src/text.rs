//! Small verified text routines shared by the persona modules.

use vstd::prelude::*;

verus! {

/// Character-wise equality of two string slices.
pub fn str_eq(a: &str, b: &str) -> (r: bool)
    ensures
        r == (a@ == b@),
{
    let n: usize = a.unicode_len();
    let m: usize = b.unicode_len();
    if n != m {
        return false;
    }
    let mut i: usize = 0;
    while i < n
        invariant
            n == a@.len(),
            m == b@.len(),
            n == m,
            i <= n,
            forall|j: int| 0 <= j < i ==> a@[j] == b@[j],
        decreases n - i,
    {
        if a.get_char(i) != b.get_char(i) {
            return false;
        }
        i = i + 1;
    }
    assert(a@ =~= b@);
    true
}

/// The characters of `s`, gathered into a vector.
pub fn chars_of(s: &str) -> (r: Vec<char>)
    ensures
        r@ == s@,
{
    let n: usize = s.unicode_len();
    let mut out: Vec<char> = Vec::new();
    let mut i: usize = 0;
    while i < n
        invariant
            n == s@.len(),
            i <= n,
            out@ == s@.subrange(0, i as int),
        decreases n - i,
    {
        let c = s.get_char(i);
        out.push(c);
        i = i + 1;
        assert(out@ =~= s@.subrange(0, i as int));
    }
    assert(s@.subrange(0, n as int) =~= s@);
    out
}

/// The decimal digit character for `d < 10`.
pub open spec fn digit_char(d: int) -> char {
    if d == 0 { '0' }
    else if d == 1 { '1' }
    else if d == 2 { '2' }
    else if d == 3 { '3' }
    else if d == 4 { '4' }
    else if d == 5 { '5' }
    else if d == 6 { '6' }
    else if d == 7 { '7' }
    else if d == 8 { '8' }
    else { '9' }
}

/// The decimal text of a natural number, without leading zeros.
pub open spec fn decimal_text(n: nat) -> Seq<char>
    decreases n,
{
    if n < 10 {
        seq![digit_char(n as int)]
    } else {
        decimal_text(n / 10) + seq![digit_char((n % 10) as int)]
    }
}

fn digit_str(d: u64) -> (r: &'static str)
    requires
        d < 10,
    ensures
        r@ == seq![digit_char(d as int)],
{
    proof {
        reveal_strlit("0");
        reveal_strlit("1");
        reveal_strlit("2");
        reveal_strlit("3");
        reveal_strlit("4");
        reveal_strlit("5");
        reveal_strlit("6");
        reveal_strlit("7");
        reveal_strlit("8");
        reveal_strlit("9");
    }
    if d == 0 { "0" }
    else if d == 1 { "1" }
    else if d == 2 { "2" }
    else if d == 3 { "3" }
    else if d == 4 { "4" }
    else if d == 5 { "5" }
    else if d == 6 { "6" }
    else if d == 7 { "7" }
    else if d == 8 { "8" }
    else { "9" }
}

/// Appends the decimal text of `n` to `s`.
pub fn push_decimal(s: &mut String, n: u64)
    ensures
        final(s)@ == old(s)@ + decimal_text(n as nat),
    decreases n,
{
    if n >= 10 {
        push_decimal(s, n / 10);
    }
    s.append(digit_str(n % 10));
    assert(s@ =~= old(s)@ + decimal_text(n as nat));
}

} // verus!

verus! {

/// `t` occurs in `v` starting at index `i`.
pub open spec fn occurs_at(v: Seq<char>, t: Seq<char>, i: int) -> bool {
    0 <= i && i + t.len() <= v.len() && v.subrange(i, i + t.len()) == t
}

/// `i` is the leftmost index at which `t` occurs in `v`.
pub open spec fn is_first_occurrence(v: Seq<char>, t: Seq<char>, i: int) -> bool {
    occurs_at(v, t, i) && forall|j: int| 0 <= j < i ==> !#[trigger] occurs_at(v, t, j)
}

/// The leftmost index at which `t` occurs in `v`, as `str::split_once` finds it.
pub open spec fn first_occurrence(v: Seq<char>, t: Seq<char>) -> Option<int> {
    if exists|i: int| occurs_at(v, t, i) {
        Some(choose|i: int| is_first_occurrence(v, t, i))
    } else {
        None
    }
}

/// The part of `v` after the first occurrence of `t` (`split_once(t).map(|(_, rest)| rest)`).
pub open spec fn after_first(v: Seq<char>, t: Seq<char>) -> Option<Seq<char>> {
    match first_occurrence(v, t) {
        Some(i) => Some(v.subrange(i + t.len(), v.len() as int)),
        None => None,
    }
}

proof fn lemma_first_occurrence_is(v: Seq<char>, t: Seq<char>, i: int)
    requires
        is_first_occurrence(v, t, i),
    ensures
        first_occurrence(v, t) == Some(i),
{
    let k = choose|k: int| is_first_occurrence(v, t, k);
    assert(is_first_occurrence(v, t, k));
    if k < i {
        assert(!occurs_at(v, t, k));
    } else if k > i {
        assert(!occurs_at(v, t, i));
    }
}

/// Whether `t` occurs in `v` at `i` (an executable check on character vectors).
pub fn occurs_at_exec(v: &Vec<char>, t: &Vec<char>, i: usize) -> (r: bool)
    ensures
        r == occurs_at(v@, t@, i as int),
{
    if i > v.len() || t.len() > v.len() - i {
        return false;
    }
    let mut k: usize = 0;
    while k < t.len()
        invariant
            i + t.len() <= v.len(),
            k <= t.len(),
            forall|j: int| 0 <= j < k ==> v@[i + j] == t@[j],
        decreases t.len() - k,
    {
        if v[i + k] != t[k] {
            assert(v@.subrange(i as int, i + t.len())[k as int] != t@[k as int]);
            return false;
        }
        k = k + 1;
    }
    assert(v@.subrange(i as int, i + t@.len()) =~= t@);
    true
}

/// The leftmost occurrence of `t` in `v`.
pub fn find_first(v: &Vec<char>, t: &Vec<char>) -> (r: Option<usize>)
    ensures
        match r {
            Some(i) => first_occurrence(v@, t@) == Some(i as int) && is_first_occurrence(v@, t@, i as int),
            None => first_occurrence(v@, t@) is None,
        },
{
    let mut i: usize = 0;
    while i < v.len()
        invariant
            i <= v.len(),
            forall|j: int| 0 <= j < i ==> !#[trigger] occurs_at(v@, t@, j),
        decreases v.len() - i,
    {
        if occurs_at_exec(v, t, i) {
            proof {
                lemma_first_occurrence_is(v@, t@, i as int);
            }
            return Some(i);
        }
        i = i + 1;
    }
    if occurs_at_exec(v, t, i) {
        proof {
            lemma_first_occurrence_is(v@, t@, i as int);
        }
        return Some(i);
    }
    proof {
        assert forall|j: int| !occurs_at(v@, t@, j) by {
            if 0 <= j <= i {
            } else if j > i {
                assert(j + t@.len() > v@.len());
            }
        }
    }
    None
}

} // verus!

verus! {

/// An ASCII decimal digit.
pub open spec fn is_ascii_digit(c: char) -> bool {
    '0' <= c && c <= '9'
}

/// The value of a run of decimal digits (most significant first).
pub open spec fn digits_value(s: Seq<char>) -> nat
    decreases s.len(),
{
    if s.len() == 0 {
        0
    } else {
        digits_value(s.drop_last()) * 10 + ((s.last() as int) - ('0' as int)) as nat
    }
}

/// Every character of `s` is an ASCII digit.
pub open spec fn all_digits(s: Seq<char>) -> bool {
    forall|i: int| 0 <= i < s.len() ==> is_ascii_digit(#[trigger] s[i])
}

/// The digits of an unsigned number's text: an optional leading `+` is dropped.
pub open spec fn unsigned_digits(s: Seq<char>) -> Seq<char> {
    if s.len() > 0 && s[0] == '+' {
        s.drop_first()
    } else {
        s
    }
}

/// What `str::parse::<u16>` gives for the text `s`: an optional `+`, then at
/// least one ASCII digit and nothing else, with a value that fits in 16 bits.
pub open spec fn parse_u16_text(s: Seq<char>) -> Option<u16> {
    let d = unsigned_digits(s);
    if d.len() > 0 && all_digits(d) && digits_value(d) <= u16::MAX {
        Some(digits_value(d) as u16)
    } else {
        None
    }
}

proof fn lemma_digits_prefix_le(d: Seq<char>, k: int)
    requires
        all_digits(d),
        0 <= k <= d.len(),
    ensures
        digits_value(d.subrange(0, k)) <= digits_value(d),
    decreases d.len() - k,
{
    if k == d.len() {
        assert(d.subrange(0, k) =~= d);
    } else {
        lemma_digits_prefix_le(d, k + 1);
        assert(d.subrange(0, k + 1).drop_last() =~= d.subrange(0, k));
        assert(is_ascii_digit(d[k]));
    }
}

/// `str::parse::<u16>` on the characters `v[start..end]`.
pub fn parse_u16_chars(v: &Vec<char>, start: usize, end: usize) -> (r: Option<u16>)
    requires
        start <= end <= v@.len(),
    ensures
        r == parse_u16_text(v@.subrange(start as int, end as int)),
{
    let ghost whole = v@.subrange(start as int, end as int);
    let mut s: usize = start;
    if s < end && v[s] == '+' {
        s = s + 1;
        assert(whole.drop_first() =~= v@.subrange(s as int, end as int));
    } else {
        assert(whole =~= v@.subrange(s as int, end as int));
    }
    let ghost d = v@.subrange(s as int, end as int);
    assert(unsigned_digits(whole) == d);
    if s == end {
        assert(d.len() == 0);
        assert(parse_u16_text(whole) is None);
        return None;
    }
    let mut acc: u32 = 0;
    let mut k: usize = s;
    while k < end
        invariant
            s <= k <= end <= v@.len(),
            d == v@.subrange(s as int, end as int),
            d == unsigned_digits(v@.subrange(start as int, end as int)),
            acc as nat == digits_value(v@.subrange(s as int, k as int)),
            acc <= u16::MAX,
            all_digits(v@.subrange(s as int, k as int)),
        decreases end - k,
    {
        let c = v[k];
        if !('0' <= c && c <= '9') {
            assert(d[k - s] == c);
            assert(!is_ascii_digit(d[k - s]));
            return None;
        }
        let digit: u32 = (c as u32) - ('0' as u32);
        proof {
            let p = v@.subrange(s as int, k + 1);
            assert(p.drop_last() =~= v@.subrange(s as int, k as int));
            assert(p.last() == c);
            assert(all_digits(p));
        }
        acc = acc * 10 + digit;
        k = k + 1;
        if acc > 65535 {
            proof {
                if all_digits(d) {
                    assert(d.subrange(0, k - s) =~= v@.subrange(s as int, k as int));
                    lemma_digits_prefix_le(d, k - s);
                }
            }
            return None;
        }
    }
    assert(v@.subrange(s as int, k as int) =~= d);
    Some(acc as u16)
}

/// A character that ends the major-version field of a user-agent product token.
pub open spec fn is_version_delimiter(c: char) -> bool {
    c == '.' || c == ' ' || c == ';' || c == ')'
}

/// `k` is where the first field of `s` ends: at the first delimiter, or at the end.
pub open spec fn is_field_end(s: Seq<char>, k: int) -> bool {
    &&& 0 <= k <= s.len()
    &&& (k == s.len() || is_version_delimiter(s[k]))
    &&& forall|j: int| 0 <= j < k ==> !is_version_delimiter(#[trigger] s[j])
}

/// The first field of `s` (`s.split(['.', ' ', ';', ')']).next()`).
pub open spec fn leading_field(s: Seq<char>) -> Seq<char> {
    s.subrange(0, choose|k: int| is_field_end(s, k))
}

proof fn lemma_leading_field_is(s: Seq<char>, k: int)
    requires
        is_field_end(s, k),
    ensures
        leading_field(s) == s.subrange(0, k),
{
    let m = choose|m: int| is_field_end(s, m);
    assert(is_field_end(s, m));
    if m < k {
        assert(!is_version_delimiter(s[m]));
    } else if m > k {
        assert(!is_version_delimiter(s[k]));
    }
}

/// The end of the first field of `v[start..]`.
pub fn field_end(v: &Vec<char>, start: usize) -> (r: usize)
    requires
        start <= v@.len(),
    ensures
        start <= r <= v@.len(),
        leading_field(v@.subrange(start as int, v@.len() as int)) == v@.subrange(start as int, r as int),
{
    let ghost rest = v@.subrange(start as int, v@.len() as int);
    let mut k: usize = start;
    while k < v.len()
        invariant
            start <= k <= v@.len(),
            rest == v@.subrange(start as int, v@.len() as int),
            forall|j: int| 0 <= j < k - start ==> !is_version_delimiter(#[trigger] rest[j]),
        decreases v.len() - k,
    {
        let c = v[k];
        if c == '.' || c == ' ' || c == ';' || c == ')' {
            proof {
                assert(rest[k - start] == c);
                assert(is_field_end(rest, k - start));
                lemma_leading_field_is(rest, k - start);
                assert(rest.subrange(0, k - start) =~= v@.subrange(start as int, k as int));
            }
            return k;
        }
        k = k + 1;
    }
    proof {
        assert(is_field_end(rest, k - start));
        lemma_leading_field_is(rest, k - start);
        assert(rest.subrange(0, k - start) =~= v@.subrange(start as int, k as int));
    }
    k
}

} // verus!

verus! {

/// The index of the first `c` in `s`.
pub open spec fn char_index(s: Seq<char>, c: char) -> Option<int>
    decreases s.len(),
{
    if s.len() == 0 {
        None
    } else if s[0] == c {
        Some(0)
    } else {
        match char_index(s.drop_first(), c) {
            Some(i) => Some(i + 1),
            None => None,
        }
    }
}

/// `char_index` finds the first `c`, and finds none only when there is none.
pub proof fn lemma_char_index(s: Seq<char>, c: char)
    ensures
        match char_index(s, c) {
            Some(i) => 0 <= i < s.len() && s[i] == c && forall|j: int| 0 <= j < i ==> s[j] != c,
            None => forall|j: int| 0 <= j < s.len() ==> s[j] != c,
        },
    decreases s.len(),
{
    if s.len() > 0 && s[0] != c {
        lemma_char_index(s.drop_first(), c);
        match char_index(s.drop_first(), c) {
            Some(i) => {
                assert forall|j: int| 0 <= j < i + 1 implies s[j] != c by {
                    if j > 0 {
                        assert(s[j] == s.drop_first()[j - 1]);
                    }
                }
            },
            None => {
                assert forall|j: int| 0 <= j < s.len() implies s[j] != c by {
                    if j > 0 {
                        assert(s[j] == s.drop_first()[j - 1]);
                    }
                }
            },
        }
    }
}

/// The pieces of `s` between the separators `c` (`str::split(c)`): there is
/// always at least one piece, and `k` separators give `k + 1` pieces.
pub open spec fn split_on(s: Seq<char>, c: char) -> Seq<Seq<char>>
    decreases s.len(),
{
    match char_index(s, c) {
        Some(i) => {
            proof {
                lemma_char_index(s, c);
            }
            seq![s.subrange(0, i)] + split_on(s.subrange(i + 1, s.len() as int), c)
        },
        None => seq![s],
    }
}

/// In `s`, then `c`, then `t`, the first `c` is that of `s`, else the one
/// between them.
pub proof fn lemma_char_index_joined(s: Seq<char>, c: char, t: Seq<char>)
    ensures
        char_index(s + seq![c] + t, c) == match char_index(s, c) {
            Some(i) => Some(i),
            None => Some(s.len() as int),
        },
    decreases s.len(),
{
    let u = s + seq![c] + t;
    if s.len() > 0 && s[0] != c {
        assert(u[0] == s[0]);
        assert(u.drop_first() =~= s.drop_first() + seq![c] + t);
        lemma_char_index_joined(s.drop_first(), c, t);
    } else if s.len() == 0 {
        assert(u[0] == c);
    } else {
        assert(u[0] == s[0]);
    }
}

/// Splitting `s`, then `c`, then `t` on `c` gives the pieces of `s` followed
/// by the pieces of `t`.
pub proof fn lemma_split_on_joined(s: Seq<char>, c: char, t: Seq<char>)
    ensures
        split_on(s + seq![c] + t, c) == split_on(s, c) + split_on(t, c),
    decreases s.len(),
{
    let u = s + seq![c] + t;
    lemma_char_index_joined(s, c, t);
    lemma_char_index(s, c);
    match char_index(s, c) {
        Some(i) => {
            let rest = s.subrange(i + 1, s.len() as int);
            assert(u.subrange(0, i) =~= s.subrange(0, i));
            assert(u.subrange(i + 1, u.len() as int) =~= rest + seq![c] + t);
            lemma_split_on_joined(rest, c, t);
            assert(split_on(u, c) =~= split_on(s, c) + split_on(t, c));
        },
        None => {
            assert(u.subrange(0, s.len() as int) =~= s);
            assert(u.subrange(s.len() as int + 1, u.len() as int) =~= t);
            assert(split_on(u, c) =~= split_on(s, c) + split_on(t, c));
        },
    }
}

/// The next `c` in `v[start..end]`, as an index into `v`.
pub fn find_char_from(v: &Vec<char>, c: char, start: usize, end: usize) -> (r: Option<usize>)
    requires
        start <= end <= v@.len(),
    ensures
        match char_index(v@.subrange(start as int, end as int), c) {
            Some(i) => r matches Some(k) && k == start + i,
            None => r is None,
        },
        r matches Some(k) ==> start <= k < end,
{
    let ghost s = v@.subrange(start as int, end as int);
    proof {
        lemma_char_index(s, c);
    }
    let mut k: usize = start;
    while k < end
        invariant
            start <= k <= end <= v@.len(),
            s == v@.subrange(start as int, end as int),
            forall|j: int| start <= j < k ==> v@[j] != c,
            match char_index(s, c) {
                Some(i) => 0 <= i < s.len() && s[i] == c && forall|j: int| 0 <= j < i ==> #[trigger] s[j] != c,
                None => forall|j: int| 0 <= j < s.len() ==> #[trigger] s[j] != c,
            },
        decreases end - k,
    {
        if v[k] == c {
            proof {
                assert(s[k - start] == c);
                match char_index(s, c) {
                    Some(i) => {
                        if start + i < k {
                            assert(s[i] == v@[start + i]);
                        } else if start + i > k {
                            assert(s[k - start] != c);
                        }
                    },
                    None => {
                        assert(s[k - start] != c);
                    },
                }
            }
            return Some(k);
        }
        k = k + 1;
    }
    proof {
        match char_index(s, c) {
            Some(i) => {
                assert(s[i] == v@[start + i]);
            },
            None => {},
        }
    }
    None
}

/// A character with the Unicode `White_Space` property (`char::is_whitespace`).
pub open spec fn is_unicode_whitespace(c: char) -> bool {
    let u = c as u32;
    (0x9 <= u && u <= 0xd) || u == 0x20 || u == 0x85 || u == 0xa0 || u == 0x1680
        || (0x2000 <= u && u <= 0x200a) || u == 0x2028 || u == 0x2029 || u == 0x202f
        || u == 0x205f || u == 0x3000
}

/// Whether `c` has the Unicode `White_Space` property.
pub fn is_whitespace_char(c: char) -> (r: bool)
    ensures
        r == is_unicode_whitespace(c),
{
    let u: u32 = c as u32;
    (0x9 <= u && u <= 0xd) || u == 0x20 || u == 0x85 || u == 0xa0 || u == 0x1680
        || (0x2000 <= u && u <= 0x200a) || u == 0x2028 || u == 0x2029 || u == 0x202f
        || u == 0x205f || u == 0x3000
}

/// `s` without its leading white space.
pub open spec fn trim_start(s: Seq<char>) -> Seq<char>
    decreases s.len(),
{
    if s.len() > 0 && is_unicode_whitespace(s[0]) {
        trim_start(s.drop_first())
    } else {
        s
    }
}

/// `s` without its trailing white space.
pub open spec fn trim_end(s: Seq<char>) -> Seq<char>
    decreases s.len(),
{
    if s.len() > 0 && is_unicode_whitespace(s.last()) {
        trim_end(s.drop_last())
    } else {
        s
    }
}

/// `s` without leading and trailing white space (`str::trim`).
pub open spec fn trim(s: Seq<char>) -> Seq<char> {
    trim_end(trim_start(s))
}

proof fn lemma_trim_start(s: Seq<char>, k: int)
    requires
        0 <= k <= s.len(),
        forall|j: int| 0 <= j < k ==> is_unicode_whitespace(#[trigger] s[j]),
        k == s.len() || !is_unicode_whitespace(s[k]),
    ensures
        trim_start(s) == s.subrange(k, s.len() as int),
    decreases k,
{
    if k == 0 {
        assert(s.subrange(0, s.len() as int) =~= s);
    } else {
        assert(is_unicode_whitespace(s[0]));
        let t = s.drop_first();
        assert forall|j: int| 0 <= j < k - 1 implies is_unicode_whitespace(#[trigger] t[j]) by {
            assert(t[j] == s[j + 1]);
        }
        if k < s.len() {
            assert(t[k - 1] == s[k]);
        }
        lemma_trim_start(t, k - 1);
        assert(t.subrange(k - 1, t.len() as int) =~= s.subrange(k, s.len() as int));
    }
}

proof fn lemma_trim_end(s: Seq<char>, k: int)
    requires
        0 <= k <= s.len(),
        forall|j: int| k <= j < s.len() ==> is_unicode_whitespace(#[trigger] s[j]),
        k == 0 || !is_unicode_whitespace(s[k - 1]),
    ensures
        trim_end(s) == s.subrange(0, k),
    decreases s.len() - k,
{
    if k == s.len() {
        assert(s.subrange(0, k) =~= s);
    } else {
        assert(is_unicode_whitespace(s.last()));
        let t = s.drop_last();
        assert forall|j: int| k <= j < t.len() implies is_unicode_whitespace(#[trigger] t[j]) by {
            assert(t[j] == s[j]);
        }
        if k > 0 {
            assert(t[k - 1] == s[k - 1]);
        }
        lemma_trim_end(t, k);
        assert(t.subrange(0, k) =~= s.subrange(0, k));
    }
}

/// The bounds of `v[start..end]` without its leading and trailing white space.
pub fn trim_bounds(v: &Vec<char>, start: usize, end: usize) -> (r: (usize, usize))
    requires
        start <= end <= v@.len(),
    ensures
        start <= r.0 <= r.1 <= end,
        trim(v@.subrange(start as int, end as int)) == v@.subrange(r.0 as int, r.1 as int),
{
    let mut a: usize = start;
    while a < end && is_whitespace_char(v[a])
        invariant
            start <= a <= end <= v@.len(),
            forall|j: int| start <= j < a ==> is_unicode_whitespace(#[trigger] v@[j]),
        decreases end - a,
    {
        a = a + 1;
    }
    let mut b: usize = end;
    while b > a && is_whitespace_char(v[b - 1])
        invariant
            start <= a <= b <= end <= v@.len(),
            forall|j: int| b <= j < end ==> is_unicode_whitespace(#[trigger] v@[j]),
        decreases b - a,
    {
        b = b - 1;
    }
    proof {
        let s = v@.subrange(start as int, end as int);
        assert forall|j: int| 0 <= j < a - start implies is_unicode_whitespace(#[trigger] s[j]) by {
            assert(s[j] == v@[start + j]);
        }
        if a < end {
            assert(s[a - start] == v@[a as int]);
        }
        lemma_trim_start(s, a - start);
        let t = s.subrange(a - start, s.len() as int);
        assert(t =~= v@.subrange(a as int, end as int));
        assert forall|j: int| b - a <= j < t.len() implies is_unicode_whitespace(#[trigger] t[j]) by {
            assert(t[j] == v@[a + j]);
        }
        if b > a {
            assert(t[b - a - 1] == v@[b - 1]);
        }
        lemma_trim_end(t, b - a);
        assert(t.subrange(0, b - a) =~= v@.subrange(a as int, b as int));
    }
    (a, b)
}

} // verus!
