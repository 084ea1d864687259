//! Strings as sequences of characters.
//!
//! Every function here reads a string through its view, `Seq<char>`, and says
//! what it returns over that view.

use vstd::prelude::*;

verus! {

/// `String::push` appends the character to the end of the string.
pub assume_specification[ String::push ](s: &mut String, c: char)
    ensures
        final(s)@ == old(s)@.push(c),
;

// ---------------------------------------------------------------------------
// Characters and whole strings
// ---------------------------------------------------------------------------

/// The views of a list of strings.
pub open spec fn views(list: Seq<String>) -> Seq<Seq<char>> {
    list.map_values(|s: String| s@)
}

/// The view of an optional string.
pub open spec fn view_opt(s: Option<String>) -> Option<Seq<char>> {
    match s {
        Some(s) => Some(s@),
        None => None,
    }
}

/// The characters of `s`.
pub fn chars_of(s: &str) -> (r: Vec<char>)
    ensures
        r@ == s@,
{
    let mut out: Vec<char> = Vec::new();
    for c in it: s.chars()
        invariant
            out@ == it.seq().take(it.index() as int),
            it.seq() == s@,
    {
        out.push(c);
    }
    out
}

/// The code point of `c`.
pub fn code_of(c: char) -> (r: u32)
    ensures
        r == c as int,
{
    c as u32
}

/// The string made of the characters `from..to` of `chars`.
pub fn string_of(chars: &Vec<char>, from: usize, to: usize) -> (r: String)
    requires
        from <= to <= chars@.len(),
    ensures
        r@ == chars@.subrange(from as int, to as int),
{
    let mut out = String::new();
    let mut i: usize = from;
    while i < to
        invariant
            from <= i <= to <= chars@.len(),
            out@ == chars@.subrange(from as int, i as int),
        decreases to - i,
    {
        out.push(chars[i]);
        i = i + 1;
    }
    out
}

/// Whether `a` and `b` are the same characters.
pub fn text_eq(a: &str, b: &str) -> (r: bool)
    ensures
        r == (a@ == b@),
{
    let x = chars_of(a);
    let y = chars_of(b);
    if x.len() != y.len() {
        return false;
    }
    let mut i: usize = 0;
    while i < x.len()
        invariant
            0 <= i <= x@.len(),
            x@.len() == y@.len(),
            x@ == a@,
            y@ == b@,
            forall|j: int| 0 <= j < i ==> x@[j] == y@[j],
        decreases x.len() - i,
    {
        if x[i] != y[i] {
            assert(a@[i as int] != b@[i as int]);
            return false;
        }
        i = i + 1;
    }
    assert(a@ =~= b@);
    true
}

/// The concatenation of `a` and `b`.
pub fn cat(a: &str, b: &str) -> (r: String)
    ensures
        r@ == a@ + b@,
{
    let mut out = String::from_str(a);
    out.append(b);
    out
}

/// The concatenation of `a`, `b` and `c`.
pub fn cat3(a: &str, b: &str, c: &str) -> (r: String)
    ensures
        r@ == a@ + b@ + c@,
{
    let mut out = String::from_str(a);
    out.append(b);
    out.append(c);
    out
}

/// The concatenation of four strings.
pub fn cat4(a: &str, b: &str, c: &str, d: &str) -> (r: String)
    ensures
        r@ == a@ + b@ + c@ + d@,
{
    let mut out = cat3(a, b, c);
    out.append(d);
    out
}

/// The concatenation of five strings.
pub fn cat5(a: &str, b: &str, c: &str, d: &str, e: &str) -> (r: String)
    ensures
        r@ == a@ + b@ + c@ + d@ + e@,
{
    let mut out = cat4(a, b, c, d);
    out.append(e);
    out
}

/// Whether `list` holds a string with the characters of `s`.
pub fn list_contains(list: &Vec<String>, s: &str) -> (r: bool)
    ensures
        r == views(list@).contains(s@),
{
    let mut i: usize = 0;
    while i < list.len()
        invariant
            i <= list@.len(),
            forall|j: int| 0 <= j < i ==> list@[j]@ != s@,
        decreases list.len() - i,
    {
        if text_eq(list[i].as_str(), s) {
            assert(views(list@)[i as int] == s@);
            return true;
        }
        i = i + 1;
    }
    assert(!views(list@).contains(s@)) by {
        if views(list@).contains(s@) {
            let j = choose|j: int| 0 <= j < views(list@).len() && views(list@)[j] == s@;
            assert(list@[j]@ == s@);
        }
    }
    false
}

/// `list` without `item`.
pub open spec fn without(list: Seq<Seq<char>>, item: Seq<char>) -> Seq<Seq<char>>
    decreases list.len(),
{
    if list.len() == 0 {
        Seq::empty()
    } else if list.last() == item {
        without(list.drop_last(), item)
    } else {
        without(list.drop_last(), item).push(list.last())
    }
}

/// `without` takes away the item and nothing else.
pub proof fn lemma_without(list: Seq<Seq<char>>, item: Seq<char>, other: Seq<char>)
    ensures
        without(list, item).contains(other) <==> list.contains(other) && other != item,
    decreases list.len(),
{
    if list.len() > 0 {
        let front = list.drop_last();
        lemma_without(front, item, other);
        let left = without(front, item);
        assert(list =~= front.push(list.last()));
        lemma_push_contains(front, list.last(), other);
        lemma_push_contains(left, list.last(), other);
    }
}

/// What a list holds with one more item.
pub proof fn lemma_push_contains(list: Seq<Seq<char>>, item: Seq<char>, other: Seq<char>)
    ensures
        list.push(item).contains(other) <==> list.contains(other) || other == item,
{
    let longer = list.push(item);
    assert(longer[list.len() as int] == item);
    if list.contains(other) {
        let i = choose|i: int| 0 <= i < list.len() && list[i] == other;
        assert(longer[i] == other);
    }
    if longer.contains(other) && other != item {
        let i = choose|i: int| 0 <= i < longer.len() && longer[i] == other;
        assert(list[i] == other);
    }
}

/// A list of the same strings.
pub fn clone_list(list: &Vec<String>) -> (r: Vec<String>)
    ensures
        views(r@) == views(list@),
{
    let mut out: Vec<String> = Vec::new();
    let mut i: usize = 0;
    while i < list.len()
        invariant
            i <= list@.len(),
            out@.len() == i,
            forall|j: int| 0 <= j < i ==> out@[j]@ == list@[j]@,
        decreases list.len() - i,
    {
        out.push(String::from_str(list[i].as_str()));
        i = i + 1;
    }
    assert(views(out@) =~= views(list@));
    out
}

/// An optional string with the same characters.
pub fn clone_opt(s: &Option<String>) -> (r: Option<String>)
    ensures
        view_opt(r) == view_opt(*s),
{
    match s {
        Some(s) => Some(String::from_str(s.as_str())),
        None => None,
    }
}

// ---------------------------------------------------------------------------
// Prefixes, suffixes and searches
// ---------------------------------------------------------------------------

/// Whether `p` stands in `s` at position `i`.
pub open spec fn matches_at(s: Seq<char>, p: Seq<char>, i: int) -> bool {
    0 <= i && i + p.len() <= s.len() && s.subrange(i, i + p.len()) == p
}

/// Whether `s` begins with `p`.
pub open spec fn has_prefix(s: Seq<char>, p: Seq<char>) -> bool {
    matches_at(s, p, 0)
}

/// Whether `s` ends with `p`.
pub open spec fn has_suffix(s: Seq<char>, p: Seq<char>) -> bool {
    matches_at(s, p, s.len() - p.len())
}

/// Whether `p` stands somewhere in `s`.
pub open spec fn has_part(s: Seq<char>, p: Seq<char>) -> bool {
    exists|i: int| #[trigger] matches_at(s, p, i)
}

/// Whether `i` is the first position of `p` in `s`.
pub open spec fn is_first_match(s: Seq<char>, p: Seq<char>, i: int) -> bool {
    &&& matches_at(s, p, i)
    &&& forall|j: int| 0 <= j < i ==> !#[trigger] matches_at(s, p, j)
}

/// The first position of `p` in `s`.
pub open spec fn find(s: Seq<char>, p: Seq<char>) -> Option<int> {
    if has_part(s, p) {
        Some(choose|i: int| is_first_match(s, p, i))
    } else {
        None
    }
}

/// The position of the first `c` in `s`, and the length of `s` where there is none.
pub open spec fn first_index(s: Seq<char>, c: char) -> int
    decreases s.len(),
{
    if s.len() == 0 || s[0] == c {
        0
    } else {
        1 + first_index(s.drop_first(), c)
    }
}

/// What stands in `s` before the first `c`, and the whole of `s` where there is none.
pub open spec fn before(s: Seq<char>, c: char) -> Seq<char> {
    s.take(first_index(s, c))
}

/// What stands in `s` behind the first `c`, and nothing where there is none.
pub open spec fn behind(s: Seq<char>, c: char) -> Seq<char> {
    if first_index(s, c) < s.len() {
        s.skip(first_index(s, c) + 1)
    } else {
        Seq::empty()
    }
}

/// `first_index` points at the first `c`, if there is one.
pub proof fn lemma_first_index(s: Seq<char>, c: char)
    ensures
        0 <= first_index(s, c) <= s.len(),
        forall|i: int| 0 <= i < first_index(s, c) ==> s[i] != c,
        first_index(s, c) < s.len() ==> s[first_index(s, c)] == c,
        s.contains(c) <==> first_index(s, c) < s.len(),
    decreases s.len(),
{
    if s.len() == 0 || s[0] == c {
    } else {
        let t = s.drop_first();
        lemma_first_index(t, c);
        assert forall|i: int| 0 <= i < first_index(s, c) implies s[i] != c by {
            if i > 0 {
                assert(s[i] == t[i - 1]);
            }
        }
        if first_index(s, c) < s.len() {
            assert(s[first_index(s, c)] == t[first_index(t, c)]);
        }
    }
    let k = first_index(s, c);
    if k < s.len() {
        assert(s.contains(c));
    } else if s.contains(c) {
        let i = choose|i: int| 0 <= i < s.len() && s[i] == c;
        assert(i < k);
    }
}

/// A position with no `c` before it and `c` at it, or the end, is `first_index`.
pub proof fn lemma_first_index_unique(s: Seq<char>, c: char, k: int)
    requires
        0 <= k <= s.len(),
        forall|i: int| 0 <= i < k ==> s[i] != c,
        k < s.len() ==> s[k] == c,
    ensures
        first_index(s, c) == k,
{
    lemma_first_index(s, c);
    let f = first_index(s, c);
    if f < k {
        assert(s[f] != c);
    } else if k < f {
        assert(s[k] != c);
    }
}

/// `find` gives the first position of `p`, wherever `p` stands in `s`.
pub proof fn lemma_find(s: Seq<char>, p: Seq<char>)
    ensures
        match find(s, p) {
            Some(i) => is_first_match(s, p, i),
            None => forall|i: int| !#[trigger] matches_at(s, p, i),
        },
{
    if has_part(s, p) {
        let w = choose|i: int| #[trigger] matches_at(s, p, i);
        lemma_some_first_match(s, p, w);
    }
}

proof fn lemma_some_first_match(s: Seq<char>, p: Seq<char>, w: int)
    requires
        matches_at(s, p, w),
    ensures
        exists|i: int| is_first_match(s, p, i),
    decreases w,
{
    if forall|j: int| 0 <= j < w ==> !#[trigger] matches_at(s, p, j) {
        assert(is_first_match(s, p, w));
    } else {
        let j = choose|j: int| 0 <= j < w && #[trigger] matches_at(s, p, j);
        lemma_some_first_match(s, p, j);
    }
}

/// The first position of `p` in `s` is `find`.
pub proof fn lemma_find_unique(s: Seq<char>, p: Seq<char>, k: int)
    requires
        is_first_match(s, p, k),
    ensures
        find(s, p) == Some(k),
{
    assert(has_part(s, p));
    lemma_find(s, p);
    let f = find(s, p)->0;
    if f < k {
        assert(!matches_at(s, p, f));
    } else if k < f {
        assert(!matches_at(s, p, k));
    }
}

/// Whether `p` stands in `s` at position `at`.
pub fn stands_at(s: &Vec<char>, p: &Vec<char>, at: usize) -> (r: bool)
    requires
        at <= s@.len(),
    ensures
        r == matches_at(s@, p@, at as int),
{
    if p.len() > s.len() - at {
        return false;
    }
    let end: usize = at + p.len();
    let mut i: usize = 0;
    while i < p.len()
        invariant
            i <= p@.len(),
            end == at + p@.len(),
            end <= s@.len(),
            forall|j: int| 0 <= j < i ==> s@[at + j] == p@[j],
        decreases p.len() - i,
    {
        if s[at + i] != p[i] {
            assert(s@.subrange(at as int, at + p@.len())[i as int] != p@[i as int]);
            return false;
        }
        i = i + 1;
    }
    assert(s@.subrange(at as int, at + p@.len()) =~= p@);
    true
}

/// The first position of `p` in `s`.
pub fn find_part(s: &Vec<char>, p: &Vec<char>) -> (r: Option<usize>)
    ensures
        match r {
            Some(i) => find(s@, p@) == Some(i as int) && i + p@.len() <= s@.len(),
            None => find(s@, p@) is None,
        },
{
    let mut i: usize = 0;
    loop
        invariant
            i <= s@.len(),
            forall|j: int| 0 <= j < i ==> !#[trigger] matches_at(s@, p@, j),
        decreases s.len() - i,
    {
        if stands_at(s, p, i) {
            proof {
                assert(is_first_match(s@, p@, i as int));
                lemma_find_unique(s@, p@, i as int);
            }
            return Some(i);
        }
        if i == s.len() {
            proof {
                lemma_find(s@, p@);
            }
            return None;
        }
        i = i + 1;
    }
}

/// The position of the first `c` in `s` at or behind `from`, and the length of
/// `s` where there is none.
pub fn find_char(s: &Vec<char>, from: usize, c: char) -> (r: usize)
    requires
        from <= s@.len(),
    ensures
        from <= r <= s@.len(),
        r - from == first_index(s@.skip(from as int), c),
{
    let mut i: usize = from;
    while i < s.len() && s[i] != c
        invariant
            from <= i <= s@.len(),
            forall|j: int| from <= j < i ==> s@[j] != c,
        decreases s.len() - i,
    {
        i = i + 1;
    }
    proof {
        lemma_first_index_unique(s@.skip(from as int), c, i - from);
    }
    i
}

/// Whether `s` begins with `p`.
pub fn starts_with(s: &str, p: &str) -> (r: bool)
    ensures
        r == has_prefix(s@, p@),
{
    let a = chars_of(s);
    let b = chars_of(p);
    stands_at(&a, &b, 0)
}

/// What is left of `s` without the prefix `p`.
pub fn strip_prefix(s: &str, p: &str) -> (r: Option<String>)
    ensures
        view_opt(r) == (if has_prefix(s@, p@) {
            Some(s@.skip(p@.len() as int))
        } else {
            None
        }),
{
    let a = chars_of(s);
    let b = chars_of(p);
    if stands_at(&a, &b, 0) {
        let rest = string_of(&a, b.len(), a.len());
        assert(rest@ =~= s@.skip(p@.len() as int));
        Some(rest)
    } else {
        None
    }
}

/// Whether `s` ends with `p`.
pub fn ends_with(s: &str, p: &str) -> (r: bool)
    ensures
        r == has_suffix(s@, p@),
{
    let a = chars_of(s);
    let b = chars_of(p);
    if b.len() <= a.len() {
        stands_at(&a, &b, a.len() - b.len())
    } else {
        false
    }
}

/// What is left of `s` without the suffix `p`, where it has it.
pub open spec fn without_suffix(s: Seq<char>, p: Seq<char>) -> Seq<char> {
    if has_suffix(s, p) {
        s.take(s.len() - p.len())
    } else {
        s
    }
}

/// `s` without the suffix `p`, where it has it.
pub fn drop_suffix(s: &str, p: &str) -> (r: String)
    ensures
        r@ == without_suffix(s@, p@),
{
    let a = chars_of(s);
    let b = chars_of(p);
    if b.len() <= a.len() && stands_at(&a, &b, a.len() - b.len()) {
        let rest = string_of(&a, 0, a.len() - b.len());
        assert(rest@ =~= s@.take(s@.len() - p@.len()));
        rest
    } else {
        String::from_str(s)
    }
}

/// Whether `p` stands somewhere in `s`.
pub fn contains(s: &str, p: &str) -> (r: bool)
    ensures
        r == has_part(s@, p@),
{
    let a = chars_of(s);
    let b = chars_of(p);
    find_part(&a, &b).is_some()
}

// ---------------------------------------------------------------------------
// Whitespace
// ---------------------------------------------------------------------------

/// The characters with the Unicode property `White_Space`.
pub open spec fn is_space(c: char) -> bool {
    ||| 9 <= c as u32 <= 13
    ||| c as u32 == 0x20
    ||| c as u32 == 0x85
    ||| c as u32 == 0xA0
    ||| c as u32 == 0x1680
    ||| 0x2000 <= c as u32 <= 0x200A
    ||| c as u32 == 0x2028
    ||| c as u32 == 0x2029
    ||| c as u32 == 0x202F
    ||| c as u32 == 0x205F
    ||| c as u32 == 0x3000
}

/// `s` without the white space in front.
pub open spec fn trim_front(s: Seq<char>) -> Seq<char>
    decreases s.len(),
{
    if s.len() > 0 && is_space(s[0]) {
        trim_front(s.drop_first())
    } else {
        s
    }
}

/// `s` without the white space at its end.
pub open spec fn trim_back(s: Seq<char>) -> Seq<char>
    decreases s.len(),
{
    if s.len() > 0 && is_space(s.last()) {
        trim_back(s.drop_last())
    } else {
        s
    }
}

/// `s` without the white space at both ends.
pub open spec fn trimmed(s: Seq<char>) -> Seq<char> {
    trim_back(trim_front(s))
}

/// Whether `c` is white space.
pub fn space(c: char) -> (r: bool)
    ensures
        r == is_space(c),
{
    let n: u32 = c as u32;
    (9 <= n && n <= 13) || n == 0x20 || n == 0x85 || n == 0xA0 || n == 0x1680 || (0x2000 <= n && n
        <= 0x200A) || n == 0x2028 || n == 0x2029 || n == 0x202F || n == 0x205F || n == 0x3000
}

/// `s` without the white space at both ends.
pub fn trim(s: &str) -> (r: String)
    ensures
        r@ == trimmed(s@),
{
    let a = chars_of(s);
    let mut i: usize = 0;
    assert(a@.skip(0) =~= a@);
    while i < a.len() && space(a[i])
        invariant
            i <= a@.len(),
            a@ == s@,
            trim_front(s@) == trim_front(a@.skip(i as int)),
        decreases a.len() - i,
    {
        assert(a@.skip(i as int).drop_first() =~= a@.skip(i + 1));
        i = i + 1;
    }
    let mut j: usize = a.len();
    assert(a@.subrange(i as int, j as int) =~= a@.skip(i as int));
    while j > i && space(a[j - 1])
        invariant
            i <= j <= a@.len(),
            a@ == s@,
            trimmed(s@) == trim_back(a@.subrange(i as int, j as int)),
        decreases j,
    {
        assert(a@.subrange(i as int, j as int).drop_last() =~= a@.subrange(i as int, j - 1));
        j = j - 1;
    }
    string_of(&a, i, j)
}

// ---------------------------------------------------------------------------
// Numbers
// ---------------------------------------------------------------------------

/// The decimal digit `d`.
pub open spec fn digit_char(d: nat) -> char {
    (('0' as u32 + d) as u32) as char
}

/// Whether `c` is an ASCII digit.
pub open spec fn is_digit(c: char) -> bool {
    '0' as u32 <= c as u32 <= '9' as u32
}

/// The digits of `n` in base ten, without leading zeros.
pub open spec fn decimal(n: nat) -> Seq<char>
    decreases n,
{
    if n < 10 {
        seq![digit_char(n)]
    } else {
        decimal(n / 10).push(digit_char(n % 10))
    }
}

/// Whether `s` is made of digits alone.
pub open spec fn all_digits(s: Seq<char>) -> bool {
    forall|i: int| 0 <= i < s.len() ==> is_digit(#[trigger] s[i])
}

/// The number that the digits `s` write in base ten.
pub open spec fn digits_value(s: Seq<char>) -> nat
    decreases s.len(),
{
    if s.len() == 0 {
        0
    } else {
        digits_value(s.drop_last()) * 10 + (s.last() as u32 - '0' as u32) as nat
    }
}

/// The digits of a number, with an optional `+` in front taken away.
pub open spec fn unsigned_digits(s: Seq<char>) -> Seq<char> {
    if s.len() > 0 && s[0] == '+' {
        s.drop_first()
    } else {
        s
    }
}

/// The 64-bit number that `s` writes: an optional `+`, then at least one digit.
pub open spec fn number(s: Seq<char>) -> Option<u64> {
    let d = unsigned_digits(s);
    if d.len() > 0 && all_digits(d) && digits_value(d) <= u64::MAX {
        Some(digits_value(d) as u64)
    } else {
        None
    }
}

/// Reading back the digits of a number gives the number.
pub proof fn lemma_decimal(n: nat)
    ensures
        decimal(n).len() > 0,
        all_digits(decimal(n)),
        digits_value(decimal(n)) == n,
    decreases n,
{
    if n < 10 {
        let s = seq![digit_char(n)];
        assert(s.drop_last() =~= Seq::<char>::empty());
        assert(digits_value(s.drop_last()) == 0);
    } else {
        lemma_decimal(n / 10);
        let d = decimal(n / 10);
        let s = d.push(digit_char(n % 10));
        assert(s.drop_last() =~= d);
        assert forall|i: int| 0 <= i < s.len() implies is_digit(#[trigger] s[i]) by {
            if i < d.len() {
                assert(is_digit(d[i]));
            }
        }
    }
}

/// A 64-bit number is read back from its digits.
pub proof fn lemma_number_of_decimal(n: u64)
    ensures
        number(decimal(n as nat)) == Some(n),
{
    lemma_decimal(n as nat);
    let d = decimal(n as nat);
    assert(is_digit(d[0]));
    assert(unsigned_digits(d) == d);
}

/// Digits in front of others write a smaller number.
proof fn lemma_digits_value_prefix(s: Seq<char>, k: int)
    requires
        all_digits(s),
        0 <= k <= s.len(),
    ensures
        digits_value(s.take(k)) <= digits_value(s),
    decreases s.len() - k,
{
    if k < s.len() {
        lemma_digits_value_prefix(s, k + 1);
        assert(s.take(k + 1).drop_last() =~= s.take(k));
        assert(is_digit(s[k]));
    } else {
        assert(s.take(k) =~= s);
    }
}

/// The digits of `n`.
pub fn format_u128(n: u128) -> (r: String)
    ensures
        r@ == decimal(n as nat),
    decreases n,
{
    let d: u8 = (n % 10) as u8;
    let c: char = (48 + d) as char;
    assert(c == digit_char((n % 10) as nat));
    if n < 10 {
        let mut out = String::new();
        out.push(c);
        assert(out@ =~= decimal(n as nat));
        out
    } else {
        let mut out = format_u128(n / 10);
        out.push(c);
        out
    }
}

/// The digits of `n`.
pub fn format_u64(n: u64) -> (r: String)
    ensures
        r@ == decimal(n as nat),
{
    format_u128(n as u128)
}

/// The number that `s` writes.
pub fn parse_u64(s: &str) -> (r: Option<u64>)
    ensures
        r == number(s@),
{
    let a = chars_of(s);
    let start: usize = if a.len() > 0 && a[0] == '+' {
        1
    } else {
        0
    };
    let ghost d = unsigned_digits(s@);
    assert(d =~= a@.skip(start as int));
    if start == a.len() {
        return None;
    }
    let mut n: u64 = 0;
    let mut i: usize = start;
    while i < a.len()
        invariant
            start <= i <= a@.len(),
            start < a@.len(),
            d == a@.skip(start as int),
            d == unsigned_digits(s@),
            all_digits(d.take(i - start)),
            n == digits_value(d.take(i - start)),
        decreases a.len() - i,
    {
        let c: u32 = a[i] as u32;
        assert(a@[i as int] == d[i - start]);
        if c < 48 || c > 57 {
            assert(!is_digit(d[i - start]));
            return None;
        }
        proof {
            let t = d.take(i - start + 1);
            assert(t.drop_last() =~= d.take(i - start));
            assert forall|j: int| 0 <= j < t.len() implies is_digit(#[trigger] t[j]) by {
                if j < i - start {
                    assert(d.take(i - start)[j] == t[j]);
                    assert(is_digit(d.take(i - start)[j]));
                }
            }
            if all_digits(d) {
                lemma_digits_value_prefix(d, i - start + 1);
            }
        }
        let v: u64 = (c - 48) as u64;
        if n > (u64::MAX - v) / 10 {
            assert(n * 10 + v > u64::MAX);
            return None;
        }
        n = n * 10 + v;
        i = i + 1;
    }
    assert(d.take(d.len() as int) =~= d);
    Some(n)
}

// ---------------------------------------------------------------------------
// Case
// ---------------------------------------------------------------------------

/// `c` with an ASCII capital made small.
pub open spec fn small(c: char) -> int {
    if 65 <= c as int <= 90 {
        c as int + 32
    } else {
        c as int
    }
}

/// Whether `a` and `b` are the same but for the case of ASCII letters.
pub open spec fn same_ignoring_case(a: Seq<char>, b: Seq<char>) -> bool {
    &&& a.len() == b.len()
    &&& forall|i: int| 0 <= i < a.len() ==> small(#[trigger] a[i]) == small(b[i])
}

/// The code point of `c` with an ASCII capital made small.
fn small_code(c: char) -> (r: u32)
    ensures
        r == small(c),
{
    let n: u32 = c as u32;
    if 65 <= n && n <= 90 {
        n + 32
    } else {
        n
    }
}

/// Whether `a` and `b` are the same but for the case of ASCII letters.
pub fn eq_ignore_ascii_case(a: &str, b: &str) -> (r: bool)
    ensures
        r == same_ignoring_case(a@, b@),
{
    let x = chars_of(a);
    let y = chars_of(b);
    if x.len() != y.len() {
        return false;
    }
    let mut i: usize = 0;
    while i < x.len()
        invariant
            i <= x@.len(),
            x@.len() == y@.len(),
            x@ == a@,
            y@ == b@,
            forall|j: int| 0 <= j < i ==> small(#[trigger] x@[j]) == small(y@[j]),
        decreases x.len() - i,
    {
        if small_code(x[i]) != small_code(y[i]) {
            assert(small(a@[i as int]) != small(b@[i as int]));
            return false;
        }
        i = i + 1;
    }
    true
}

// ---------------------------------------------------------------------------
// Lines
// ---------------------------------------------------------------------------

/// A line that a line feed ended, without the carriage return before it.
pub open spec fn without_cr(line: Seq<char>) -> Seq<char> {
    if line.len() > 0 && line.last() == '\r' {
        line.drop_last()
    } else {
        line
    }
}

/// The first line of a text that is not empty.
pub open spec fn first_line(s: Seq<char>) -> Seq<char> {
    if first_index(s, '\n') < s.len() {
        without_cr(before(s, '\n'))
    } else {
        s
    }
}

/// The lines of `s`. A line feed, with or without a carriage return before it,
/// ends a line; one at the end of `s` begins no new line.
pub open spec fn lines(s: Seq<char>) -> Seq<Seq<char>>
    decreases s.len(),
{
    if s.len() == 0 {
        Seq::empty()
    } else {
        proof {
            lemma_first_index(s, '\n');
        }
        seq![first_line(s)] + lines(behind(s, '\n'))
    }
}

/// The lines of `s`.
pub fn split_lines(s: &str) -> (r: Vec<String>)
    ensures
        views(r@) == lines(s@),
{
    let cs = chars_of(s);
    let mut out: Vec<String> = Vec::new();
    let mut i: usize = 0;
    assert(cs@.skip(0) =~= s@);
    assert(views(out@) + lines(s@) =~= lines(s@));
    while i < cs.len()
        invariant
            i <= cs@.len(),
            views(out@) + lines(cs@.skip(i as int)) == lines(s@),
        decreases cs.len() - i,
    {
        let ghost rest = cs@.skip(i as int);
        let ghost was = views(out@);
        let end = find_char(&cs, i, '\n');
        let stop: usize = if end < cs.len() && end > i && cs[end - 1] == '\r' {
            end - 1
        } else {
            end
        };
        let line = string_of(&cs, i, stop);
        proof {
            assert(before(rest, '\n') =~= cs@.subrange(i as int, end as int));
            if end < cs@.len() {
                let b = before(rest, '\n');
                if end > i {
                    assert(b.last() == cs@[end - 1]);
                }
                assert(line@ =~= without_cr(b));
            } else {
                assert(line@ =~= rest);
            }
            assert(line@ == first_line(rest));
        }
        let ghost l = line@;
        out.push(line);
        assert(views(out@) =~= was.push(l));
        let next: usize = if end < cs.len() {
            end + 1
        } else {
            end
        };
        assert(cs@.skip(next as int) =~= behind(rest, '\n'));
        assert(views(out@) + lines(behind(rest, '\n')) =~= was + lines(rest));
        i = next;
    }
    assert(cs@.skip(i as int) =~= Seq::<char>::empty());
    assert(views(out@) =~= views(out@) + lines(cs@.skip(i as int)));
    out
}

/// The strings of `list` with `sep` between each two.
pub open spec fn join(list: Seq<Seq<char>>, sep: Seq<char>) -> Seq<char>
    decreases list.len(),
{
    if list.len() == 0 {
        Seq::empty()
    } else if list.len() == 1 {
        list[0]
    } else {
        join(list.drop_last(), sep) + sep + list.last()
    }
}

/// The strings of `list` from position `from` on, with `sep` between each two.
pub fn join_from(list: &Vec<String>, from: usize, sep: &str) -> (r: String)
    requires
        from <= list@.len(),
    ensures
        r@ == join(views(list@).skip(from as int), sep@),
{
    let mut out = String::new();
    let mut i: usize = from;
    let ghost all = views(list@).skip(from as int);
    assert(join(all.take(0), sep@) =~= out@);
    while i < list.len()
        invariant
            from <= i <= list@.len(),
            all == views(list@).skip(from as int),
            out@ == join(all.take(i - from), sep@),
        decreases list.len() - i,
    {
        let ghost t = all.take(i - from + 1);
        assert(t.drop_last() =~= all.take(i - from));
        assert(t.last() == list@[i as int]@);
        let ghost was = out@;
        if i > from {
            out.append(sep);
        }
        out.append(list[i].as_str());
        proof {
            if i > from {
                assert(out@ =~= was + sep@ + list@[i as int]@);
            } else {
                assert(out@ =~= list@[i as int]@);
            }
        }
        i = i + 1;
    }
    assert(all.take(i - from) =~= all);
    out
}

/// The last lines of `s`, `n` at most.
pub open spec fn last_lines(s: Seq<char>, n: int) -> Seq<char> {
    let all = lines(s);
    join(
        all.skip(
            if all.len() > n {
                all.len() - n
            } else {
                0
            },
        ),
        "\n"@,
    )
}

/// The last lines of `s`, `n` at most.
pub fn tail_lines(s: &str, n: usize) -> (r: String)
    ensures
        r@ == last_lines(s@, n as int),
{
    let all = split_lines(s);
    assert(views(all@).len() == all@.len());
    let from: usize = if all.len() > n {
        all.len() - n
    } else {
        0
    };
    join_from(&all, from, "\n")
}

// ---------------------------------------------------------------------------
// Replacing characters
// ---------------------------------------------------------------------------

/// `s` with each `a` made `b`.
pub open spec fn replaced(s: Seq<char>, a: char, b: char) -> Seq<char> {
    Seq::new(
        s.len(),
        |i: int|
            if s[i] == a {
                b
            } else {
                s[i]
            },
    )
}

/// `s` with each `a` made `b`.
pub fn replace_char(s: &str, a: char, b: char) -> (r: String)
    ensures
        r@ == replaced(s@, a, b),
{
    let cs = chars_of(s);
    let mut out = String::new();
    let mut i: usize = 0;
    assert(out@ =~= replaced(s@, a, b).take(0));
    while i < cs.len()
        invariant
            i <= cs@.len(),
            cs@ == s@,
            out@ == replaced(s@, a, b).take(i as int),
        decreases cs.len() - i,
    {
        let c = cs[i];
        if c == a {
            out.push(b);
        } else {
            out.push(c);
        }
        assert(out@ =~= replaced(s@, a, b).take(i + 1));
        i = i + 1;
    }
    assert(replaced(s@, a, b).take(i as int) =~= replaced(s@, a, b));
    out
}

/// `s` without the characters `a` and `b` at its end.
pub open spec fn without_end(s: Seq<char>, a: char, b: char) -> Seq<char>
    decreases s.len(),
{
    if s.len() > 0 && (s.last() == a || s.last() == b) {
        without_end(s.drop_last(), a, b)
    } else {
        s
    }
}

/// `s` without the characters `a` and `b` at its end.
pub fn trim_end_chars(s: &str, a: char, b: char) -> (r: String)
    ensures
        r@ == without_end(s@, a, b),
{
    let cs = chars_of(s);
    let mut n: usize = cs.len();
    assert(cs@.take(n as int) =~= s@);
    while n > 0 && (cs[n - 1] == a || cs[n - 1] == b)
        invariant
            n <= cs@.len(),
            without_end(cs@.take(n as int), a, b) == without_end(s@, a, b),
        decreases n,
    {
        assert(cs@.take(n as int).drop_last() =~= cs@.take(n - 1));
        n = n - 1;
    }
    let r = string_of(&cs, 0, n);
    assert(r@ =~= cs@.take(n as int));
    r
}

// ---------------------------------------------------------------------------
// What holds of texts
// ---------------------------------------------------------------------------

/// A text begins and ends with what was put there, and nothing shorter does.
pub proof fn law_ends_are_found(p: Seq<char>, rest: Seq<char>)
    ensures
        has_prefix(p + rest, p),
        has_suffix(rest + p, p),
        without_suffix(rest + p, p) == rest,
        rest.len() < p.len() ==> !has_prefix(rest, p) && !has_suffix(rest, p),
{
    assert((p + rest).subrange(0, p.len() as int) =~= p);
    let t = rest + p;
    assert(t.subrange(rest.len() as int, t.len() as int) =~= p);
    assert(t.take(rest.len() as int) =~= rest);
}

/// The first occurrence of a character parts a text in two.
pub proof fn law_first_character_parts(front: Seq<char>, c: char, back: Seq<char>)
    requires
        !front.contains(c),
    ensures
        before(front + seq![c] + back, c) == front,
        behind(front + seq![c] + back, c) == back,
        before(front, c) == front,
        behind(front, c).len() == 0,
{
    let t = front + seq![c] + back;
    assert forall|i: int| 0 <= i < front.len() implies t[i] != c by {
        assert(front.contains(front[i]));
    }
    assert forall|i: int| 0 <= i < front.len() implies front[i] != c by {
        assert(front.contains(front[i]));
    }
    lemma_first_index_unique(t, c, front.len() as int);
    lemma_first_index_unique(front, c, front.len() as int);
    assert(before(t, c) =~= front);
    assert(behind(t, c) =~= back);
    assert(before(front, c) =~= front);
}

/// Whether a text is white space alone.
pub open spec fn is_blank(s: Seq<char>) -> bool {
    forall|i: int| 0 <= i < s.len() ==> is_space(#[trigger] s[i])
}

proof fn lemma_trim_front_of(pad: Seq<char>, rest: Seq<char>)
    requires
        is_blank(pad),
        rest.len() > 0 ==> !is_space(rest[0]),
    ensures
        trim_front(pad + rest) == rest,
    decreases pad.len(),
{
    let t = pad + rest;
    if pad.len() > 0 {
        assert(t[0] == pad[0]);
        assert(t.drop_first() =~= pad.drop_first() + rest);
        assert forall|i: int| 0 <= i < pad.drop_first().len() implies is_space(
            #[trigger] pad.drop_first()[i],
        ) by {
            assert(pad.drop_first()[i] == pad[i + 1]);
        }
        lemma_trim_front_of(pad.drop_first(), rest);
    } else {
        assert(t =~= rest);
    }
}

proof fn lemma_trim_back_of(rest: Seq<char>, pad: Seq<char>)
    requires
        is_blank(pad),
        rest.len() > 0 ==> !is_space(rest.last()),
    ensures
        trim_back(rest + pad) == rest,
    decreases pad.len(),
{
    let t = rest + pad;
    if pad.len() > 0 {
        assert(t.last() == pad.last());
        assert(t.drop_last() =~= rest + pad.drop_last());
        assert forall|i: int| 0 <= i < pad.drop_last().len() implies is_space(
            #[trigger] pad.drop_last()[i],
        ) by {
            assert(pad.drop_last()[i] == pad[i]);
        }
        lemma_trim_back_of(rest, pad.drop_last());
    } else {
        assert(t =~= rest);
    }
}

/// Trimming takes away the white space around a text, and nothing else.
pub proof fn law_trim_takes_the_white_space(front: Seq<char>, text: Seq<char>, back: Seq<char>)
    requires
        is_blank(front),
        is_blank(back),
        text.len() > 0 ==> !is_space(text[0]) && !is_space(text.last()),
    ensures
        trimmed(front + text + back) == text,
{
    if text.len() > 0 {
        assert(front + text + back =~= front + (text + back));
        assert((text + back)[0] == text[0]);
        lemma_trim_front_of(front, text + back);
        lemma_trim_back_of(text, back);
    } else {
        let all = front + text + back;
        assert(is_blank(all)) by {
            assert forall|i: int| 0 <= i < all.len() implies is_space(#[trigger] all[i]) by {
                if i < front.len() {
                    assert(all[i] == front[i]);
                } else {
                    assert(all[i] == back[i - front.len()]);
                }
            }
        }
        assert(all + Seq::<char>::empty() =~= all);
        lemma_trim_front_of(all, Seq::<char>::empty());
        assert(text =~= Seq::<char>::empty());
    }
}

/// Blanks, tabs and the ends of lines are white space; letters, digits and signs are
/// not.
pub proof fn law_what_white_space_is(c: char)
    ensures
        is_space(' ') && is_space('\t') && is_space('\n') && is_space('\r'),
        33 <= c as u32 <= 126 ==> !is_space(c),
{
}

/// The digits of a number write it: each digit counts ten times the one behind it.
pub proof fn law_decimal_is_positional(n: nat, d: nat)
    requires
        d < 10,
        n > 0,
    ensures
        decimal(10 * n + d) == decimal(n) + decimal(d),
        decimal(d).len() == 1 && decimal(d)[0] as u32 == '0' as u32 + d,
{
    assert((10 * n + d) / 10 == n);
    assert((10 * n + d) % 10 == d);
    assert(decimal(10 * n + d) =~= decimal(n) + decimal(d));
}

/// What is written as digits is read as that number, with a plus sign or without, and
/// what holds anything else is no number.
pub proof fn law_numbers_are_read(n: u64, s: Seq<char>, i: int)
    ensures
        number(decimal(n as nat)) == Some(n),
        number(seq!['+'] + decimal(n as nat)) == Some(n),
        number(Seq::empty()) is None,
        0 <= i < s.len() && !('0' as u32 <= s[i] as u32 <= '9' as u32) && !(i == 0 && s[0] == '+')
            ==> number(s) is None,
{
    lemma_number_of_decimal(n);
    lemma_decimal(n as nat);
    let d = decimal(n as nat);
    assert(is_digit(d[0]));
    assert((seq!['+'] + d).drop_first() =~= d);
    if 0 <= i < s.len() && !is_digit(s[i]) && !(i == 0 && s[0] == '+') {
        let u = unsigned_digits(s);
        if s[0] == '+' {
            assert(u[i - 1] == s[i]);
        } else {
            assert(u[i] == s[i]);
        }
    }
}

/// Letters that differ only in their case are the same where the case is ignored; all
/// other characters are the same only as themselves.
pub proof fn law_case_is_ignored(a: Seq<char>, b: Seq<char>)
    ensures
        same_ignoring_case(a, a),
        same_ignoring_case(a, b) == same_ignoring_case(b, a),
        same_ignoring_case(a, b) <==> a.len() == b.len() && forall|i: int|
            0 <= i < a.len() ==> {
                ||| #[trigger] a[i] == b[i]
                ||| 'A' as int <= a[i] as int <= 'Z' as int && b[i] as int == a[i] as int + 32
                ||| 'A' as int <= b[i] as int <= 'Z' as int && a[i] as int == b[i] as int + 32
            },
{
    if same_ignoring_case(a, b) {
        assert forall|i: int| 0 <= i < a.len() implies {
            ||| #[trigger] a[i] == b[i]
            ||| 'A' as int <= a[i] as int <= 'Z' as int && b[i] as int == a[i] as int + 32
            ||| 'A' as int <= b[i] as int <= 'Z' as int && a[i] as int == b[i] as int + 32
        } by {
            assert(small(a[i]) == small(b[i]));
        }
        assert forall|i: int| 0 <= i < b.len() implies small(#[trigger] b[i]) == small(a[i]) by {
            assert(small(a[i]) == small(b[i]));
        }
    }
    if same_ignoring_case(b, a) {
        assert forall|i: int| 0 <= i < a.len() implies small(#[trigger] a[i]) == small(b[i]) by {
            assert(small(b[i]) == small(a[i]));
        }
    }
    if a.len() == b.len() && forall|i: int|
        0 <= i < a.len() ==> {
            ||| #[trigger] a[i] == b[i]
            ||| 'A' as int <= a[i] as int <= 'Z' as int && b[i] as int == a[i] as int + 32
            ||| 'A' as int <= b[i] as int <= 'Z' as int && a[i] as int == b[i] as int + 32
        } {
        assert forall|i: int| 0 <= i < a.len() implies small(#[trigger] a[i]) == small(b[i]) by {
            let x = a[i];
            let y = b[i];
            assert(x == y || ('A' as int <= x as int <= 'Z' as int && y as int == x as int + 32) || (
            'A' as int <= y as int <= 'Z' as int && x as int == y as int + 32));
            assert('A' as int == 65 && 'Z' as int == 90);
        }
    }
}

/// A text is the lines that were put into it, each ended by a line feed.
pub proof fn law_lines_are_read(line: Seq<char>, rest: Seq<char>)
    requires
        !line.contains('\n'),
    ensures
        line.len() > 0 && line.last() != '\r' ==> lines(line + seq!['\n'] + rest) == seq![line]
            + lines(rest),
        lines(line + seq!['\r', '\n'] + rest) == seq![line] + lines(rest),
        line.len() > 0 ==> lines(line) == seq![line],
        lines(seq!['\n'] + rest) == seq![Seq::<char>::empty()] + lines(rest),
{
    law_first_character_parts(line, '\n', rest);
    lemma_first_index(line, '\n');
    let t = line + seq!['\n'] + rest;
    lemma_first_index(t, '\n');
    assert(t.contains('\n')) by {
        assert(t[line.len() as int] == '\n');
    }
    let u = line + seq!['\r', '\n'] + rest;
    let front = line + seq!['\r'];
    assert(u =~= front + seq!['\n'] + rest);
    assert(!front.contains('\n')) by {
        if front.contains('\n') {
            let i = choose|i: int| 0 <= i < front.len() && front[i] == '\n';
            if i < line.len() {
                assert(line[i] == '\n');
            }
        }
    }
    law_first_character_parts(front, '\n', rest);
    lemma_first_index(u, '\n');
    assert(u.contains('\n')) by {
        assert(u[front.len() as int] == '\n');
    }
    assert(front.drop_last() =~= line);
    if line.len() > 0 {
        assert(lines(behind(line, '\n')) =~= Seq::<Seq<char>>::empty());
        assert(lines(line) =~= seq![line]);
    }
    let v = seq!['\n'] + rest;
    assert(v =~= Seq::<char>::empty() + seq!['\n'] + rest);
    assert(!Seq::<char>::empty().contains('\n'));
    law_first_character_parts(Seq::<char>::empty(), '\n', rest);
    lemma_first_index(v, '\n');
    assert(v.contains('\n')) by {
        assert(v[0] == '\n');
    }
}

/// Joined texts stand in their order, with the separator between each two.
pub proof fn law_join_keeps_the_order(list: Seq<Seq<char>>, item: Seq<char>, sep: Seq<char>)
    ensures
        join(Seq::empty(), sep).len() == 0,
        join(seq![item], sep) == item,
        list.len() > 0 ==> join(list.push(item), sep) == join(list, sep) + sep + item,
{
    assert(list.push(item).drop_last() =~= list);
}

/// The last lines of a text are the lines at its end, as many as asked for or all.
pub proof fn law_last_lines_are_at_the_end(s: Seq<char>, n: int)
    requires
        0 <= n,
    ensures
        lines(s).len() <= n ==> last_lines(s, n) == join(lines(s), "\n"@),
        lines(s).len() > n ==> last_lines(s, n) == join(
            lines(s).subrange(lines(s).len() - n, lines(s).len() as int),
            "\n"@,
        ),
{
    assert(lines(s).skip(0) =~= lines(s));
    if lines(s).len() > n {
        assert(lines(s).skip(lines(s).len() - n) =~= lines(s).subrange(
            lines(s).len() - n,
            lines(s).len() as int,
        ));
    }
}

/// Replacing a character changes that character everywhere, and no other.
pub proof fn law_replacing_changes_one_character(s: Seq<char>, a: char, b: char, i: int)
    requires
        0 <= i < s.len(),
    ensures
        replaced(s, a, b).len() == s.len(),
        s[i] == a ==> replaced(s, a, b)[i] == b,
        s[i] != a ==> replaced(s, a, b)[i] == s[i],
{
}

/// What is left of a list without an item is all the rest of it, in its order.
pub proof fn law_rest_keeps_its_order(list: Seq<Seq<char>>, item: Seq<char>, other: Seq<char>)
    ensures
        without(list, item).contains(other) <==> list.contains(other) && other != item,
        without(Seq::empty(), item).len() == 0,
        without(list.push(item), item) == without(list, item),
        other != item ==> without(list.push(other), item) == without(list, item).push(other),
{
    lemma_without(list, item, other);
    assert(list.push(item).drop_last() =~= list);
    assert(list.push(other).drop_last() =~= list);
}

/// A text holds what was put between two others, where it was put; and the place that is
/// found is the first.
pub proof fn law_parts_are_found(front: Seq<char>, p: Seq<char>, back: Seq<char>, i: int)
    ensures
        matches_at(front + p + back, p, front.len() as int),
        has_part(front + p + back, p),
        find(front + p + back, p) matches Some(k) && 0 <= k <= front.len() && (front + p
            + back).subrange(k, k + p.len()) == p && (0 <= i < k ==> (front + p + back).subrange(
            i,
            i + p.len(),
        ) != p),
        front.len() < p.len() ==> !has_part(front, p) && find(front, p) is None,
{
    let t = front + p + back;
    assert(t.subrange(front.len() as int, (front.len() + p.len()) as int) =~= p);
    assert(matches_at(t, p, front.len() as int));
    lemma_find(t, p);
    let k = find(t, p)->0;
    assert(is_first_match(t, p, k));
    if 0 <= i < k {
        assert(!matches_at(t, p, i));
    }
}

/// Two characters are taken off the end of a text as often as they stand there, and
/// nothing else is.
pub proof fn law_end_characters_are_taken_off(s: Seq<char>, a: char, b: char)
    ensures
        without_end(Seq::empty(), a, b).len() == 0,
        without_end(s.push(a), a, b) == without_end(s, a, b),
        without_end(s.push(b), a, b) == without_end(s, a, b),
        s.len() > 0 && s.last() != a && s.last() != b ==> without_end(s, a, b) == s,
{
    assert(s.push(a).drop_last() =~= s);
    assert(s.push(b).drop_last() =~= s);
}

} // verus!
