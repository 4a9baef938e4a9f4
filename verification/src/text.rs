//! Character-level helpers shared by the modules that build user-facing text.

use vstd::prelude::*;

verus! {

/// Rust's `char::is_whitespace`: the characters with the Unicode `White_Space`
/// property.
pub open spec fn is_unicode_whitespace(c: char) -> bool {
    let v = c as u32;
    ||| 0x09 <= v <= 0x0D
    ||| v == 0x20
    ||| v == 0x85
    ||| v == 0xA0
    ||| v == 0x1680
    ||| 0x2000 <= v <= 0x200A
    ||| v == 0x2028
    ||| v == 0x2029
    ||| v == 0x202F
    ||| v == 0x205F
    ||| v == 0x3000
}

/// `s` without its trailing whitespace (Rust's `str::trim_end`).
pub open spec fn trim_end(s: Seq<char>) -> Seq<char>
    decreases s.len(),
{
    if s.len() > 0 && is_unicode_whitespace(s.last()) {
        trim_end(s.drop_last())
    } else {
        s
    }
}

pub fn is_whitespace_char(c: char) -> (r: bool)
    ensures
        r == is_unicode_whitespace(c),
{
    let v = c as u32;
    (0x09 <= v && v <= 0x0D) || v == 0x20 || v == 0x85 || v == 0xA0 || v == 0x1680 || (0x2000
        <= v && v <= 0x200A) || v == 0x2028 || v == 0x2029 || v == 0x202F || v == 0x205F || v
        == 0x3000
}

/// Appends one character (`String::push`).
#[verifier::external_body]
pub(crate) fn push_char(s: &mut String, c: char)
    ensures
        final(s)@ == old(s)@.push(c),
{
    s.push(c);
}

/// The string of the characters of `chars`.
pub fn string_from_chars(chars: &Vec<char>) -> (s: String)
    ensures
        s@ == chars@,
{
    let mut s = String::new();
    let mut i: usize = 0;
    while i < chars.len()
        invariant
            i <= chars.len(),
            s@ == chars@.subrange(0, i as int),
        decreases chars.len() - i,
    {
        push_char(&mut s, chars[i]);
        i = i + 1;
        assert(s@ =~= chars@.subrange(0, i as int));
    }
    assert(chars@.subrange(0, chars.len() as int) =~= chars@);
    s
}

/// The characters of `s`, in order.
pub fn chars_of(s: &str) -> (v: Vec<char>)
    ensures
        v@ == s@,
{
    let n = s.unicode_len();
    let mut v: Vec<char> = Vec::new();
    let mut i: usize = 0;
    while i < n
        invariant
            n == s@.len(),
            i <= n,
            v@ == s@.subrange(0, i as int),
        decreases n - i,
    {
        v.push(s.get_char(i));
        i = i + 1;
        assert(v@ =~= s@.subrange(0, i as int));
    }
    assert(s@.subrange(0, n as int) =~= s@);
    v
}

proof fn lemma_trim_end_prefix(s: Seq<char>, k: int)
    requires
        0 <= k <= s.len(),
        forall|i: int| k <= i < s.len() ==> is_unicode_whitespace(#[trigger] s[i]),
    ensures
        trim_end(s) == trim_end(s.subrange(0, k)),
    decreases s.len() - k,
{
    if k < s.len() {
        assert(s.drop_last() =~= s.subrange(0, s.len() - 1));
        lemma_trim_end_prefix(s.drop_last(), k);
        assert(s.drop_last().subrange(0, k) =~= s.subrange(0, k));
    } else {
        assert(s.subrange(0, k) =~= s);
    }
}

/// The characters of `chars` without trailing whitespace.
pub fn trim_end_chars(chars: &Vec<char>) -> (r: Vec<char>)
    ensures
        r@ == trim_end(chars@),
{
    let mut k = chars.len();
    while k > 0 && is_whitespace_char(chars[k - 1])
        invariant
            k <= chars.len(),
            forall|i: int| k <= i < chars.len() ==> is_unicode_whitespace(#[trigger] chars@[i]),
        decreases k,
    {
        k = k - 1;
    }
    proof {
        lemma_trim_end_prefix(chars@, k as int);
        let t = chars@.subrange(0, k as int);
        if k > 0 {
            assert(t.last() == chars@[k - 1]);
        }
    }
    let mut r: Vec<char> = Vec::new();
    let mut i: usize = 0;
    while i < k
        invariant
            k <= chars.len(),
            i <= k,
            r@ == chars@.subrange(0, i as int),
        decreases k - i,
    {
        r.push(chars[i]);
        i = i + 1;
        assert(r@ =~= chars@.subrange(0, i as int));
    }
    r
}

} // verus!

verus! {

/// `s` begins with `p`.
pub open spec fn starts_with(s: Seq<char>, p: Seq<char>) -> bool {
    p.len() <= s.len() && s.subrange(0, p.len() as int) == p
}

/// `p` occurs in `s` at position `i`.
pub open spec fn occurs_at(s: Seq<char>, p: Seq<char>, i: int) -> bool {
    0 <= i && i + p.len() <= s.len() && s.subrange(i, i + p.len()) == p
}

/// `p` occurs somewhere in `s` (Rust's `str::contains` with a string pattern).
pub open spec fn contains(s: Seq<char>, p: Seq<char>) -> bool {
    exists|i: int| occurs_at(s, p, i)
}

/// The items separated by `sep` (Rust's `join`).
pub open spec fn join(items: Seq<Seq<char>>, sep: Seq<char>) -> Seq<char>
    decreases items.len(),
{
    if items.len() == 0 {
        Seq::empty()
    } else if items.len() == 1 {
        items[0]
    } else {
        join(items.drop_last(), sep) + sep + items.last()
    }
}

fn matches_at(s: &Vec<char>, p: &Vec<char>, i: usize) -> (r: bool)
    requires
        i + p@.len() <= s@.len(),
    ensures
        r == occurs_at(s@, p@, i as int),
{
    let n = s.len();
    let mut k: usize = 0;
    while k < p.len()
        invariant
            n == s@.len(),
            i + p@.len() <= s@.len(),
            k <= p@.len(),
            forall|j: int| 0 <= j < k ==> s@[i + j] == p@[j],
        decreases p@.len() - k,
    {
        if s[i + k] != p[k] {
            assert(s@.subrange(i as int, i + p@.len())[k as int] != p@[k as int]);
            return false;
        }
        k = k + 1;
    }
    assert(s@.subrange(i as int, i + p@.len()) =~= p@);
    true
}

/// Whether `s` begins with `p`.
pub fn str_starts_with(s: &str, p: &str) -> (r: bool)
    ensures
        r == starts_with(s@, p@),
{
    let sc = chars_of(s);
    let pc = chars_of(p);
    if pc.len() > sc.len() {
        return false;
    }
    matches_at(&sc, &pc, 0)
}

/// Whether `p` occurs in `s`.
pub fn str_contains(s: &str, p: &str) -> (r: bool)
    ensures
        r == contains(s@, p@),
{
    let sc = chars_of(s);
    let pc = chars_of(p);
    if pc.len() > sc.len() {
        assert forall|i: int| !occurs_at(s@, p@, i) by {}
        return false;
    }
    let last = sc.len() - pc.len();
    let mut i: usize = 0;
    while i <= last
        invariant
            sc@ == s@,
            pc@ == p@,
            last == sc@.len() - pc@.len(),
            i <= last + 1,
            forall|j: int| 0 <= j < i ==> !occurs_at(s@, p@, j),
        decreases last + 1 - i,
    {
        if matches_at(&sc, &pc, i) {
            return true;
        }
        if i == last {
            assert forall|j: int| !occurs_at(s@, p@, j) by {}
            return false;
        }
        i = i + 1;
    }
    assert forall|j: int| !occurs_at(s@, p@, j) by {}
    false
}

/// A new string holding `s`.
pub fn owned(s: &str) -> (r: String)
    ensures
        r@ == s@,
{
    String::from_str(s)
}

/// `a` followed by `b`.
pub fn concat2(a: &str, b: &str) -> (r: String)
    ensures
        r@ == a@ + b@,
{
    let mut r = String::from_str(a);
    r.append(b);
    r
}

/// `a`, `b` and `c` one after the other.
pub fn concat3(a: &str, b: &str, c: &str) -> (r: String)
    ensures
        r@ == a@ + b@ + c@,
{
    let mut r = String::from_str(a);
    r.append(b);
    r.append(c);
    r
}

/// `a`, `b`, `c` and `d` one after the other.
pub fn concat4(a: &str, b: &str, c: &str, d: &str) -> (r: String)
    ensures
        r@ == a@ + b@ + c@ + d@,
{
    let mut r = String::from_str(a);
    r.append(b);
    r.append(c);
    r.append(d);
    r
}

/// The items joined by `sep`.
pub fn join_strings(items: &Vec<String>, sep: &str) -> (r: String)
    ensures
        r@ == join(Seq::new(items@.len(), |i: int| items@[i]@), sep@),
{
    let ghost views = Seq::new(items@.len(), |i: int| items@[i]@);
    let mut r = String::new();
    let mut i: usize = 0;
    while i < items.len()
        invariant
            views == Seq::new(items@.len(), |i: int| items@[i]@),
            i <= items@.len(),
            r@ == join(views.subrange(0, i as int), sep@),
        decreases items@.len() - i,
    {
        let ghost before = r@;
        if i > 0 {
            r.append(sep);
        }
        r.append(items[i].as_str());
        proof {
            let sub = views.subrange(0, i + 1);
            assert(sub.drop_last() =~= views.subrange(0, i as int));
            if i == 0 {
                assert(sub.len() == 1);
                assert(r@ =~= sub[0]);
            }
        }
        i = i + 1;
    }
    assert(views.subrange(0, items@.len() as int) =~= views);
    r
}

/// The decimal digits of `n`.
pub open spec fn decimal(n: nat) -> Seq<char>
    decreases n,
{
    if n < 10 {
        seq![digit_char(n)]
    } else {
        decimal(n / 10).push(digit_char(n % 10))
    }
}

pub open spec fn digit_char(d: nat) -> char {
    (48 + d) as char
}

/// The decimal text of `v` (with a leading '-' when negative), as `Display` prints it.
pub open spec fn signed_decimal(v: int) -> Seq<char> {
    if v < 0 {
        seq!['-'] + decimal((-v) as nat)
    } else {
        decimal(v as nat)
    }
}

fn digit(d: u64) -> (c: char)
    requires
        d < 10,
    ensures
        c == digit_char(d as nat),
{
    match d {
        0 => '0',
        1 => '1',
        2 => '2',
        3 => '3',
        4 => '4',
        5 => '5',
        6 => '6',
        7 => '7',
        8 => '8',
        _ => '9',
    }
}

/// The decimal text of an unsigned number.
pub fn u64_to_decimal(v: u64) -> (s: String)
    ensures
        s@ == decimal(v as nat),
{
    let mut digits: Vec<char> = Vec::new();
    let mut n = v;
    let mut stack: Vec<char> = Vec::new();
    while n >= 10
        invariant
            decimal(v as nat) == decimal(n as nat) + stack@.reverse(),
        decreases n,
    {
        let c = digit(n % 10);
        proof {
            assert(decimal(n as nat) == decimal((n / 10) as nat).push(digit_char((n % 10) as nat)));
        }
        stack.push(c);
        proof {
            assert(stack@.reverse() =~= seq![c] + stack@.drop_last().reverse());
            assert(c == digit_char((n % 10) as nat));
        }
        n = n / 10;
    }
    let c0 = digit(n);
    digits.push(c0);
    let mut k = stack.len();
    while k > 0
        invariant
            k <= stack@.len(),
            decimal(v as nat) == digits@ + stack@.subrange(0, k as int).reverse(),
        decreases k,
    {
        let ghost rest = stack@.subrange(0, k as int);
        digits.push(stack[k - 1]);
        assert(rest.reverse() =~= seq![stack@[k - 1]] + stack@.subrange(0, k - 1).reverse());
        k = k - 1;
    }
    assert(stack@.subrange(0, 0).reverse() =~= Seq::<char>::empty());
    string_from_chars(&digits)
}

/// The decimal text of a signed number.
pub fn i64_to_decimal(v: i64) -> (s: String)
    ensures
        s@ == signed_decimal(v as int),
{
    if v < 0 {
        let mag: u64 = if v == i64::MIN { 9223372036854775808u64 } else { (-v) as u64 };
        let digits = u64_to_decimal(mag);
        let mut s = String::from_str("-");
        s.append(digits.as_str());
        proof {
            reveal_strlit("-");
        }
        s
    } else {
        u64_to_decimal(v as u64)
    }
}

} // verus!

verus! {

/// Whether two strings hold the same characters.
pub fn str_equals(a: &str, b: &str) -> (r: bool)
    ensures
        r == (a@ == b@),
{
    let ac = chars_of(a);
    let bc = chars_of(b);
    if ac.len() != bc.len() {
        return false;
    }
    let r = matches_at(&ac, &bc, 0);
    proof {
        if r {
            assert(ac@.subrange(0, bc@.len() as int) =~= ac@);
        } else {
            assert(ac@.subrange(0, bc@.len() as int) =~= ac@);
        }
    }
    r
}

/// Rust's `str::to_lowercase`: the full Unicode lowercase mapping of a string.
pub uninterp spec fn str_to_lowercase(s: Seq<char>) -> Seq<char>;

/// `str::to_lowercase`.
#[verifier::external_body]
pub(crate) fn to_lowercase(s: &str) -> (r: String)
    ensures
        r@ == str_to_lowercase(s@),
{
    s.to_lowercase()
}

} // verus!
