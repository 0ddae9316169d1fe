//! Character-level text helpers shared by the parsers, labels and messages.

use vstd::prelude::*;
use vstd::string::*;

verus! {

/// `String::push`: the character is appended and nothing else changes.
pub assume_specification[ String::push ](s: &mut String, c: char)
    ensures
        final(s)@ == old(s)@.push(c),
;

/// The characters of `s`, in order.
pub fn chars_of(s: &str) -> (r: Vec<char>)
    ensures
        r@ == s@,
{
    let mut out: Vec<char> = Vec::new();
    for c in it: s.chars()
        invariant
            it.seq() == s@,
            out@ == s@.take(it.index() as int),
    {
        out.push(c);
        proof {
            assert(s@.take(it.index() as int + 1) =~= s@.take(it.index() as int).push(
                s@[it.index() as int],
            ));
        }
    }
    proof {
        assert(s@.take(s@.len() as int) =~= s@);
    }
    out
}

/// The text made of the characters `chars[from..to]`.
pub fn text_of(chars: &Vec<char>, from: usize, to: usize) -> (r: String)
    requires
        from <= to <= chars@.len(),
    ensures
        r@ == chars@.subrange(from as int, to as int),
{
    let mut out = String::new();
    let mut i: usize = from;
    proof {
        assert(chars@.subrange(from as int, from as int) =~= Seq::<char>::empty());
    }
    while i < to
        invariant
            from <= i <= to <= chars@.len(),
            out@ == chars@.subrange(from as int, i as int),
        decreases to - i,
    {
        out.push(chars[i]);
        proof {
            assert(chars@.subrange(from as int, i as int + 1) =~= chars@.subrange(
                from as int,
                i as int,
            ).push(chars@[i as int]));
        }
        i = i + 1;
    }
    out
}

/// Whether two texts hold the same characters.
pub fn same_text(a: &str, b: &str) -> (r: bool)
    ensures
        r == (a@ == b@),
{
    a.to_owned() == b.to_owned()
}

/// Whether `part` occurs in `whole`.
pub open spec fn occurs_in(part: Seq<char>, whole: Seq<char>) -> bool {
    exists|i: int| #[trigger] occurs_at(part, whole, i)
}

/// Whether `part` occurs in `whole` at position `i`.
pub open spec fn occurs_at(part: Seq<char>, whole: Seq<char>, i: int) -> bool {
    0 <= i <= whole.len() - part.len() && whole.subrange(i, i + part.len()) == part
}

/// Whether `part` occurs in `whole`.
pub fn contains_text(whole: &str, part: &str) -> (r: bool)
    ensures
        r == occurs_in(part@, whole@),
{
    let w = chars_of(whole);
    let p = chars_of(part);
    if p.len() > w.len() {
        return false;
    }
    let last: usize = w.len() - p.len();
    let mut i: usize = 0;
    while i <= last
        invariant
            w@ == whole@,
            p@ == part@,
            last == w@.len() - p@.len(),
            w@.len() <= usize::MAX,
            i <= last + 1,
            forall|j: int| 0 <= j < i ==> !#[trigger] occurs_at(p@, w@, j),
        decreases last + 1 - i,
    {
        let mut k: usize = 0;
        while k < p.len() && w[i + k] == p[k]
            invariant
                i <= last,
                last == w@.len() - p@.len(),
                w@.len() <= usize::MAX,
                k <= p@.len(),
                forall|j: int| 0 <= j < k ==> w@[i + j] == p@[j],
            decreases p@.len() - k,
        {
            k = k + 1;
        }
        if k == p.len() {
            proof {
                assert(w@.subrange(i as int, i + p@.len()) =~= p@);
                assert(occurs_at(p@, w@, i as int));
            }
            return true;
        }
        proof {
            assert(w@.subrange(i as int, i + p@.len())[k as int] == w@[i + k]);
        }
        if i == last {
            proof {
                assert forall|j: int| !#[trigger] occurs_at(p@, w@, j) by {}
            }
            return false;
        }
        i = i + 1;
    }
    false
}

/// What a text is shown as in quotes, as `str`'s `Debug` shows it.
pub uninterp spec fn quoted_text(text: Seq<char>) -> Seq<char>;

/// `str`'s `Debug`: the text in double quotes, with characters escaped as std chooses. A text that
/// depends on the argument alone, left to the name [`quoted_text`].
#[verifier::external_body]
pub(crate) fn quoted(text: &str) -> (r: String)
    ensures
        r@ == quoted_text(text@),
{
    format!("{text:?}")
}

/// Whether two characters differ at most in the case of an ASCII letter.
pub open spec fn same_ignoring_case(a: char, b: char) -> bool {
    ||| a == b
    ||| 'A' <= a && a <= 'Z' && b as int == a as int + 32
    ||| 'A' <= b && b <= 'Z' && a as int == b as int + 32
}

/// Whether two texts differ at most in the case of ASCII letters.
pub open spec fn texts_match(a: Seq<char>, b: Seq<char>) -> bool {
    a.len() == b.len() && forall|i: int|
        0 <= i < a.len() ==> same_ignoring_case(#[trigger] a[i], b[i])
}

/// Whether `a` is the upper-case form of the ASCII letter `b`.
fn is_upper_of(a: char, b: char) -> (r: bool)
    ensures
        r == ('A' <= a && a <= 'Z' && b as int == a as int + 32),
{
    'A' <= a && a <= 'Z' && 'a' <= b && b <= 'z' && b as u32 == a as u32 + 32
}

/// Whether two texts differ at most in the case of ASCII letters.
pub fn matches_ignoring_case(a: &str, b: &str) -> (r: bool)
    ensures
        r == texts_match(a@, b@),
{
    let x = chars_of(a);
    let y = chars_of(b);
    if x.len() != y.len() {
        return false;
    }
    let mut i: usize = 0;
    while i < x.len()
        invariant
            i <= x@.len(),
            x@ == a@,
            y@ == b@,
            x@.len() == y@.len(),
            forall|j: int| 0 <= j < i ==> same_ignoring_case(#[trigger] x@[j], y@[j]),
        decreases x@.len() - i,
    {
        if x[i] != y[i] && !is_upper_of(x[i], y[i]) && !is_upper_of(y[i], x[i]) {
            assert(!same_ignoring_case(x@[i as int], y@[i as int]));
            return false;
        }
        i = i + 1;
    }
    true
}

/// Whether `c` is white space (the Unicode `White_Space` property).
pub open spec fn is_space(c: char) -> bool {
    ('\u{9}' <= c && c <= '\u{d}') || c == ' ' || c == '\u{85}' || c == '\u{a0}' || c == '\u{1680}'
        || ('\u{2000}' <= c && c <= '\u{200a}') || c == '\u{2028}' || c == '\u{2029}' || c
        == '\u{202f}' || c == '\u{205f}' || c == '\u{3000}'
}

/// Executable form of [`is_space`].
pub fn space(c: char) -> (r: bool)
    ensures
        r == is_space(c),
{
    ('\u{9}' <= c && c <= '\u{d}') || c == ' ' || c == '\u{85}' || c == '\u{a0}' || c == '\u{1680}'
        || ('\u{2000}' <= c && c <= '\u{200a}') || c == '\u{2028}' || c == '\u{2029}' || c
        == '\u{202f}' || c == '\u{205f}' || c == '\u{3000}'
}

/// `s` without its leading white space.
pub open spec fn trim_start_of(s: Seq<char>) -> Seq<char>
    decreases s.len(),
{
    if s.len() > 0 && is_space(s[0]) {
        trim_start_of(s.skip(1))
    } else {
        s
    }
}

/// `s` without its trailing white space.
pub open spec fn trim_end_of(s: Seq<char>) -> Seq<char>
    decreases s.len(),
{
    if s.len() > 0 && is_space(s.last()) {
        trim_end_of(s.drop_last())
    } else {
        s
    }
}

/// `s` without leading and trailing white space.
pub open spec fn trimmed(s: Seq<char>) -> Seq<char> {
    trim_end_of(trim_start_of(s))
}

/// Strips leading and trailing white space.
pub fn trim(s: &str) -> (r: String)
    ensures
        r@ == trimmed(s@),
{
    let chars = chars_of(s);
    let mut from: usize = 0;
    proof {
        assert(chars@.skip(0) =~= chars@);
    }
    while from < chars.len() && space(chars[from])
        invariant
            from <= chars@.len(),
            trim_start_of(chars@) == trim_start_of(chars@.skip(from as int)),
        decreases chars@.len() - from,
    {
        proof {
            assert(chars@.skip(from as int).skip(1) =~= chars@.skip(from as int + 1));
        }
        from = from + 1;
    }
    let mut to: usize = chars.len();
    let ghost body = chars@.skip(from as int);
    proof {
        assert(chars@.subrange(from as int, to as int) =~= body);
    }
    while from < to && space(chars[to - 1])
        invariant
            from <= to <= chars@.len(),
            trim_end_of(body) == trim_end_of(chars@.subrange(from as int, to as int)),
        decreases to,
    {
        proof {
            assert(chars@.subrange(from as int, to as int).drop_last() =~= chars@.subrange(
                from as int,
                to as int - 1,
            ));
        }
        to = to - 1;
    }
    text_of(&chars, from, to)
}

/// Trimming a trimmed text changes nothing.
pub proof fn trimming_is_idempotent(s: Seq<char>)
    ensures
        trimmed(trimmed(s)) == trimmed(s),
{
    let a = trim_start_of(s);
    start_is_not_space(s);
    end_is_not_space(a);
    end_keeps_start(a);
}

proof fn start_is_cut(s: Seq<char>) -> (i: int)
    ensures
        0 <= i <= s.len(),
        trim_start_of(s) == s.skip(i),
        forall|p: int| 0 <= p < i ==> is_space(#[trigger] s[p]),
    decreases s.len(),
{
    if s.len() > 0 && is_space(s[0]) {
        let i = start_is_cut(s.skip(1));
        assert(s.skip(1).skip(i) =~= s.skip(i + 1));
        assert forall|p: int| 0 <= p < i + 1 implies is_space(#[trigger] s[p]) by {
            if p > 0 {
                assert(s.skip(1)[p - 1] == s[p]);
            }
        }
        i + 1
    } else {
        assert(s.skip(0) =~= s);
        0
    }
}

proof fn end_is_cut(s: Seq<char>) -> (j: int)
    ensures
        0 <= j <= s.len(),
        trim_end_of(s) == s.take(j),
        forall|p: int| j <= p < s.len() ==> is_space(#[trigger] s[p]),
    decreases s.len(),
{
    if s.len() > 0 && is_space(s.last()) {
        let j = end_is_cut(s.drop_last());
        assert(s.drop_last().take(j) =~= s.take(j));
        assert forall|p: int| j <= p < s.len() implies is_space(#[trigger] s[p]) by {
            if p < s.len() - 1 {
                assert(s.drop_last()[p] == s[p]);
            }
        }
        j
    } else {
        assert(s.take(s.len() as int) =~= s);
        s.len() as int
    }
}

/// Trimming cuts white space from both ends and nothing else: what is left stands in the text as
/// it was, what was cut is all white space, and what is left neither begins nor ends with any.
pub proof fn trimming_cuts_white_space_only(s: Seq<char>)
    ensures
        exists|i: int, j: int|
            0 <= i <= j <= s.len() && trimmed(s) == #[trigger] s.subrange(i, j) && (forall|p: int|
                0 <= p < i ==> is_space(#[trigger] s[p])) && (forall|p: int|
                j <= p < s.len() ==> is_space(#[trigger] s[p])),
        trimmed(s).len() > 0 ==> !is_space(trimmed(s)[0]) && !is_space(trimmed(s).last()),
{
    let a = trim_start_of(s);
    let i = start_is_cut(s);
    let n = end_is_cut(a);
    start_is_not_space(s);
    end_is_not_space(a);
    end_keeps_start(a);
    assert(trimmed(s) =~= s.subrange(i, i + n));
    assert forall|p: int| i + n <= p < s.len() implies is_space(#[trigger] s[p]) by {
        assert(a[p - i] == s[p]);
    }
}

/// White space is the Unicode property of that name: these code points and no others.
pub proof fn white_space_is_these_code_points(c: char)
    ensures
        is_space(c) <==> (9 <= c as int <= 13 || c as int == 0x20 || c as int == 0x85 || c as int
            == 0xa0 || c as int == 0x1680 || 0x2000 <= c as int <= 0x200a || c as int == 0x2028
            || c as int == 0x2029 || c as int == 0x202f || c as int == 0x205f || c as int == 0x3000),
{
}

/// A text without white space is unchanged by trimming.
pub proof fn spaceless_texts_stay(s: Seq<char>)
    requires
        forall|i: int| 0 <= i < s.len() ==> !is_space(#[trigger] s[i]),
    ensures
        trimmed(s) == s,
{
}

proof fn start_is_not_space(s: Seq<char>)
    ensures
        trim_start_of(s).len() > 0 ==> !is_space(trim_start_of(s)[0]),
    decreases s.len(),
{
    if s.len() > 0 && is_space(s[0]) {
        start_is_not_space(s.skip(1));
    }
}

proof fn end_is_not_space(s: Seq<char>)
    ensures
        trim_end_of(s).len() > 0 ==> !is_space(trim_end_of(s).last()),
    decreases s.len(),
{
    if s.len() > 0 && is_space(s.last()) {
        end_is_not_space(s.drop_last());
    }
}

proof fn end_keeps_start(s: Seq<char>)
    ensures
        trim_end_of(s).len() > 0 ==> trim_end_of(s)[0] == s[0],
    decreases s.len(),
{
    if s.len() > 0 && is_space(s.last()) {
        end_keeps_start(s.drop_last());
    }
}

/// The decimal digit `d`, for `d < 10`.
pub open spec fn digit_char(d: nat) -> char {
    if d == 0 {
        '0'
    } else if d == 1 {
        '1'
    } else if d == 2 {
        '2'
    } else if d == 3 {
        '3'
    } else if d == 4 {
        '4'
    } else if d == 5 {
        '5'
    } else if d == 6 {
        '6'
    } else if d == 7 {
        '7'
    } else if d == 8 {
        '8'
    } else {
        '9'
    }
}

fn digit(d: u64) -> (r: char)
    requires
        d < 10,
    ensures
        r == digit_char(d as nat),
{
    match d {
        0 => '0',
        1 => '1',
        2 => '2',
        3 => '3',
        4 => '4',
        5 => '5',
        6 => '6',
        7 => '7',
        8 => '8',
        _ => '9',
    }
}

/// `n` in decimal, without leading zeros.
pub open spec fn decimal_text(n: nat) -> Seq<char>
    decreases n,
{
    if n < 10 {
        seq![digit_char(n)]
    } else {
        decimal_text(n / 10).push(digit_char(n % 10))
    }
}

/// A decimal text is read digit by digit: its last digit is the remainder by ten and what stands
/// before it is the tenth, and a number below ten is one digit.
pub proof fn decimals_are_written_by_digits(n: nat)
    ensures
        decimal_text(n).len() > 0,
        decimal_text(n).last() as int == 48 + n % 10,
        n < 10 ==> decimal_text(n).len() == 1,
        n >= 10 ==> decimal_text(n).drop_last() == decimal_text(n / 10),
{
    if n >= 10 {
        assert(decimal_text(n).drop_last() =~= decimal_text(n / 10));
    }
}

/// A negative number is written as its magnitude after a minus sign, and another as it is.
pub proof fn signs_are_written(n: int)
    ensures
        n < 0 ==> signed_decimal_text(n).len() == 1 + decimal_text((-n) as nat).len()
            && signed_decimal_text(n)[0] == '-' && signed_decimal_text(n).skip(1) == decimal_text(
            (-n) as nat,
        ),
        n >= 0 ==> signed_decimal_text(n) == decimal_text(n as nat),
{
    if n < 0 {
        assert(signed_decimal_text(n).skip(1) =~= decimal_text((-n) as nat));
    }
}

/// `n` in decimal.
pub fn decimal(n: u64) -> (r: String)
    ensures
        r@ == decimal_text(n as nat),
{
    let mut low = String::new();
    let mut rest: u64 = n;
    proof {
        assert(decimal_text(n as nat) + low@ =~= decimal_text(n as nat));
    }
    while rest >= 10
        invariant
            decimal_text(n as nat) == decimal_text(rest as nat) + low@,
        decreases rest,
    {
        let mut next = String::new();
        next.push(digit(rest % 10));
        next.append(low.as_str());
        proof {
            let d = digit_char((rest % 10) as nat);
            assert(decimal_text((rest / 10) as nat).push(d) + low@ =~= decimal_text(
                (rest / 10) as nat,
            ) + next@);
        }
        low = next;
        rest = rest / 10;
    }
    let mut out = String::new();
    out.push(digit(rest));
    out.append(low.as_str());
    proof {
        assert(out@ =~= decimal_text(rest as nat) + low@);
    }
    out
}

/// `n` in decimal, with a leading minus sign where it is negative.
pub open spec fn signed_decimal_text(n: int) -> Seq<char> {
    if n < 0 {
        seq!['-'] + decimal_text((-n) as nat)
    } else {
        decimal_text(n as nat)
    }
}

/// `n` in decimal.
pub fn signed_decimal(n: i64) -> (r: String)
    ensures
        r@ == signed_decimal_text(n as int),
{
    if n < 0 {
        let magnitude: u64 = (-(n + 1)) as u64 + 1;
        let mut out = String::new();
        out.push('-');
        out.append(decimal(magnitude).as_str());
        proof {
            assert(out@ =~= seq!['-'] + decimal_text(magnitude as nat));
        }
        out
    } else {
        decimal(n as u64)
    }
}

/// `a` comes before `b` when compared character by character.
pub open spec fn text_before(a: Seq<char>, b: Seq<char>) -> bool
    decreases a.len(),
{
    if b.len() == 0 {
        false
    } else if a.len() == 0 {
        true
    } else if a[0] != b[0] {
        a[0] < b[0]
    } else {
        text_before(a.skip(1), b.skip(1))
    }
}

/// Whether `a` comes before `b` when compared character by character.
pub fn comes_before(a: &str, b: &str) -> (r: bool)
    ensures
        r == text_before(a@, b@),
{
    let x = chars_of(a);
    let y = chars_of(b);
    let mut i: usize = 0;
    proof {
        assert(x@.skip(0) =~= x@);
        assert(y@.skip(0) =~= y@);
    }
    while i < x.len() && i < y.len() && x[i] == y[i]
        invariant
            i <= x@.len(),
            i <= y@.len(),
            text_before(x@, y@) == text_before(x@.skip(i as int), y@.skip(i as int)),
        decreases x@.len() - i,
    {
        proof {
            assert(x@.skip(i as int).skip(1) =~= x@.skip(i as int + 1));
            assert(y@.skip(i as int).skip(1) =~= y@.skip(i as int + 1));
        }
        i = i + 1;
    }
    if i >= y.len() {
        false
    } else if i >= x.len() {
        true
    } else {
        x[i] < y[i]
    }
}

/// Texts are ordered by the code point at which they first differ, and a text comes before what it
/// begins.
pub proof fn the_first_difference_orders_texts(a: Seq<char>, b: Seq<char>, i: int)
    requires
        0 <= i <= a.len(),
        i <= b.len(),
        forall|p: int| 0 <= p < i ==> #[trigger] a[p] == b[p],
    ensures
        i < a.len() && i < b.len() && (a[i] as int) < b[i] as int ==> text_before(a, b)
            && !text_before(b, a),
        i == a.len() && i < b.len() ==> text_before(a, b) && !text_before(b, a),
    decreases i,
{
    if i > 0 {
        let x = a.skip(1);
        let y = b.skip(1);
        assert forall|p: int| 0 <= p < i - 1 implies #[trigger] x[p] == y[p] by {
            assert(a[p + 1] == b[p + 1]);
        }
        assert(a[0] == b[0]);
        the_first_difference_orders_texts(x, y, i - 1);
    }
}

/// Two texts match where each pair of characters is the same, or the same ASCII letter in either
/// case.
pub proof fn matching_texts_differ_in_case_only(a: Seq<char>, b: Seq<char>)
    ensures
        texts_match(a, b) <==> a.len() == b.len() && forall|i: int|
            0 <= i < a.len() ==> (#[trigger] a[i]) == b[i] || (65 <= a[i] as int <= 90 && b[i] as int
                - a[i] as int == 32) || (65 <= b[i] as int <= 90 && a[i] as int - b[i] as int
                == 32),
{
}

/// No text comes before itself.
pub proof fn text_order_is_irreflexive(a: Seq<char>)
    ensures
        !text_before(a, a),
    decreases a.len(),
{
    if a.len() > 0 {
        text_order_is_irreflexive(a.skip(1));
    }
}

/// The order of texts is transitive.
pub proof fn text_order_is_transitive(a: Seq<char>, b: Seq<char>, c: Seq<char>)
    requires
        text_before(a, b),
        text_before(b, c),
    ensures
        text_before(a, c),
    decreases a.len(),
{
    if a.len() > 0 && a[0] == b[0] && b[0] == c[0] {
        text_order_is_transitive(a.skip(1), b.skip(1), c.skip(1));
    }
}

/// Two different texts are ordered one way or the other.
pub proof fn text_order_is_total(a: Seq<char>, b: Seq<char>)
    ensures
        a == b || text_before(a, b) || text_before(b, a),
    decreases a.len(),
{
    if a.len() == 0 {
        assert(b.len() == 0 ==> a =~= b);
    } else if b.len() > 0 && a[0] == b[0] {
        text_order_is_total(a.skip(1), b.skip(1));
        if a.skip(1) == b.skip(1) {
            assert(a.skip(1).len() == b.skip(1).len());
            assert forall|i: int| 0 <= i < a.len() implies a[i] == b[i] by {
                if i > 0 {
                    assert(a[i] == a.skip(1)[i - 1]);
                    assert(b[i] == b.skip(1)[i - 1]);
                }
            }
            assert(a =~= b);
        }
    }
}

/// A text occurs in another exactly where that other is made of something before it, the text and
/// something behind it.
pub proof fn occurrences_split_the_text(part: Seq<char>, before: Seq<char>, behind: Seq<char>)
    ensures
        occurs_in(part, before + part + behind),
        occurs_at(part, before + part + behind, before.len() as int),
{
    let whole = before + part + behind;
    assert(whole.subrange(before.len() as int, (before.len() + part.len()) as int) =~= part);
    assert(occurs_at(part, whole, before.len() as int));
}

/// A text that occurs in another stands there, character by character.
pub proof fn occurrences_stand_in_the_text(part: Seq<char>, whole: Seq<char>)
    requires
        occurs_in(part, whole),
    ensures
        exists|i: int|
            0 <= i <= whole.len() - part.len() && whole == #[trigger] whole.take(i) + part
                + whole.skip(i + part.len()),
{
    let i = choose|i: int| #[trigger] occurs_at(part, whole, i);
    assert(whole =~= whole.take(i) + whole.subrange(i, i + part.len()) + whole.skip(
        i + part.len(),
    ));
}

} // verus!
