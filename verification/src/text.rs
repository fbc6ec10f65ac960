//! Character-level text operations: trimming, splitting, searching, joining and decimal numerals.
//!
//! Text is modelled as a sequence of characters, `Seq<char>`, which is the view of `str` and
//! `String`.

use vstd::prelude::*;
use vstd::string::*;

verus! {

/// The characters with the Unicode property `White_Space`.
pub open spec fn is_white(c: char) -> bool {
    let code = c as u32;
    ||| 0x09 <= code <= 0x0d
    ||| code == 0x20
    ||| code == 0x85
    ||| code == 0xa0
    ||| code == 0x1680
    ||| 0x2000 <= code <= 0x200a
    ||| code == 0x2028
    ||| code == 0x2029
    ||| code == 0x202f
    ||| code == 0x205f
    ||| code == 0x3000
}

/// Whether `c` is white space.
pub fn is_whitespace(c: char) -> (white: bool)
    ensures
        white == is_white(c),
{
    let code: u32 = c as u32;
    (0x09 <= code && code <= 0x0d) || code == 0x20 || code == 0x85 || code == 0xa0 || code == 0x1680
        || (0x2000 <= code && code <= 0x200a) || code == 0x2028 || code == 0x2029 || code == 0x202f
        || code == 0x205f || code == 0x3000
}

/// `s` without the white space that it begins with.
pub open spec fn trimmed_start(s: Seq<char>) -> Seq<char>
    decreases s.len(),
{
    if s.len() > 0 && is_white(s.first()) {
        trimmed_start(s.drop_first())
    } else {
        s
    }
}

/// `s` without the white space that it ends with.
pub open spec fn trimmed_end(s: Seq<char>) -> Seq<char>
    decreases s.len(),
{
    if s.len() > 0 && is_white(s.last()) {
        trimmed_end(s.drop_last())
    } else {
        s
    }
}

/// `s` without the white space at either end.
pub open spec fn trimmed(s: Seq<char>) -> Seq<char> {
    trimmed_end(trimmed_start(s))
}

/// The characters of `s`, one by one.
pub fn characters(s: &str) -> (chars: Vec<char>)
    ensures
        chars@ == s@,
{
    let mut chars: Vec<char> = Vec::new();
    for c in it: s.chars()
        invariant
            chars@ == s@.take(it.index()),
            it.seq() == s@,
    {
        chars.push(c);
        assert(s@.take(it.index() + 1) == s@.take(it.index()).push(s@[it.index()]));
    }
    assert(s@.take(s@.len() as int) == s@);
    chars
}

/// Whether two texts hold the same characters.
pub fn same_text(a: &str, b: &str) -> (same: bool)
    ensures
        same == (a@ == b@),
{
    let left = a.as_bytes();
    let right = b.as_bytes();
    proof {
        vstd::utf8::encode_utf8_decode_utf8(a@);
        vstd::utf8::encode_utf8_decode_utf8(b@);
    }
    if left.len() != right.len() {
        return false;
    }
    let mut i: usize = 0;
    while i < left.len()
        invariant
            left@ == a.spec_bytes(),
            right@ == b.spec_bytes(),
            left@.len() == right@.len(),
            i <= left@.len(),
            forall|j: int| 0 <= j < i ==> left@[j] == right@[j],
        decreases left@.len() - i,
    {
        if left[i] != right[i] {
            return false;
        }
        i = i + 1;
    }
    assert(left@ =~= right@);
    true
}

/// `s` without the white space at either end.
pub fn trim<'a>(s: &'a str) -> (rest: &'a str)
    ensures
        rest@ == trimmed(s@),
{
    let chars = characters(s);
    let mut from: usize = 0;
    assert(s@.skip(0) == s@);
    while from < chars.len() && is_whitespace(chars[from])
        invariant
            chars@ == s@,
            from <= chars@.len(),
            trimmed_start(s@) == trimmed_start(s@.skip(from as int)),
        decreases chars@.len() - from,
    {
        assert(s@.skip(from as int).drop_first() == s@.skip(from + 1));
        from = from + 1;
    }
    assert(trimmed_start(s@) == s@.skip(from as int));
    let mut to: usize = chars.len();
    assert(s@.subrange(from as int, to as int) == s@.skip(from as int));
    while from < to && is_whitespace(chars[to - 1])
        invariant
            chars@ == s@,
            from <= to <= chars@.len(),
            trimmed(s@) == trimmed_end(s@.subrange(from as int, to as int)),
        decreases to - from,
    {
        assert(s@.subrange(from as int, to as int).drop_last() == s@.subrange(
            from as int,
            to - 1,
        ));
        to = to - 1;
    }
    s.substring_char(from, to)
}

/// `s` without the white space that it ends with.
pub fn trim_end<'a>(s: &'a str) -> (rest: &'a str)
    ensures
        rest@ == trimmed_end(s@),
{
    let chars = characters(s);
    let mut to: usize = chars.len();
    assert(s@.take(to as int) == s@);
    while to > 0 && is_whitespace(chars[to - 1])
        invariant
            chars@ == s@,
            to <= chars@.len(),
            trimmed_end(s@) == trimmed_end(s@.take(to as int)),
        decreases to,
    {
        assert(s@.take(to as int).drop_last() == s@.take(to - 1));
        to = to - 1;
    }
    let rest = s.substring_char(0, to);
    assert(rest@ == s@.take(to as int));
    rest
}

/// Trimming the end stops at a character that is no white space.
pub proof fn lemma_trimmed_end_keeps(head: Seq<char>, tail: Seq<char>)
    requires
        head.len() > 0,
        !is_white(head.last()),
    ensures
        trimmed_end(head + tail) == head + trimmed_end(tail),
    decreases tail.len(),
{
    if tail.len() == 0 {
        assert(head + tail =~= head);
    } else {
        assert((head + tail).last() == tail.last());
        assert((head + tail).drop_last() =~= head + tail.drop_last());
        if is_white(tail.last()) {
            lemma_trimmed_end_keeps(head, tail.drop_last());
        }
    }
}

/// Whether `s` neither begins nor ends with white space.
pub open spec fn is_tight(s: Seq<char>) -> bool {
    s.len() > 0 ==> !is_white(s.first()) && !is_white(s.last())
}

proof fn lemma_trimmed_start_tight(s: Seq<char>)
    ensures
        trimmed_start(s).len() > 0 ==> !is_white(trimmed_start(s).first()),
    decreases s.len(),
{
    if s.len() > 0 && is_white(s.first()) {
        lemma_trimmed_start_tight(s.drop_first());
    }
}

proof fn lemma_trimmed_end_tight(s: Seq<char>)
    ensures
        trimmed_end(s).len() > 0 ==> !is_white(trimmed_end(s).last()) && trimmed_end(s).first()
            == s.first(),
    decreases s.len(),
{
    if s.len() > 0 && is_white(s.last()) {
        lemma_trimmed_end_tight(s.drop_last());
    }
}

/// Trimmed text neither begins nor ends with white space.
pub proof fn law_trimmed_is_tight(s: Seq<char>)
    ensures
        is_tight(trimmed(s)),
{
    lemma_trimmed_start_tight(s);
    lemma_trimmed_end_tight(trimmed_start(s));
}

/// Text that neither begins nor ends with white space is left as it is by trimming.
pub proof fn law_tight_text_stays(s: Seq<char>)
    requires
        is_tight(s),
    ensures
        trimmed(s) == s,
{
}

/// Text that is all white space is trimmed to nothing.
pub proof fn lemma_white_is_trimmed_away(s: Seq<char>)
    requires
        forall|i: int| 0 <= i < s.len() ==> is_white(#[trigger] s[i]),
    ensures
        trimmed_start(s).len() == 0,
        trimmed(s).len() == 0,
    decreases s.len(),
{
    if s.len() > 0 {
        assert(is_white(s[0]));
        assert forall|i: int| 0 <= i < s.drop_first().len() implies is_white(
            #[trigger] s.drop_first()[i],
        ) by {
            assert(s.drop_first()[i] == s[i + 1]);
        }
        lemma_white_is_trimmed_away(s.drop_first());
    }
}

/// Text that is not all white space is not trimmed to nothing.
pub proof fn lemma_words_are_not_trimmed_away(s: Seq<char>, i: int)
    requires
        0 <= i < s.len(),
        !is_white(s[i]),
    ensures
        trimmed(s).len() > 0,
{
    lemma_trimmed_start_keeps(s, i);
    lemma_trimmed_start_tight(s);
    let start = trimmed_start(s);
    let head = start.take(1);
    assert(start =~= head + start.skip(1));
    assert(head.last() == start.first());
    lemma_trimmed_end_keeps(head, start.skip(1));
}

proof fn lemma_trimmed_start_keeps(s: Seq<char>, i: int)
    requires
        0 <= i < s.len(),
        !is_white(s[i]),
    ensures
        trimmed_start(s).len() > 0,
    decreases s.len(),
{
    if is_white(s.first()) {
        assert(s.drop_first()[i - 1] == s[i]);
        lemma_trimmed_start_keeps(s.drop_first(), i - 1);
    }
}

/// White space around a tight text is trimmed away, and nothing of the text is.
pub proof fn lemma_trimmed_of_parts(before: Seq<char>, s: Seq<char>, after: Seq<char>)
    requires
        forall|i: int| 0 <= i < before.len() ==> is_white(#[trigger] before[i]),
        forall|i: int| 0 <= i < after.len() ==> is_white(#[trigger] after[i]),
        s.len() > 0,
        is_tight(s),
    ensures
        trimmed(before + s + after) == s,
    decreases before.len(),
{
    let whole = before + s + after;
    if before.len() > 0 {
        assert(whole.first() == before[0]);
        assert(whole.drop_first() =~= before.drop_first() + s + after);
        assert forall|i: int| 0 <= i < before.drop_first().len() implies is_white(
            #[trigger] before.drop_first()[i],
        ) by {
            assert(before.drop_first()[i] == before[i + 1]);
        }
        lemma_trimmed_of_parts(before.drop_first(), s, after);
    } else {
        assert(whole =~= s + after);
        assert(whole.first() == s.first());
        lemma_trimmed_end_keeps(s, after);
        lemma_white_end_is_trimmed_away(after);
        assert(s + trimmed_end(after) =~= s);
    }
}

/// Text that is all white space has nothing left when its end is trimmed.
pub proof fn lemma_white_end_is_trimmed_away(s: Seq<char>)
    requires
        forall|i: int| 0 <= i < s.len() ==> is_white(#[trigger] s[i]),
    ensures
        trimmed_end(s).len() == 0,
    decreases s.len(),
{
    if s.len() > 0 {
        assert(is_white(s[s.len() - 1]));
        assert forall|i: int| 0 <= i < s.drop_last().len() implies is_white(
            #[trigger] s.drop_last()[i],
        ) by {
            assert(s.drop_last()[i] == s[i]);
        }
        lemma_white_end_is_trimmed_away(s.drop_last());
    }
}

/// Trimming yields a part of the text.
pub proof fn lemma_trimmed_is_part(s: Seq<char>)
    ensures
        occurs_in(s, trimmed(s)),
{
    lemma_trimmed_start_is_end(s);
    lemma_trimmed_end_is_start(trimmed_start(s));
    let start = trimmed_start(s);
    let from = s.len() - start.len();
    assert(s.subrange(from, from + trimmed(s).len()) =~= trimmed(s));
    assert(occurs_at(s, trimmed(s), from));
}

proof fn lemma_trimmed_start_is_end(s: Seq<char>)
    ensures
        trimmed_start(s).len() <= s.len(),
        trimmed_start(s) == s.skip(s.len() - trimmed_start(s).len()),
    decreases s.len(),
{
    if s.len() > 0 && is_white(s.first()) {
        lemma_trimmed_start_is_end(s.drop_first());
        assert(trimmed_start(s) =~= s.skip(s.len() - trimmed_start(s).len()));
    } else {
        assert(s =~= s.skip(0));
    }
}

proof fn lemma_trimmed_end_is_start(s: Seq<char>)
    ensures
        trimmed_end(s).len() <= s.len(),
        trimmed_end(s) == s.take(trimmed_end(s).len() as int),
    decreases s.len(),
{
    if s.len() > 0 && is_white(s.last()) {
        lemma_trimmed_end_is_start(s.drop_last());
        assert(trimmed_end(s) =~= s.take(trimmed_end(s).len() as int));
    } else {
        assert(s =~= s.take(s.len() as int));
    }
}

/// What a text ends with stands in it.
pub proof fn lemma_occurs_at_end(before: Seq<char>, part: Seq<char>)
    ensures
        occurs_in(before + part, part),
{
    let start = before.len() as int;
    assert((before + part).subrange(start, start + part.len()) =~= part);
    assert(occurs_at(before + part, part, start));
}

/// What stands in a text still stands in it when more is added.
pub proof fn lemma_occurs_extended(s: Seq<char>, part: Seq<char>, more: Seq<char>)
    requires
        occurs_in(s, part),
    ensures
        occurs_in(s + more, part),
{
    let at = choose|at: int| occurs_at(s, part, at);
    assert((s + more).subrange(at, at + part.len()) =~= s.subrange(at, at + part.len()));
    assert(occurs_at(s + more, part, at));
}

/// The number of characters of `s` before the first one that `stop` accepts, or all of them.
pub open spec fn length_before(s: Seq<char>, stop: spec_fn(char) -> bool) -> nat
    decreases s.len(),
{
    if s.len() == 0 || stop(s.first()) {
        0
    } else {
        1 + length_before(s.drop_first(), stop)
    }
}

/// The first word of `s`: what stands before its first white space.
pub open spec fn first_word(s: Seq<char>) -> Seq<char> {
    s.take(length_before(s, |c: char| is_white(c)) as int)
}

/// What follows the first word of `s` and the one white-space character behind it.
pub open spec fn after_first_word(s: Seq<char>) -> Seq<char> {
    let n = length_before(s, |c: char| is_white(c));
    if n < s.len() {
        s.skip((n + 1) as int)
    } else {
        Seq::empty()
    }
}

/// What stands before the first line feed of `s`.
pub open spec fn first_line(s: Seq<char>) -> Seq<char> {
    s.take(length_before(s, |c: char| c == '\n') as int)
}

/// The length before the first stop is `n` where `n` characters are no stops and the next one is.
pub proof fn lemma_length_before(s: Seq<char>, stop: spec_fn(char) -> bool, n: nat)
    requires
        n <= s.len(),
        forall|i: int| 0 <= i < n ==> !#[trigger] stop(s[i]),
        n < s.len() ==> stop(s[n as int]),
    ensures
        length_before(s, stop) == n,
    decreases n,
{
    if n > 0 {
        assert(!stop(s[0]));
        assert forall|i: int| 0 <= i < n - 1 implies !#[trigger] stop(s.drop_first()[i]) by {
            assert(!stop(s[i + 1]));
        }
        lemma_length_before(s.drop_first(), stop, (n - 1) as nat);
    }
}

/// The first line of a text holds no line feed.
pub proof fn lemma_first_line_has_no_feed(s: Seq<char>)
    ensures
        forall|i: int| 0 <= i < first_line(s).len() ==> #[trigger] first_line(s)[i] != '\n',
{
    lemma_no_stop_before(s, |c: char| c == '\n');
}

proof fn lemma_no_stop_before(s: Seq<char>, stop: spec_fn(char) -> bool)
    ensures
        length_before(s, stop) <= s.len(),
        forall|i: int| 0 <= i < length_before(s, stop) ==> !stop(#[trigger] s[i]),
    decreases s.len(),
{
    if s.len() > 0 && !stop(s.first()) {
        lemma_no_stop_before(s.drop_first(), stop);
        assert forall|i: int| 0 <= i < length_before(s, stop) implies !stop(#[trigger] s[i]) by {
            if i > 0 {
                assert(s[i] == s.drop_first()[i - 1]);
            }
        }
    }
}

/// The first word of `s`, and what follows it behind one white-space character.
pub fn split_first_word<'a>(s: &'a str) -> (parts: (&'a str, &'a str))
    ensures
        parts.0@ == first_word(s@),
        parts.1@ == after_first_word(s@),
{
    let chars = characters(s);
    let mut n: usize = 0;
    while n < chars.len() && !is_whitespace(chars[n])
        invariant
            chars@ == s@,
            n <= chars@.len(),
            forall|i: int| 0 <= i < n ==> !is_white(s@[i]),
        decreases chars@.len() - n,
    {
        n = n + 1;
    }
    proof {
        lemma_length_before(s@, |c: char| is_white(c), n as nat);
    }
    let word = s.substring_char(0, n);
    assert(word@ == first_word(s@));
    if n < chars.len() {
        (word, s.substring_char(n + 1, chars.len()))
    } else {
        (word, s.substring_char(n, n))
    }
}

/// What stands before the first line feed of `s`.
pub fn leading_line<'a>(s: &'a str) -> (line: &'a str)
    ensures
        line@ == first_line(s@),
{
    let chars = characters(s);
    let mut n: usize = 0;
    while n < chars.len() && chars[n] != '\n'
        invariant
            chars@ == s@,
            n <= chars@.len(),
            forall|i: int| 0 <= i < n ==> s@[i] != '\n',
        decreases chars@.len() - n,
    {
        n = n + 1;
    }
    proof {
        lemma_length_before(s@, |c: char| c == '\n', n as nat);
    }
    s.substring_char(0, n)
}

/// Whether `part` stands in `s` at position `at`.
pub open spec fn occurs_at(s: Seq<char>, part: Seq<char>, at: int) -> bool {
    0 <= at && at + part.len() <= s.len() && s.subrange(at, at + part.len()) == part
}

/// Whether `part` stands anywhere in `s`.
pub open spec fn occurs_in(s: Seq<char>, part: Seq<char>) -> bool {
    exists|at: int| occurs_at(s, part, at)
}

/// Whether `part` stands in `s` at position `at`.
fn matches_at(s: &Vec<char>, part: &Vec<char>, at: usize) -> (found: bool)
    ensures
        found == occurs_at(s@, part@, at as int),
{
    if at > s.len() || part.len() > s.len() - at {
        return false;
    }
    let mut i: usize = 0;
    while i < part.len()
        invariant
            at + part@.len() <= s.len(),
            i <= part@.len(),
            forall|j: int| 0 <= j < i ==> s@[at + j] == part@[j],
        decreases part@.len() - i,
    {
        if s[at + i] != part[i] {
            assert(s@.subrange(at as int, at + part@.len())[i as int] != part@[i as int]);
            return false;
        }
        i = i + 1;
    }
    assert(s@.subrange(at as int, at + part@.len()) =~= part@);
    true
}

/// Whether `part` stands anywhere in `s`.
pub fn contains(s: &str, part: &str) -> (found: bool)
    ensures
        found == occurs_in(s@, part@),
{
    let text = characters(s);
    let pattern = characters(part);
    let mut at: usize = 0;
    while at < text.len()
        invariant
            text@ == s@,
            pattern@ == part@,
            at <= text@.len(),
            forall|i: int| 0 <= i < at ==> !occurs_at(s@, part@, i),
        decreases text@.len() - at,
    {
        if matches_at(&text, &pattern, at) {
            return true;
        }
        at = at + 1;
    }
    let at_end = matches_at(&text, &pattern, at);
    assert forall|i: int| occurs_at(s@, part@, i) implies at_end by {
        assert(i == at);
    }
    at_end
}

/// Whether `s` begins with `part`.
pub fn starts_with(s: &str, part: &str) -> (found: bool)
    ensures
        found == occurs_at(s@, part@, 0),
{
    matches_at(&characters(s), &characters(part), 0)
}

/// Whether `s` ends with `part`.
pub fn ends_with(s: &str, part: &str) -> (found: bool)
    ensures
        found == occurs_at(s@, part@, s@.len() - part@.len()),
{
    let text = characters(s);
    let pattern = characters(part);
    if pattern.len() > text.len() {
        return false;
    }
    matches_at(&text, &pattern, text.len() - pattern.len())
}

/// The decimal digit `d`, for `d` below ten.
pub open spec fn digit(d: nat) -> char {
    (d + 48) as char
}

/// The decimal numeral of `n`, without leading zeros.
pub open spec fn decimal(n: nat) -> Seq<char>
    decreases n,
{
    if n < 10 {
        seq![digit(n)]
    } else {
        decimal(n / 10).push(digit(n % 10))
    }
}

/// The decimal numeral of `n`, with a minus sign where `n` is negative.
pub open spec fn signed_decimal(n: int) -> Seq<char> {
    if n < 0 {
        seq!['-'] + decimal((-n) as nat)
    } else {
        decimal(n as nat)
    }
}

proof fn lemma_decimal_digits(n: nat)
    ensures
        decimal(n).len() > 0,
        forall|i: int| 0 <= i < decimal(n).len() ==> '0' <= #[trigger] decimal(n)[i] <= '9',
        numeral_value(decimal(n)) == n,
    decreases n,
{
    if n < 10 {
        assert(decimal(n).drop_last() =~= Seq::empty());
        assert(numeral_value(Seq::empty()) == 0);
        assert(decimal(n).last() == digit(n));
    } else {
        lemma_decimal_digits(n / 10);
        assert(decimal(n).drop_last() =~= decimal(n / 10));
        assert(decimal(n).last() == digit(n % 10));
    }
}

/// A number that is written as a numeral is read back as the same number.
pub proof fn law_numeral_is_read_back(n: nat, max: nat)
    requires
        n <= max,
    ensures
        unsigned_number(decimal(n), max) == Some(n),
        is_tight(decimal(n)),
        decimal(n).len() > 0,
{
    lemma_decimal_digits(n);
    assert('0' <= decimal(n)[0] <= '9');
    assert('0' <= decimal(n)[decimal(n).len() - 1] <= '9');
}

/// An integer that is written as a numeral is read back as the same integer.
pub proof fn law_signed_numeral_is_read_back(n: int)
    requires
        i64::MIN <= n <= i64::MAX,
    ensures
        signed_number(signed_decimal(n)) == Some(n),
{
    if n < 0 {
        lemma_decimal_digits((-n) as nat);
        assert(signed_decimal(n).drop_first() =~= decimal((-n) as nat));
    } else {
        lemma_decimal_digits(n as nat);
        assert('0' <= decimal(n as nat)[0] <= '9');
        law_numeral_is_read_back(n as nat, i64::MAX as nat);
    }
}

fn digit_text(d: u64) -> (text: &'static str)
    requires
        d < 10,
    ensures
        text@ == seq![digit(d as nat)],
{
    proof {
        reveal_strlit("0");
        reveal_strlit("1");
        reveal_strlit("2");
        reveal_strlit("3");
        reveal_strlit("4");
        reveal_strlit("5");
        reveal_strlit("6");
        reveal_strlit("7");
        reveal_strlit("8");
        reveal_strlit("9");
    }
    let text = match d {
        0 => "0",
        1 => "1",
        2 => "2",
        3 => "3",
        4 => "4",
        5 => "5",
        6 => "6",
        7 => "7",
        8 => "8",
        _ => "9",
    };
    assert(text@ =~= seq![digit(d as nat)]);
    text
}

/// The decimal numeral of `n`.
pub fn decimal_text(n: u64) -> (text: String)
    ensures
        text@ == decimal(n as nat),
    decreases n,
{
    if n < 10 {
        digit_text(n).to_owned()
    } else {
        let mut text = decimal_text(n / 10);
        text.append(digit_text(n % 10));
        assert(text@ =~= decimal(n as nat));
        text
    }
}

/// The decimal numeral of `n`, with a minus sign where `n` is negative.
pub fn signed_decimal_text(n: i64) -> (text: String)
    ensures
        text@ == signed_decimal(n as int),
{
    if n < 0 {
        proof {
            reveal_strlit("-");
        }
        let magnitude: u64 = if n == i64::MIN {
            0x8000_0000_0000_0000
        } else {
            (-n) as u64
        };
        let mut text = "-".to_owned();
        text.append(decimal_text(magnitude).as_str());
        assert(text@ =~= signed_decimal(n as int));
        text
    } else {
        decimal_text(n as u64)
    }
}

/// Whether `s` is a decimal numeral: one or more digits and nothing else.
pub open spec fn is_numeral(s: Seq<char>) -> bool {
    s.len() > 0 && forall|i: int| 0 <= i < s.len() ==> '0' <= #[trigger] s[i] <= '9'
}

/// The value of a decimal numeral, leading zeros allowed.
pub open spec fn numeral_value(s: Seq<char>) -> nat
    decreases s.len(),
{
    if s.len() == 0 {
        0
    } else {
        (numeral_value(s.drop_last()) * 10 + (s.last() as nat - 48)) as nat
    }
}

/// The number that `s` writes as a numeral with an optional plus sign, if it is at most `max`.
pub open spec fn unsigned_number(s: Seq<char>, max: nat) -> Option<nat> {
    let digits = if s.len() > 0 && s[0] == '+' {
        s.drop_first()
    } else {
        s
    };
    if is_numeral(digits) && numeral_value(digits) <= max {
        Some(numeral_value(digits))
    } else {
        None
    }
}

/// The number that `s` writes as a numeral with an optional sign, if it fits in an `i64`.
pub open spec fn signed_number(s: Seq<char>) -> Option<int> {
    if s.len() > 0 && s[0] == '-' {
        let digits = s.drop_first();
        if is_numeral(digits) && -numeral_value(digits) >= i64::MIN {
            Some(-numeral_value(digits))
        } else {
            None
        }
    } else {
        match unsigned_number(s, i64::MAX as nat) {
            Some(n) => Some(n as int),
            None => None,
        }
    }
}

/// Text with a character that is no digit, but for a plus sign in front, writes no number.
pub proof fn lemma_no_number(s: Seq<char>, i: int, max: nat)
    requires
        0 <= i < s.len(),
        !('0' <= s[i] <= '9'),
        i > 0 || s[i] != '+',
    ensures
        unsigned_number(s, max) is None,
{
    if s[0] == '+' {
        assert(s.drop_first()[i - 1] == s[i]);
    }
}

proof fn lemma_numeral_prefix(s: Seq<char>, n: int)
    requires
        is_numeral(s),
        0 <= n <= s.len(),
    ensures
        numeral_value(s.take(n)) <= numeral_value(s),
    decreases s.len() - n,
{
    if n < s.len() {
        lemma_numeral_prefix(s, n + 1);
        assert(s.take(n + 1).drop_last() == s.take(n));
        assert(s.take(n + 1).last() == s[n]);
    } else {
        assert(s.take(n) == s);
    }
}

/// The value of the numeral that `chars` holds from position `from` on, if it is at most `max`.
fn read_numeral(chars: &Vec<char>, from: usize, max: u64) -> (value: Option<u64>)
    requires
        from <= chars@.len(),
    ensures
        ({
            let digits = chars@.skip(from as int);
            match value {
                Some(n) => is_numeral(digits) && numeral_value(digits) == n && n <= max,
                None => !(is_numeral(digits) && numeral_value(digits) <= max),
            }
        }),
{
    let ghost digits = chars@.skip(from as int);
    if from == chars.len() {
        return None;
    }
    let mut total: u64 = 0;
    let mut i: usize = from;
    assert(digits.take(0) == Seq::<char>::empty());
    while i < chars.len()
        invariant
            digits == chars@.skip(from as int),
            from <= i <= chars@.len(),
            forall|j: int| 0 <= j < i - from ==> '0' <= #[trigger] digits[j] <= '9',
            total == numeral_value(digits.take(i - from)),
            total <= max,
        decreases chars@.len() - i,
    {
        let c = chars[i];
        assert(c == digits[i - from]);
        if !('0' <= c && c <= '9') {
            return None;
        }
        let d: u64 = (c as u32 - 48) as u64;
        assert(digits.take(i - from + 1).drop_last() == digits.take(i - from));
        assert(numeral_value(digits.take(i - from + 1)) == total * 10 + d);
        if total > max / 10 || d > max - total * 10 {
            proof {
                if is_numeral(digits) {
                    lemma_numeral_prefix(digits, i - from + 1);
                }
            }
            return None;
        }
        total = total * 10 + d;
        i = i + 1;
    }
    assert(digits.take(digits.len() as int) == digits);
    Some(total)
}

/// Reads a numeral with an optional plus sign, of value at most `max`.
pub fn parse_unsigned(s: &str, max: u64) -> (value: Option<u64>)
    ensures
        match value {
            Some(n) => unsigned_number(s@, max as nat) == Some(n as nat),
            None => unsigned_number(s@, max as nat) is None,
        },
{
    let chars = characters(s);
    assert(s@.skip(0) == s@);
    if chars.len() > 0 && chars[0] == '+' {
        assert(s@.skip(1) == s@.drop_first());
        read_numeral(&chars, 1, max)
    } else {
        read_numeral(&chars, 0, max)
    }
}

/// Reads a numeral with an optional sign that fits in an `i64`.
pub fn parse_signed(s: &str) -> (value: Option<i64>)
    ensures
        match value {
            Some(n) => signed_number(s@) == Some(n as int),
            None => signed_number(s@) is None,
        },
{
    let chars = characters(s);
    if chars.len() > 0 && chars[0] == '-' {
        assert(s@.skip(1) == s@.drop_first());
        match read_numeral(&chars, 1, 0x8000_0000_0000_0000) {
            Some(n) => if n == 0x8000_0000_0000_0000 {
                Some(i64::MIN)
            } else {
                Some(-(n as i64))
            },
            None => None,
        }
    } else {
        match parse_unsigned(s, i64::MAX as u64) {
            Some(n) => Some(n as i64),
            None => None,
        }
    }
}

/// An optional text as mathematics.
pub open spec fn text_view(text: Option<String>) -> Option<Seq<char>> {
    match text {
        Some(s) => Some(s@),
        None => None,
    }
}

/// A copy of an optional text.
pub fn copy_text(text: &Option<String>) -> (copy: Option<String>)
    ensures
        copy == *text,
{
    match text {
        Some(s) => Some(s.clone()),
        None => None,
    }
}

} // verus!
