//! Laws of text and of the commands that are written in it.

use crate::commands::{BotCommand, BotCommandView};
use crate::text;
use crate::text::{
    characters, contains, copy_text, decimal_text, ends_with, is_whitespace, leading_line,
    parse_signed, parse_unsigned, same_text, signed_decimal_text, split_first_word, starts_with,
    trim, trim_end,
};
use vstd::prelude::*;
use vstd::string::*;

verus! {

/// Whether `s` holds white space and nothing else.
pub open spec fn is_blank(s: Seq<char>) -> bool {
    forall|i: int| 0 <= i < s.len() ==> text::is_white(#[trigger] s[i])
}

/// Whether `s` holds no white space.
pub open spec fn is_one_word(s: Seq<char>) -> bool {
    forall|i: int| 0 <= i < s.len() ==> !text::is_white(#[trigger] s[i])
}

/// Whether `s` holds digits and nothing else.
pub open spec fn is_all_digits(s: Seq<char>) -> bool {
    forall|i: int| 0 <= i < s.len() ==> '0' <= #[trigger] s[i] <= '9'
}

/// White space is what Unicode calls so, and nothing else.
pub proof fn law_white_space_is_what_unicode_calls_so(c: char, white: bool)
    requires
        call_ensures(is_whitespace, (c,), white),
    ensures
        white == text::is_white(c),
        white <==> '\u{9}' <= c <= '\u{d}' || c == ' ' || c == '\u{85}' || c == '\u{a0}' || c
            == '\u{1680}' || '\u{2000}' <= c <= '\u{200a}' || c == '\u{2028}' || c == '\u{2029}' || c
            == '\u{202f}' || c == '\u{205f}' || c == '\u{3000}',
{
}

/// Two texts are the same where they hold the same characters in the same order, and nowhere else.
pub proof fn law_same_text_is_equality(a: &str, b: &str, same: bool)
    requires
        call_ensures(same_text, (a, b), same),
    ensures
        same == (a@.len() == b@.len() && forall|i: int|
            0 <= i < a@.len() ==> a@[i] == #[trigger] b@[i]),
{
    if a@.len() == b@.len() && forall|i: int| 0 <= i < a@.len() ==> a@[i] == #[trigger] b@[i] {
        assert(a@ =~= b@);
    }
}

/// The characters of a text are those that it holds, and a copy of a text is the same text.
pub proof fn law_texts_are_copied_whole(
    s: &str,
    chars: Vec<char>,
    held: &Option<String>,
    copy: Option<String>,
)
    requires
        call_ensures(characters, (s,), chars),
        call_ensures(copy_text, (held,), copy),
    ensures
        chars@.len() == s@.len(),
        forall|i: int| 0 <= i < s@.len() ==> chars@[i] == #[trigger] s@[i],
        match *held {
            Some(words) => copy matches Some(same) && same@ == words@,
            None => copy is None,
        },
{
}

/// Trimming takes away the white space around a text and nothing of the text itself.
pub proof fn law_trim_takes_the_space_around(
    s: &str,
    rest: &str,
    end: &str,
    before: Seq<char>,
    words: Seq<char>,
    after: Seq<char>,
)
    requires
        call_ensures(trim, (s,), rest),
        call_ensures(trim_end, (s,), end),
        s@ == before + words + after,
        is_blank(before),
        is_blank(after),
        words.len() > 0,
        !text::is_white(words.first()),
        !text::is_white(words.last()),
    ensures
        rest@ == words,
        end@ == before + words,
{
    text::lemma_trimmed_of_parts(before, words, after);
    assert((before + words).last() == words.last());
    text::lemma_trimmed_end_keeps(before + words, after);
    text::lemma_white_end_is_trimmed_away(after);
    assert(before + words + text::trimmed_end(after) =~= before + words);
}

/// Nothing is left of white space that is trimmed.
pub proof fn law_nothing_is_left_of_blanks(s: &str, rest: &str, end: &str)
    requires
        call_ensures(trim, (s,), rest),
        call_ensures(trim_end, (s,), end),
        is_blank(s@),
    ensures
        rest@.len() == 0,
        end@.len() == 0,
{
    text::lemma_white_is_trimmed_away(s@);
    text::lemma_white_end_is_trimmed_away(s@);
}

/// A text is its first word where it has no white space; else it is its first word, one
/// white-space character and the rest.
pub proof fn law_first_word_ends_at_white_space(s: &str, parts: (&str, &str))
    requires
        call_ensures(split_first_word, (s,), parts),
    ensures
        is_one_word(parts.0@),
        if is_one_word(s@) {
            parts.0@ == s@ && parts.1@.len() == 0
        } else {
            let n = parts.0@.len() as int;
            n < s@.len() && text::is_white(s@[n]) && s@ == parts.0@ + seq![s@[n]] + parts.1@
        },
{
    let stop = |c: char| text::is_white(c);
    lemma_length_is_first(s@, stop);
    let n = text::length_before(s@, stop) as int;
    assert forall|i: int| 0 <= i < parts.0@.len() implies !text::is_white(
        #[trigger] parts.0@[i],
    ) by {
        assert(!stop(s@[i]));
    }
    if n < s@.len() {
        assert(stop(s@[n]));
        assert(s@ =~= parts.0@ + seq![s@[n]] + parts.1@);
    } else {
        assert(parts.0@ =~= s@);
    }
}

proof fn lemma_length_is_first(s: Seq<char>, stop: spec_fn(char) -> bool)
    ensures
        text::length_before(s, stop) <= s.len(),
        forall|i: int| 0 <= i < text::length_before(s, stop) ==> !#[trigger] stop(s[i]),
        text::length_before(s, stop) < s.len() ==> stop(s[text::length_before(s, stop) as int]),
    decreases s.len(),
{
    if s.len() > 0 && !stop(s.first()) {
        lemma_length_is_first(s.drop_first(), stop);
        assert forall|i: int| 0 <= i < text::length_before(s, stop) implies !#[trigger] stop(
            s[i],
        ) by {
            if i > 0 {
                assert(s[i] == s.drop_first()[i - 1]);
            }
        }
    }
}

/// The leading line of a text holds no line feed, and behind it comes a line feed or nothing.
pub proof fn law_leading_line_ends_at_the_feed(s: &str, line: &str)
    requires
        call_ensures(leading_line, (s,), line),
    ensures
        forall|i: int| 0 <= i < line@.len() ==> #[trigger] line@[i] != '\n',
        line@.len() <= s@.len(),
        line@ == s@.take(line@.len() as int),
        line@.len() < s@.len() ==> s@[line@.len() as int] == '\n',
{
    let stop = |c: char| c == '\n';
    lemma_length_is_first(s@, stop);
    assert forall|i: int| 0 <= i < line@.len() implies #[trigger] line@[i] != '\n' by {
        assert(!stop(s@[i]));
    }
}

/// A text contains a part where it is something, the part and something, and nowhere else; it
/// begins with the part where nothing stands before it, and ends with it where nothing follows.
pub proof fn law_parts_are_found(
    s: &str,
    part: &str,
    found: bool,
    in_front: bool,
    at_end: bool,
)
    requires
        call_ensures(contains, (s, part), found),
        call_ensures(starts_with, (s, part), in_front),
        call_ensures(ends_with, (s, part), at_end),
    ensures
        found == exists|a: Seq<char>, b: Seq<char>| s@ == #[trigger] (a + part@ + b),
        in_front == exists|b: Seq<char>| s@ == #[trigger] (part@ + b),
        at_end == exists|a: Seq<char>| s@ == #[trigger] (a + part@),
{
    let n = part@.len() as int;
    if found {
        let at = choose|at: int| text::occurs_at(s@, part@, at);
        assert(s@ =~= s@.take(at) + part@ + s@.skip(at + n)) by {
            assert(s@ =~= s@.take(at) + s@.subrange(at, at + n) + s@.skip(at + n));
        }
    }
    assert forall|a: Seq<char>, b: Seq<char>| s@ == #[trigger] (a + part@ + b) implies found by {
        assert(s@.subrange(a.len() as int, a.len() + n) =~= part@);
        assert(text::occurs_at(s@, part@, a.len() as int));
    }
    if in_front {
        assert(s@ =~= s@.subrange(0, n) + s@.skip(n));
        assert(s@ == part@ + s@.skip(n));
    }
    assert forall|b: Seq<char>| s@ == #[trigger] (part@ + b) implies in_front by {
        assert(s@.subrange(0, n) =~= part@);
    }
    if at_end {
        let at = s@.len() - n;
        assert(s@ =~= s@.take(at) + s@.subrange(at, at + n));
        assert(s@ == s@.take(at) + part@);
    }
    assert forall|a: Seq<char>| s@ == #[trigger] (a + part@) implies at_end by {
        let at = s@.len() - n;
        assert(s@.subrange(at, at + n) =~= part@);
    }
}

/// A number that is written down is read back, and another is not written alike.
pub proof fn law_written_numbers_are_read_back(
    n: u64,
    written: String,
    s: &str,
    max: u64,
    value: Option<u64>,
)
    requires
        call_ensures(decimal_text, (n,), written),
        call_ensures(parse_unsigned, (s, max), value),
        s@ == written@ || s@ == seq!['+'] + written@,
    ensures
        n <= max ==> value == Some(n),
        n > max ==> value is None,
        is_all_digits(written@),
        written@.len() > 0,
        written@[0] == '0' ==> n == 0,
{
    lemma_decimal(n as nat);
    assert('0' <= written@[0] <= '9');
    if s@ != written@ {
        assert(s@.drop_first() =~= written@);
    }
}

proof fn lemma_decimal(n: nat)
    ensures
        text::decimal(n).len() > 0,
        is_all_digits(text::decimal(n)),
        text::numeral_value(text::decimal(n)) == n,
        text::decimal(n)[0] == '0' ==> n == 0,
    decreases n,
{
    if n < 10 {
        assert(text::decimal(n).drop_last() =~= Seq::empty());
        assert(text::numeral_value(Seq::empty()) == 0);
    } else {
        lemma_decimal(n / 10);
        assert(text::decimal(n).drop_last() =~= text::decimal(n / 10));
        assert(text::decimal(n)[0] == text::decimal(n / 10)[0]);
    }
}

/// A signed number that is written down is read back, with its sign.
pub proof fn law_written_integers_are_read_back(
    n: i64,
    written: String,
    s: &str,
    value: Option<i64>,
)
    requires
        call_ensures(signed_decimal_text, (n,), written),
        call_ensures(parse_signed, (s,), value),
        s@ == written@,
    ensures
        value == Some(n),
        (written@[0] == '-') == (n < 0),
{
    text::law_signed_numeral_is_read_back(n as int);
    if n >= 0 {
        lemma_decimal(n as nat);
        assert('0' <= written@[0] <= '9');
    }
}

/// A negative number is written as a minus sign and its magnitude, any other as its magnitude.
pub proof fn law_integers_are_written_by_magnitude(
    n: i64,
    written: String,
    magnitude: u64,
    digits: String,
)
    requires
        call_ensures(signed_decimal_text, (n,), written),
        call_ensures(decimal_text, (magnitude,), digits),
        magnitude == (if n < 0 {
            -(n as int)
        } else {
            n as int
        }),
    ensures
        n < 0 ==> written@ == seq!['-'] + digits@,
        n >= 0 ==> written@ == digits@,
{
}

/// A numeral of one more digit has ten times the value, and the value of the digit.
pub proof fn law_digits_are_decimal(
    s: &str,
    longer: &str,
    d: u64,
    value: Option<u64>,
    more: Option<u64>,
    max: u64,
)
    requires
        call_ensures(parse_unsigned, (s, max), value),
        call_ensures(parse_unsigned, (longer, max), more),
        s@.len() > 0,
        is_all_digits(s@),
        d < 10,
        longer@ == s@.push((d + 48) as char),
    ensures
        match value {
            Some(n) => if n * 10 + d <= max {
                more == Some((n * 10 + d) as u64)
            } else {
                more is None
            },
            None => more is None,
        },
{
    assert('0' <= s@[0] <= '9');
    assert(longer@[0] == s@[0]);
    assert forall|i: int| 0 <= i < longer@.len() implies '0' <= #[trigger] longer@[i] <= '9' by {
        if i < s@.len() {
            assert(longer@[i] == s@[i]);
        }
    }
    assert(longer@.drop_last() =~= s@);
    assert(text::is_numeral(s@));
    assert(text::is_numeral(longer@));
    assert(text::numeral_value(longer@) == text::numeral_value(s@) * 10 + d);
}

/// One digit is read as its value, with or without a plus sign, and with a minus sign as minus its
/// value; no digit at all is no number.
pub proof fn law_a_digit_has_its_value(
    s: &str,
    d: u64,
    max: u64,
    value: Option<u64>,
    signed: Option<i64>,
)
    requires
        call_ensures(parse_unsigned, (s, max), value),
        call_ensures(parse_signed, (s,), signed),
        d < 10,
        d <= max,
    ensures
        s@ == seq![(d + 48) as char] || s@ == seq!['+', (d + 48) as char] ==> value == Some(d)
            && signed == Some(d as i64),
        s@ == seq!['-', (d + 48) as char] ==> value is None && (signed matches Some(n) && n == -(d as int)),
        s@.len() == 0 || s@ == seq!['+'] || s@ == seq!['-'] ==> value is None && signed is None,
{
    let c = (d + 48) as char;
    let one = seq![c];
    assert(one.drop_last() =~= Seq::empty());
    assert(text::numeral_value(Seq::empty()) == 0);
    assert(text::numeral_value(one) == d);
    assert(text::is_numeral(one));
    assert(seq!['+', c].drop_first() =~= one);
    assert(seq!['-', c].drop_first() =~= one);
    assert(seq!['+'].drop_first() =~= Seq::empty());
    assert(seq!['-'].drop_first() =~= Seq::empty());
    if s@ == seq!['-', c] {
        text::lemma_no_number(s@, 0, max as nat);
    }
    if s@ == seq!['-'] {
        text::lemma_no_number(s@, 0, max as nat);
    }
}

/// A plus sign in front of digits does not matter. A minus sign makes the number negative: the
/// smallest is one further from zero than the largest. Without a minus sign a number is read alike
/// with a sign and without.
pub proof fn law_signs_are_read(
    s: &str,
    plus: &str,
    minus: &str,
    max: u64,
    value: Option<u64>,
    with_plus: Option<u64>,
    magnitude: Option<u64>,
    negative: Option<i64>,
    small: Option<u64>,
    positive: Option<i64>,
)
    requires
        is_all_digits(s@),
        plus@ == seq!['+'] + s@,
        minus@ == seq!['-'] + s@,
        call_ensures(parse_unsigned, (s, max), value),
        call_ensures(parse_unsigned, (plus, max), with_plus),
        call_ensures(parse_unsigned, (s, 0x8000_0000_0000_0000u64), magnitude),
        call_ensures(parse_signed, (minus,), negative),
        call_ensures(parse_unsigned, (s, i64::MAX as u64), small),
        call_ensures(parse_signed, (s,), positive),
    ensures
        with_plus == value,
        match magnitude {
            Some(n) => negative matches Some(m) && m == -(n as int),
            None => negative is None,
        },
        match small {
            Some(n) => positive matches Some(m) && m == n,
            None => positive is None,
        },
{
    assert(plus@.drop_first() =~= s@);
    assert(minus@.drop_first() =~= s@);
    if s@.len() > 0 {
        assert('0' <= s@[0] <= '9');
    }
}

/// Text with a character that is no digit, but for a sign in front, is no number.
pub proof fn law_other_text_is_no_number(
    s: &str,
    i: int,
    max: u64,
    value: Option<u64>,
    signed: Option<i64>,
)
    requires
        call_ensures(parse_unsigned, (s, max), value),
        call_ensures(parse_signed, (s,), signed),
        0 <= i < s@.len(),
        !('0' <= s@[i] <= '9'),
        i > 0 || (s@[i] != '+' && s@[i] != '-'),
    ensures
        value is None,
        signed is None,
{
    text::lemma_no_number(s@, i, max as nat);
    text::lemma_no_number(s@, i, i64::MAX as nat);
    if s@[0] == '-' {
        assert(s@.drop_first()[i - 1] == s@[i]);
    }
}

/// Text that does not begin with a slash is a prompt: all of it, but for the white space around it.
pub proof fn law_text_is_a_prompt(
    input: &str,
    command: BotCommand,
    before: Seq<char>,
    words: Seq<char>,
    after: Seq<char>,
)
    requires
        call_ensures(BotCommand::parse, (input,), command),
        input@ == before + words + after,
        is_blank(before),
        is_blank(after),
        words.len() > 0,
        !text::is_white(words.first()),
        !text::is_white(words.last()),
        words[0] != '/',
    ensures
        command matches BotCommand::Prompt(prompt) && prompt@ == words,
{
    text::lemma_trimmed_of_parts(before, words, after);
}

/// A message of white space alone is an empty prompt.
pub proof fn law_blank_text_is_an_empty_prompt(input: &str, command: BotCommand)
    requires
        call_ensures(BotCommand::parse, (input,), command),
        is_blank(input@),
    ensures
        command matches BotCommand::Prompt(prompt) && prompt@.len() == 0,
{
    text::lemma_white_is_trimmed_away(input@);
}

/// A command as mathematics holds the texts that it holds.
pub proof fn law_a_command_is_what_it_holds(command: BotCommand)
    ensures
        match command {
            BotCommand::Use(words) => command@ == BotCommandView::Use(words@),
            BotCommand::Cwd(Some(words)) => command@ == BotCommandView::Cwd(Some(words@)),
            BotCommand::Cwd(None) => command@ == BotCommandView::Cwd(None),
            BotCommand::Prompt(words) => command@ == BotCommandView::Prompt(words@),
            BotCommand::Invalid(words) => command@ == BotCommandView::Invalid(words@),
            BotCommand::Approve { for_session } => command@ == (BotCommandView::Approve {
                for_session,
            }),
            BotCommand::Start => command@ is Start,
            BotCommand::New => command@ is New,
            BotCommand::Status => command@ is Status,
            BotCommand::Stop => command@ is Stop,
            BotCommand::Deny => command@ is Deny,
        },
{
}

/// Whether `input` is the name `name` and nothing else, but for white space around it.
pub open spec fn is_name_alone(input: Seq<char>, name: Seq<char>) -> bool {
    exists|before: Seq<char>, after: Seq<char>|
        input == #[trigger] (before + name + after) && is_blank(before) && is_blank(after)
}

/// Whether `input` is the name `name`, white space and the argument `argument`, but for white space
/// around them.
pub open spec fn is_name_with(input: Seq<char>, name: Seq<char>, argument: Seq<char>) -> bool {
    exists|before: Seq<char>, gap: Seq<char>, after: Seq<char>|
        input == #[trigger] (before + (name + gap + argument) + after) && is_blank(before)
            && is_blank(gap) && gap.len() > 0 && is_blank(after)
}

/// A name alone asks for the command of this name without an argument; a name that is none, or
/// that cannot stand alone, is answered with the help.
pub proof fn law_a_name_alone_is_its_command(input: &str, command: BotCommand, name: Seq<char>)
    requires
        call_ensures(BotCommand::parse, (input,), command),
        is_name_alone(input@, name),
        name.len() > 0,
        name[0] == '/',
        is_one_word(name),
    ensures
        name == "/start"@ ==> command is Start,
        name == "/new"@ ==> command is New,
        name == "/status"@ ==> command is Status,
        name == "/stop"@ ==> command is Stop,
        name == "/deny"@ ==> command is Deny,
        name == "/cwd"@ ==> command@ == BotCommandView::Cwd(None),
        name == "/approve"@ ==> command@ == (BotCommandView::Approve { for_session: false }),
        name != "/start"@ && name != "/new"@ && name != "/status"@ && name != "/stop"@ && name
            != "/deny"@ && name != "/cwd"@ && name != "/approve"@ ==> (command matches BotCommand::Invalid(
            help,
        ) && help@ == "/new\n/use <thread_id>\n/status\n/stop"@),
{
    let (before, after) = choose|before: Seq<char>, after: Seq<char>|
        input@ == #[trigger] (before + name + after) && is_blank(before) && is_blank(after);
    assert(!text::is_white(name[name.len() - 1]));
    text::lemma_trimmed_of_parts(before, name, after);
    let stop = |c: char| text::is_white(c);
    text::lemma_length_before(name, stop, name.len());
    assert(text::first_word(name) =~= name);
    assert(text::trimmed(Seq::empty()) =~= Seq::empty());
    lemma_names_differ();
}

/// A name and an argument ask for the command of this name with this argument: `/use` and `/cwd`
/// take it as it is, `/approve` takes the word `session` alone, and the others pass over it.
/// A name that is none is answered with the help.
pub proof fn law_a_name_with_an_argument_is_its_command(
    input: &str,
    command: BotCommand,
    name: Seq<char>,
    argument: Seq<char>,
)
    requires
        call_ensures(BotCommand::parse, (input,), command),
        is_name_with(input@, name, argument),
        name.len() > 0,
        name[0] == '/',
        is_one_word(name),
        argument.len() > 0,
        !text::is_white(argument.first()),
        !text::is_white(argument.last()),
    ensures
        name == "/start"@ ==> command is Start,
        name == "/new"@ ==> command is New,
        name == "/status"@ ==> command is Status,
        name == "/stop"@ ==> command is Stop,
        name == "/deny"@ ==> command is Deny,
        name == "/use"@ ==> command@ == BotCommandView::Use(argument),
        name == "/cwd"@ ==> command@ == BotCommandView::Cwd(Some(argument)),
        name == "/approve"@ && argument == "session"@ ==> command@ == (BotCommandView::Approve {
            for_session: true,
        }),
        (name == "/approve"@ && argument != "session"@) || (name != "/start"@ && name != "/new"@
            && name != "/status"@ && name != "/stop"@ && name != "/deny"@ && name != "/use"@ && name
            != "/cwd"@ && name != "/approve"@) ==> (command matches BotCommand::Invalid(help)
            && help@ == "/new\n/use <thread_id>\n/status\n/stop"@),
{
    let (before, gap, after) = choose|before: Seq<char>, gap: Seq<char>, after: Seq<char>|
        input@ == #[trigger] (before + (name + gap + argument) + after) && is_blank(before)
            && is_blank(gap) && gap.len() > 0 && is_blank(after);
    let line = name + gap + argument;
    assert(line.first() == name[0]);
    assert(line.last() == argument.last());
    text::lemma_trimmed_of_parts(before, line, after);
    let stop = |c: char| text::is_white(c);
    assert forall|i: int| 0 <= i < name.len() implies !#[trigger] stop(line[i]) by {
        assert(line[i] == name[i]);
    }
    assert(line[name.len() as int] == gap[0]);
    text::lemma_length_before(line, stop, name.len());
    assert(text::first_word(line) =~= name);
    let rest = gap.drop_first() + argument + Seq::<char>::empty();
    assert(text::after_first_word(line) =~= rest);
    assert forall|i: int| 0 <= i < gap.drop_first().len() implies text::is_white(
        #[trigger] gap.drop_first()[i],
    ) by {
        assert(gap.drop_first()[i] == gap[i + 1]);
    }
    text::lemma_trimmed_of_parts(gap.drop_first(), argument, Seq::empty());
    lemma_names_differ();
}

proof fn lemma_names_differ()
    ensures
        "/use"@ != "/start"@,
        "/use"@ != "/new"@,
        "/use"@ != "/status"@,
        "/use"@ != "/stop"@,
        "/use"@ != "/deny"@,
        "/cwd"@ != "/start"@,
        "/cwd"@ != "/new"@,
        "/cwd"@ != "/status"@,
        "/cwd"@ != "/stop"@,
        "/cwd"@ != "/deny"@,
        "/cwd"@ != "/use"@,
        "/approve"@.len() == 8,
        "/start"@.len() == 6,
        "/new"@.len() == 4,
        "/status"@.len() == 7,
        "/stop"@.len() == 5,
        "/deny"@.len() == 5,
        "/stop"@ != "/deny"@,
        "/cwd"@.len() == 4,
        "/use"@.len() == 4,
{
    reveal_strlit("/use");
    reveal_strlit("/cwd");
    reveal_strlit("/start");
    reveal_strlit("/new");
    reveal_strlit("/status");
    reveal_strlit("/stop");
    reveal_strlit("/deny");
    reveal_strlit("/approve");
    assert("/use"@[1] == 'u' && "/cwd"@[1] == 'c' && "/new"@[1] == 'n');
    assert("/stop"@[1] == 's' && "/deny"@[1] == 'd');
}

} // verus!
