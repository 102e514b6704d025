//! Laws of the small things that everything else rests on: levels, texts,
//! numbers, paths, settings, pins and report numbers.

use vstd::prelude::*;

use crate::api::{
    bearer, is_administrative, is_advanced, is_junior, manages_reports, manages_users, uses_app,
};
use crate::clock::{
    instant_text, is_nano, rfc3339_at, rfc3339_of, second_post, text_or_epoch, ClockError,
    FIRST_RFC3339_SECOND, FIRST_SECOND, LAST_SECOND,
};
use crate::fresh::FreshView;
use crate::gpio::{first_off_header, gpio_fault, gpio_sound, off_header, pin_slots, same_pin};
use crate::models::{normal_level, role_of, GpioConfig, StoreDataView};
use crate::numbering::{
    after_allocation, free_distance, lemma_free_distance, next_num, normalized, num_after,
    num_taken,
};
use crate::passcode::{
    argon2_accepts, five_digits, has_long_lane_count, is_phc_string, is_salt, names_lanes_at,
    nine_digits_at, passcode_matches, VerifyError,
};
use crate::paths::{file_name, is_absolute, joined, name_start, parent, suffixed, without_tail};
use crate::settings::{
    all_digits, digits_value, given, log_lines, session_secs, signed_value, switched_on,
    unsigned_value, update_config, value_or, Environment,
};
use crate::text::{
    after_prefix, ascii_lower, decimal, digit_char, hex, is_white_space, same_ignoring_case,
    signed_decimal, text_before, trimmed, trimmed_end, trimmed_start,
};

verus! {

// Levels.

/// A level of one to five is itself; zero is a moderator; every other number is
/// basic.
pub proof fn lemma_what_levels_mean(level: i32)
    ensures
        1 <= level <= 5 ==> normal_level(level) == level,
        level == 0 ==> normal_level(level) == 3,
        level < 0 || level > 5 ==> normal_level(level) == 5,
{
}

/// The five roles have the five names.
pub proof fn lemma_role_names(level: i32)
    ensures
        level == 1 ==> role_of(level) == "Admin"@,
        level == 2 ==> role_of(level) == "Junior admin"@,
        level == 3 || level == 0 ==> role_of(level) == "Moderator"@,
        level == 4 ==> role_of(level) == "Advanced user"@,
        level < 0 || level > 4 ==> role_of(level) == "Basic"@,
{
}

/// Administrators and junior administrators manage users and reports; everybody
/// but basic users uses the application; level four is the advanced user.
pub proof fn lemma_who_may_do_what(level: i32)
    ensures
        manages_users(level) <==> level == 1 || level == 2,
        manages_reports(level) <==> level == 1 || level == 2,
        is_administrative(level) <==> level == 1 || level == 2,
        is_junior(level) <==> level == 2,
        is_advanced(level) <==> level == 4,
        uses_app(level) <==> 0 <= level <= 4,
{
}

// Texts.

/// Trimming takes white space from both ends and nothing else: what is left has
/// none at its ends, and what was taken is white space throughout.
pub proof fn lemma_trimmed_is_the_middle(s: Seq<char>) -> (k: (int, int))
    ensures
        0 <= k.0 <= k.1 <= s.len(),
        trimmed(s) == s.subrange(k.0, k.1),
        forall|i: int| 0 <= i < k.0 ==> is_white_space(#[trigger] s[i]),
        forall|i: int| k.1 <= i < s.len() ==> is_white_space(#[trigger] s[i]),
        trimmed(s).len() > 0 ==> !is_white_space(trimmed(s).first()) && !is_white_space(
            trimmed(s).last(),
        ),
{
    let a = lemma_start(s);
    let t = trimmed_start(s);
    let b = lemma_end(t);
    assert(trimmed(s) =~= s.subrange(a, a + b));
    assert forall|i: int| a + b <= i < s.len() implies is_white_space(#[trigger] s[i]) by {
        assert(t[i - a] == s[i]);
    }
    (a, a + b)
}

proof fn lemma_start(s: Seq<char>) -> (k: int)
    ensures
        0 <= k <= s.len(),
        trimmed_start(s) == s.skip(k),
        forall|i: int| 0 <= i < k ==> is_white_space(#[trigger] s[i]),
        k < s.len() ==> !is_white_space(s[k]),
    decreases s.len(),
{
    if s.len() > 0 && is_white_space(s.first()) {
        let k = lemma_start(s.drop_first());
        assert(s.drop_first().skip(k) =~= s.skip(k + 1));
        assert forall|i: int| 0 <= i < k + 1 implies is_white_space(#[trigger] s[i]) by {
            if i > 0 {
                assert(s.drop_first()[i - 1] == s[i]);
            }
        }
        k + 1
    } else {
        assert(s.skip(0) =~= s);
        0
    }
}

proof fn lemma_end(s: Seq<char>) -> (k: int)
    ensures
        0 <= k <= s.len(),
        trimmed_end(s) == s.take(k),
        forall|i: int| k <= i < s.len() ==> is_white_space(#[trigger] s[i]),
        k > 0 ==> !is_white_space(s[k - 1]),
    decreases s.len(),
{
    if s.len() > 0 && is_white_space(s.last()) {
        let k = lemma_end(s.drop_last());
        assert(s.drop_last().take(k) =~= s.take(k));
        assert forall|i: int| k <= i < s.len() implies is_white_space(#[trigger] s[i]) by {
            if i < s.len() - 1 {
                assert(s.drop_last()[i] == s[i]);
            }
        }
        k
    } else {
        assert(s.take(s.len() as int) =~= s);
        s.len() as int
    }
}

/// A text without white space at its ends is not changed by trimming.
pub proof fn lemma_trimming_leaves_tidy_texts(s: Seq<char>)
    requires
        s.len() > 0 ==> !is_white_space(s.first()) && !is_white_space(s.last()),
    ensures
        trimmed(s) == s,
{
}

/// Two texts are the same up to case iff they are equally long and differ at most
/// in the case of ASCII letters.
pub proof fn lemma_same_up_to_case(a: Seq<char>, b: Seq<char>)
    ensures
        same_ignoring_case(a, b) <==> a.len() == b.len() && forall|i: int|
            0 <= i < a.len() ==> (#[trigger] a[i] == b[i] || ('A' <= a[i] <= 'Z' && b[i] as int
                == a[i] as int + 32) || ('A' <= b[i] <= 'Z' && a[i] as int == b[i] as int + 32)),
{
    if same_ignoring_case(a, b) {
        assert forall|i: int| 0 <= i < a.len() implies (#[trigger] a[i] == b[i] || ('A' <= a[i]
            <= 'Z' && b[i] as int == a[i] as int + 32) || ('A' <= b[i] <= 'Z' && a[i] as int
            == b[i] as int + 32)) by {
            assert(ascii_lower(a[i]) == ascii_lower(b[i]));
        }
    }
    if a.len() == b.len() && forall|i: int|
        0 <= i < a.len() ==> (#[trigger] a[i] == b[i] || ('A' <= a[i] <= 'Z' && b[i] as int
            == a[i] as int + 32) || ('A' <= b[i] <= 'Z' && a[i] as int == b[i] as int + 32)) {
        assert forall|i: int| 0 <= i < a.len() implies ascii_lower(#[trigger] a[i]) == ascii_lower(
            b[i],
        ) by {}
    }
}

/// The white space is the blank, the control characters from tab to carriage
/// return, and the spaces and separators of Unicode.
pub proof fn lemma_what_white_space_is(c: char)
    ensures
        is_white_space(c) <==> {
            ||| '\t' <= c <= '\r'
            ||| c == ' '
            ||| c == '\u{85}'
            ||| c == '\u{a0}'
            ||| c == '\u{1680}'
            ||| '\u{2000}' <= c <= '\u{200a}'
            ||| c == '\u{2028}'
            ||| c == '\u{2029}'
            ||| c == '\u{202f}'
            ||| c == '\u{205f}'
            ||| c == '\u{3000}'
        },
{
}

/// Texts are ordered as in a dictionary, by code point: the first character in
/// which they differ decides, and a text stands before each longer one that starts
/// with it.
pub proof fn lemma_texts_are_ordered_as_in_a_dictionary(
    p: Seq<char>,
    c: char,
    d: char,
    s: Seq<char>,
    t: Seq<char>,
)
    ensures
        text_before(p + seq![c] + s, p + seq![d] + t) <==> c < d || (c == d && text_before(s, t)),
        text_before(p, p + seq![d] + t),
        !text_before(p + seq![c] + s, p),
    decreases p.len(),
{
    let (a, b) = (p + seq![c] + s, p + seq![d] + t);
    if p.len() == 0 {
        assert(a.first() == c && b.first() == d);
        assert(a.drop_first() =~= s);
        assert(b.drop_first() =~= t);
    } else {
        lemma_texts_are_ordered_as_in_a_dictionary(p.drop_first(), c, d, s, t);
        assert(a.first() == p.first() && b.first() == p.first());
        assert(a.drop_first() =~= p.drop_first() + seq![c] + s);
        assert(b.drop_first() =~= p.drop_first() + seq![d] + t);
    }
}

/// Reading back the decimal text of a number gives the number; the text has
/// digits only, and no zero in front.
pub proof fn lemma_decimal_reads_back(n: nat)
    ensures
        all_digits(decimal(n)),
        digits_value(decimal(n)) == n,
        decimal(n).len() > 1 ==> decimal(n)[0] != '0',
        n > 0 ==> decimal(n)[0] != '0',
    decreases n,
{
    if n < 10 {
        let s = decimal(n);
        assert(s.drop_last() =~= Seq::<char>::empty());
        assert(digits_value(Seq::<char>::empty()) == 0);
    } else {
        lemma_decimal_reads_back(n / 10);
        let head = decimal(n / 10);
        let s = decimal(n);
        assert(s.drop_last() =~= head);
        assert(s[0] == head[0]);
    }
}

/// The settings read back every number in the form in which it is written,
/// with a sign or without.
pub proof fn lemma_numbers_read_back(n: int, m: nat)
    ensures
        signed_value(signed_decimal(n)) == Some(n),
        unsigned_value(decimal(m)) == Some(m as int),
        unsigned_value(seq!['+'] + decimal(m)) == Some(m as int),
        signed_value(seq!['+'] + decimal(m)) == Some(m as int),
        unsigned_value(seq!['-'] + decimal(m)) is None,
{
    lemma_decimal_reads_back(m);
    assert((seq!['+'] + decimal(m)).skip(1) =~= decimal(m));
    assert('0' <= decimal(m)[0] <= '9');
    let neg = seq!['-'] + decimal(m);
    assert(neg[0] == '-');
    if n < 0 {
        lemma_decimal_reads_back((-n) as nat);
        assert((seq!['-'] + decimal((-n) as nat)).skip(1) =~= decimal((-n) as nat));
    } else {
        lemma_decimal_reads_back(n as nat);
        assert('0' <= decimal(n as nat)[0] <= '9');
    }
}

/// Where a number is read, the text is digits behind at most one sign.
pub proof fn lemma_what_reads_as_a_number(s: Seq<char>)
    ensures
        unsigned_value(s) is Some ==> s.len() > 0 && (s[0] == '+' || '0' <= s[0] <= '9')
            && s.last() != '+' && forall|i: int|
            1 <= i < s.len() ==> '0' <= #[trigger] s[i] <= '9',
        signed_value(s) is Some ==> s.len() > 0 && (s[0] == '+' || s[0] == '-' || '0' <= s[0]
            <= '9') && s.last() != '+' && s.last() != '-' && forall|i: int|
            1 <= i < s.len() ==> '0' <= #[trigger] s[i] <= '9',
        unsigned_value(s) is Some ==> signed_value(s) == unsigned_value(s),
        signed_value(s) matches Some(v) ==> (v < 0 ==> s[0] == '-'),
{
    if s.len() > 0 && (s[0] == '+' || s[0] == '-') {
        assert forall|i: int| all_digits(s.skip(1)) && 1 <= i < s.len() implies '0'
            <= #[trigger] s[i] <= '9' by {
            assert(s.skip(1)[i - 1] == s[i]);
        }
        assert(all_digits(s.skip(1)) ==> s.last() == s.skip(1).last());
    }
}

/// The value of a hexadecimal digit.
pub open spec fn hex_value(c: char) -> int {
    if c <= '9' {
        c as int - '0' as int
    } else {
        c as int - 'a' as int + 10
    }
}

/// Every byte reads back from its two hexadecimal digits, the high one first, and
/// there are no other characters.
pub proof fn lemma_hex_reads_back(bytes: Seq<u8>)
    ensures
        hex(bytes).len() == 2 * bytes.len(),
        forall|i: int|
            0 <= i < bytes.len() ==> #[trigger] bytes[i] == 16 * hex_value(hex(bytes)[2 * i])
                + hex_value(hex(bytes)[2 * i + 1]),
        forall|i: int|
            0 <= i < hex(bytes).len() ==> '0' <= #[trigger] hex(bytes)[i] <= '9' || 'a'
                <= hex(bytes)[i] <= 'f',
{
    assert forall|i: int| 0 <= i < bytes.len() implies #[trigger] bytes[i] == 16 * hex_value(
        hex(bytes)[2 * i],
    ) + hex_value(hex(bytes)[2 * i + 1]) by {
        assert((2 * i) / 2 == i && (2 * i + 1) / 2 == i);
        assert((2 * i) % 2 == 0 && (2 * i + 1) % 2 == 1);
        let b = bytes[i] as int;
        assert(hex(bytes)[2 * i] == digit_char(b / 16));
        assert(hex(bytes)[2 * i + 1] == digit_char(b % 16));
    }
    assert forall|i: int| 0 <= i < hex(bytes).len() implies '0' <= #[trigger] hex(bytes)[i] <= '9'
        || 'a' <= hex(bytes)[i] <= 'f' by {
        let b = bytes[i / 2] as int;
        assert(hex(bytes)[i] == digit_char(if i % 2 == 0 { b / 16 } else { b % 16 }));
    }
}

/// Any five digits are a passcode, and a passcode is five digits.
pub proof fn lemma_passcodes_are_five_digits(s: Seq<char>, n: nat)
    ensures
        five_digits(s) ==> s.len() == 5 && all_digits(s) && digits_value(s) < 100_000,
        s.len() == 5 && all_digits(s) ==> five_digits(s),
        10_000 <= n < 100_000 ==> five_digits(decimal(n)),
        n >= 100_000 || n < 10_000 ==> !five_digits(decimal(n)),
{
    if five_digits(s) {
        lemma_value_bound(s);
    }
    lemma_decimal_reads_back(n);
    reveal_with_fuel(decimal, 6);
    if n >= 100_000 {
        assert(decimal(n).len() > 5) by {
            lemma_decimal_len(n);
        }
    }
}

proof fn lemma_decimal_len(n: nat)
    ensures
        n >= 10 ==> decimal(n).len() == decimal(n / 10).len() + 1,
        decimal(n).len() >= 1,
        n >= 100_000 ==> decimal(n).len() > 5,
    decreases n,
{
    if n >= 10 {
        lemma_decimal_len(n / 10);
        lemma_decimal_len(n / 100);
        if n >= 100_000 && n < 1_000_000 {
            reveal_with_fuel(decimal, 7);
        }
    }
}

proof fn lemma_value_bound(s: Seq<char>)
    requires
        five_digits(s),
    ensures
        digits_value(s) < 100_000,
{
    reveal_with_fuel(digits_value, 6);
    assert(s.drop_last().last() == s[3]);
    assert(s.drop_last().drop_last().last() == s[2]);
    assert(s.drop_last().drop_last().drop_last().last() == s[1]);
    assert(s.drop_last().drop_last().drop_last().drop_last().last() == s[0]);
    assert(s.drop_last().drop_last().drop_last().drop_last().drop_last().len() == 0);
}

/// A passcode matches exactly where the hash parses, its last lane count is not
/// absurd, and the hash function takes the passcode; a hash that does not parse
/// gives no answer.
pub proof fn lemma_when_a_passcode_matches(hash: Seq<char>, passcode: Seq<char>)
    ensures
        VerifyError::ParsePasscodeHash.text_spec() == "parse passcode hash"@,
        passcode_matches(hash, passcode) is None <==> !is_phc_string(hash),
        passcode_matches(hash, passcode) == Some(true) <==> is_phc_string(hash)
            && !has_long_lane_count(hash) && argon2_accepts(hash, passcode),
{
}

/// A parameter named `p` starts behind the separator at `i`.
pub open spec fn lanes_follow(hash: Seq<char>, i: int) -> bool {
    &&& 0 <= i
    &&& i + 3 <= hash.len()
    &&& hash[i] == '$' || hash[i] == ','
    &&& hash.subrange(i + 1, i + 3) == seq!['p', '=']
}

/// A hash has a lane count that is too long exactly where nine digits follow the
/// last `p=` that stands behind a `$` or a comma.
pub proof fn lemma_where_a_lane_count_stands(hash: Seq<char>, last: int)
    ensures
        (forall|i: int| !#[trigger] lanes_follow(hash, i)) ==> !has_long_lane_count(hash),
        lanes_follow(hash, last) && (forall|i: int| i > last ==> !#[trigger] lanes_follow(hash, i))
            ==> (has_long_lane_count(hash) <==> last + 12 <= hash.len() && forall|k: int|
            last + 3 <= k < last + 12 ==> '0' <= #[trigger] hash[k] <= '9'),
{
    assert forall|i: int| #[trigger] names_lanes_at(hash, i) <==> lanes_follow(hash, i - 1) by {
        if lanes_follow(hash, i - 1) {
            let s = hash.subrange(i, i + 2);
            assert(s[0] == hash[i] && s[1] == hash[i + 1]);
        }
        if names_lanes_at(hash, i) {
            assert(hash.subrange(i, i + 2) =~= seq!['p', '=']);
        }
    }
    if lanes_follow(hash, last) && (forall|i: int| i > last ==> !#[trigger] lanes_follow(hash, i)) {
        let at = last + 1;
        assert(names_lanes_at(hash, at) <==> lanes_follow(hash, at - 1));
        assert forall|j: int| j > at implies !#[trigger] names_lanes_at(hash, j) by {
            assert(!lanes_follow(hash, j - 1));
        }
        if has_long_lane_count(hash) {
            let i = choose|i: int|
                #![trigger names_lanes_at(hash, i)]
                names_lanes_at(hash, i) && nine_digits_at(hash, i + 2) && forall|j: int|
                    j > i ==> !#[trigger] names_lanes_at(hash, j);
            assert(i == at);
        }
        if last + 12 <= hash.len() && forall|k: int|
            last + 3 <= k < last + 12 ==> '0' <= #[trigger] hash[k] <= '9' {
            assert(nine_digits_at(hash, at + 2));
        }
    }
}

/// Of several lane counts the last one counts: it is too long exactly where nine
/// digits stand at its start. Without a lane count none is too long.
pub proof fn lemma_the_last_lane_count_counts(head: Seq<char>, sep: char, tail: Seq<char>)
    requires
        sep == '$' || sep == ',',
        forall|i: int| 0 <= i < tail.len() ==> #[trigger] tail[i] != '=',
    ensures
        has_long_lane_count(head + seq![sep, 'p', '='] + tail) <==> tail.len() >= 9 && forall|
            i: int,
        |
            0 <= i < 9 ==> '0' <= #[trigger] tail[i] <= '9',
        !has_long_lane_count(tail),
{
    let hash = head + seq![sep, 'p', '='] + tail;
    let at = head.len() as int + 1;
    assert(hash[at - 1] == sep && hash[at] == 'p' && hash[at + 1] == '=');
    assert(names_lanes_at(hash, at));
    assert forall|i: int| 0 <= i < tail.len() implies hash[at + 2 + i] == #[trigger] tail[i] by {}
    assert forall|j: int| j > at implies !#[trigger] names_lanes_at(hash, j) by {
        if j + 2 <= hash.len() {
            assert(hash[j + 1] == tail[j - at - 1]);
        }
    }
    if tail.len() >= 9 && forall|i: int| 0 <= i < 9 ==> '0' <= #[trigger] tail[i] <= '9' {
        assert forall|k: int| at + 2 <= k < at + 2 + 9 implies '0' <= #[trigger] hash[k] <= '9' by {
            assert(hash[k] == tail[k - at - 2]);
        }
        assert(nine_digits_at(hash, at + 2));
    }
    if has_long_lane_count(hash) {
        let i = choose|i: int|
            #![trigger names_lanes_at(hash, i)]
            names_lanes_at(hash, i) && nine_digits_at(hash, i + 2) && forall|j: int|
                j > i ==> !#[trigger] names_lanes_at(hash, j);
        assert(i == at);
        assert forall|k: int| 0 <= k < 9 implies '0' <= #[trigger] tail[k] <= '9' by {
            assert(hash[at + 2 + k] == tail[k]);
        }
    }
    if has_long_lane_count(tail) {
        let i = choose|i: int|
            #![trigger names_lanes_at(tail, i)]
            names_lanes_at(tail, i) && nine_digits_at(tail, i + 2) && forall|j: int|
                j > i ==> !#[trigger] names_lanes_at(tail, j);
        assert(tail[i + 1] != '=');
    }
}

// Instants.

/// The clock names the years -9999 to 9999, and RFC 3339 the years 0 to 9999,
/// counted in days of the Gregorian calendar.
pub proof fn lemma_what_the_clock_names()
    ensures
        (LAST_SECOND + 1 - FIRST_RFC3339_SECOND) == 25 * 146_097 * 86_400,
        (FIRST_RFC3339_SECOND - FIRST_SECOND) == (25 * 146_097 - 366) * 86_400,
        (0 - FIRST_RFC3339_SECOND) == 719_528 * 86_400,
{
}

/// The clock names the instants from its first second to the end of its last. The
/// text of one from the year 0 on is its RFC 3339 text; before, it is that of the
/// epoch.
pub proof fn lemma_texts_of_instants(nanos: int, second: int, text: Option<Seq<char>>)
    ensures
        is_nano(nanos) <==> FIRST_SECOND * 1_000_000_000 <= nanos < (LAST_SECOND + 1)
            * 1_000_000_000,
        nanos >= FIRST_RFC3339_SECOND * 1_000_000_000 ==> instant_text(nanos) == rfc3339_at(nanos),
        nanos < FIRST_RFC3339_SECOND * 1_000_000_000 ==> instant_text(nanos)
            == "1970-01-01T00:00:00Z"@,
        rfc3339_of(second) == rfc3339_at(second * 1_000_000_000),
        text is Some ==> text_or_epoch(text) == text->0,
        text is None ==> text_or_epoch(text) == "1970-01-01T00:00:00Z"@,
        FIRST_SECOND <= second <= LAST_SECOND ==> is_nano(second * 1_000_000_000),
{
}

/// What a second has for a text: that of its instant, or none where the clock does
/// not name it.
pub proof fn lemma_texts_of_seconds(second: i64, r: Result<String, ClockError>)
    requires
        second_post(second, r),
    ensures
        r is Ok <==> FIRST_SECOND <= second <= LAST_SECOND,
        FIRST_RFC3339_SECOND <= second <= LAST_SECOND ==> r->Ok_0@ == rfc3339_at(
            second * 1_000_000_000,
        ),
        FIRST_SECOND <= second < FIRST_RFC3339_SECOND ==> r->Ok_0@ == "1970-01-01T00:00:00Z"@,
{
}

/// What is drawn for a change: a salt of twenty-two characters of the Base64
/// alphabet, and the texts of two instants.
pub proof fn lemma_what_is_drawn(fresh: FreshView)
    requires
        fresh.is_drawn(),
    ensures
        fresh.salt.len() == 22,
        is_salt(fresh.salt),
        exists|n: int| is_nano(n) && fresh.record_at == #[trigger] instant_text(n),
        exists|n: int| is_nano(n) && fresh.live_at == #[trigger] instant_text(n),
{
}

// Paths.

/// Joining keeps both parts: an absolute path stands for itself, any other follows
/// the base, with one separator between them where the base needs it.
pub proof fn lemma_joining_keeps_both_parts(base: Seq<char>, p: Seq<char>)
    ensures
        p.len() > 0 && p[0] == '/' ==> joined(base, p) == p,
        (p.len() == 0 || p[0] != '/') ==> {
            &&& base.is_prefix_of(joined(base, p))
            &&& joined(base, p).skip(joined(base, p).len() - p.len()) == p
            &&& joined(base, p).len() - base.len() - p.len() == (if base.len() == 0
                || base.last() == '/' {
                0int
            } else {
                1
            })
            &&& base.len() > 0 ==> joined(base, p)[joined(base, p).len() - p.len() - 1] == '/'
        },
{
    let j = joined(base, p);
    assert(j.skip(j.len() - p.len()) =~= p);
    if p.len() == 0 || p[0] != '/' {
        assert(base =~= j.subrange(0, base.len() as int));
    }
}

proof fn lemma_name_stands_last(dir: Seq<char>, name: Seq<char>)
    requires
        forall|i: int| 0 <= i < name.len() ==> #[trigger] name[i] != '/',
        dir.len() == 0 || dir.last() == '/',
    ensures
        name_start(dir + name) == dir.len(),
    decreases name.len(),
{
    if name.len() > 0 {
        let t = dir + name;
        assert(t.last() == name.last());
        assert(name[name.len() - 1] != '/');
        assert(t.drop_last() =~= dir + name.drop_last());
        lemma_name_stands_last(dir, name.drop_last());
    } else {
        assert(dir + name =~= dir);
    }
}

/// A file name, which has no separator and is neither `.` nor `..`.
pub open spec fn is_plain_name(name: Seq<char>) -> bool {
    &&& name.len() > 0
    &&& forall|i: int| 0 <= i < name.len() ==> #[trigger] name[i] != '/'
    &&& name != seq!['.']
    &&& name != seq!['.', '.']
}

/// The suffix goes behind the name of a file, in the same directory: of a bare
/// name, of a name in the root, and of a name in a directory whose own name is
/// not a dot. A separator at the end of the path is passed over.
pub proof fn lemma_suffix_goes_behind_the_name(
    dir: Seq<char>,
    name: Seq<char>,
    suffix: Seq<char>,
)
    requires
        is_plain_name(name),
        dir.len() > 0 && dir.last() != '/' && dir.last() != '.',
    ensures
        suffixed(name, suffix) == name + suffix,
        suffixed(seq!['/'] + name, suffix) == seq!['/'] + name + suffix,
        suffixed(dir + seq!['/'] + name, suffix) == dir + seq!['/'] + name + suffix,
        suffixed(dir + seq!['/'] + name + seq!['/'], suffix) == dir + seq!['/'] + name + suffix,
{
    let e = Seq::<char>::empty();
    lemma_plain(e, name, suffix);
    assert(e + name =~= name);
    assert(e + name + suffix =~= name + suffix);
    lemma_plain(seq!['/'], name, suffix);
    lemma_plain(dir + seq!['/'], name, suffix);
    let full = dir + seq!['/'] + name;
    let slashed = full + seq!['/'];
    assert(slashed.last() == '/');
    assert(slashed.drop_last() =~= full);
    assert(without_tail(slashed) == without_tail(full));
    assert(is_absolute(slashed) == is_absolute(full));
    assert(file_name(slashed) == file_name(full));
    assert(parent(slashed) == parent(full));
}

/// A path that names no file gets one, with the suffix: the empty path, the root,
/// and a path that ends in the directory above.
pub proof fn lemma_a_path_without_a_name_gets_one(dir: Seq<char>, suffix: Seq<char>)
    requires
        dir.len() == 0 || dir.last() == '/',
    ensures
        suffixed(Seq::empty(), suffix) == "cap-cdts-backend"@ + suffix,
        suffixed(seq!['/'], suffix) == "/cap-cdts-backend"@ + suffix,
        suffixed(dir + seq!['.', '.'], suffix) == dir + "../cap-cdts-backend"@ + suffix,
{
    reveal_strlit("cap-cdts-backend");
    reveal_strlit("/cap-cdts-backend");
    reveal_strlit("../cap-cdts-backend");
    let name = "cap-cdts-backend"@ + suffix;
    assert(name[0] == 'c');
    let e = Seq::<char>::empty();
    assert(file_name(e) is None);
    let root = seq!['/'];
    assert(root.drop_last() =~= e);
    assert(without_tail(root) == without_tail(e));
    assert(file_name(root) is None);
    assert(root + name =~= "/cap-cdts-backend"@ + suffix);
    let up = dir + seq!['.', '.'];
    assert(up.last() == '.' && up[up.len() - 2] == '.');
    assert(without_tail(up) == up);
    reveal_with_fuel(name_start, 3);
    assert(name_start(up) == dir.len()) by {
        assert(up.drop_last().drop_last() =~= dir);
        assert(up.drop_last().last() == '.');
    }
    assert(up.skip(dir.len() as int) =~= seq!['.', '.']);
    assert(file_name(up) is None);
    assert(up + seq!['/'] + name =~= dir + "../cap-cdts-backend"@ + suffix);
}

proof fn lemma_plain(dir: Seq<char>, name: Seq<char>, suffix: Seq<char>)
    requires
        is_plain_name(name),
        dir.len() == 0 || dir == seq!['/'] || (dir.len() > 1 && dir.last() == '/' && dir[dir.len()
            - 2] != '/' && dir[dir.len() - 2] != '.'),
    ensures
        suffixed(dir + name, suffix) == dir + name + suffix,
        file_name(dir + name) is Some,
{
    let p = dir + name;
    assert(p.last() == name.last());
    assert(name[name.len() - 1] != '/');
    if name.len() == 1 && name.last() == '.' {
        assert(name =~= seq!['.']);
    }
    if name.len() > 1 {
        assert(p[p.len() - 2] == name[name.len() - 2]);
        assert(name[name.len() - 2] != '/');
    }
    assert(without_tail(p) == p);
    lemma_name_stands_last(dir, name);
    assert(p.skip(dir.len() as int) =~= name);
    assert(file_name(p) == Some(name));
    assert(p.take(dir.len() as int) =~= dir);
    let q = without_tail(dir);
    if dir.len() == 0 {
        assert(parent(p) =~= e_text());
    } else if dir == seq!['/'] {
        assert(dir.drop_last() =~= e_text());
        assert(without_tail(e_text()) == e_text());
        assert(is_absolute(p)) by {
            assert(p[0] == '/');
        }
        assert(parent(p) == seq!['/']);
    } else {
        let d = dir.drop_last();
        assert(d.last() == dir[dir.len() - 2]);
        assert(without_tail(dir) == without_tail(d));
        assert(without_tail(d) == d);
        assert(parent(p) == d);
        assert(d + seq!['/'] =~= dir);
    }
    let full = name + suffix;
    assert(full[0] == name[0]);
    assert(name[0] != '/');
    assert(joined(parent(p), full) =~= dir + name + suffix);
}

spec fn e_text() -> Seq<char> {
    Seq::empty()
}

// Settings.

/// What the variables of the environment mean, one by one.
pub proof fn lemma_what_variables_mean(raw: Option<Seq<char>>, default: Seq<char>)
    ensures
        raw is None ==> given(raw) is None && switched_on(raw) && value_or(raw, default) == default
            && log_lines(raw) == 400 && session_secs(raw) == 28_800,
        raw is Some ==> value_or(raw, default) == raw->0,
        raw is Some && trimmed(raw->0).len() == 0 ==> given(raw) is None,
        raw is Some && trimmed(raw->0).len() > 0 ==> given(raw) == Some(trimmed(raw->0)),
        raw is Some ==> (switched_on(raw) <==> trimmed(raw->0) != "0"@),
        raw is Some && unsigned_value(trimmed(raw->0)) is Some && unsigned_value(
            trimmed(raw->0),
        )->0 <= usize::MAX ==> log_lines(raw) == unsigned_value(trimmed(raw->0))->0,
        raw is Some && (unsigned_value(trimmed(raw->0)) is None || unsigned_value(
            trimmed(raw->0),
        )->0 > usize::MAX) ==> log_lines(raw) == 400,
        raw is Some && signed_value(trimmed(raw->0)) is Some && i64::MIN <= signed_value(
            trimmed(raw->0),
        )->0 <= i64::MAX ==> session_secs(raw) == signed_value(trimmed(raw->0))->0,
        raw is Some && (signed_value(trimmed(raw->0)) is None || !(i64::MIN <= signed_value(
            trimmed(raw->0),
        )->0 <= i64::MAX)) ==> session_secs(raw) == 28_800,
{
}

/// The updater is set up as the variables say: each that is set is taken, and each
/// that is not has its documented default.
pub proof fn lemma_how_the_updater_is_set_up(env: Environment)
    ensures
        update_config(env).enabled <==> (env.admin_token is Some && trimmed(
            env.admin_token->0@,
        ).len() > 0) && (env.update_enabled is None || trimmed(env.update_enabled->0@) != "0"@),
        env.repo_dir is Some ==> update_config(env).repo_dir == env.repo_dir->0@,
        env.repo_dir is None && env.current_dir is Some ==> update_config(env).repo_dir
            == env.current_dir->0@,
        env.repo_dir is None && env.current_dir is None ==> update_config(env).repo_dir == "."@,
        env.update_state_path is Some ==> update_config(env).state_path
            == env.update_state_path->0@,
        env.update_state_path is None ==> update_config(env).state_path
            == "data/update_state.json"@,
        env.update_new_bin is Some ==> update_config(env).new_bin == env.update_new_bin->0@,
        env.update_new_bin is None ==> update_config(env).new_bin == "bin/cap-cdts-backend.new"@
            + env.exe_suffix@,
        env.update_live_bin is None ==> update_config(env).live_bin is None,
        env.update_live_bin is Some && trimmed(env.update_live_bin->0@).len() == 0
            ==> update_config(env).live_bin is None,
        env.update_live_bin is Some && trimmed(env.update_live_bin->0@).len() > 0
            ==> update_config(env).live_bin == Some(trimmed(env.update_live_bin->0@)),
        update_config(env).auto_restart <==> (env.update_auto_restart is None || trimmed(
            env.update_auto_restart->0@,
        ) != "0"@),
        env.update_log_lines is None ==> update_config(env).max_log_lines == 400,
        env.update_log_lines is Some && unsigned_value(trimmed(env.update_log_lines->0@)) is Some
            && unsigned_value(trimmed(env.update_log_lines->0@))->0 <= usize::MAX ==> update_config(
            env,
        ).max_log_lines == unsigned_value(trimmed(env.update_log_lines->0@))->0,
        env.update_log_lines is Some && (unsigned_value(trimmed(env.update_log_lines->0@)) is None
            || unsigned_value(trimmed(env.update_log_lines->0@))->0 > usize::MAX) ==> update_config(
            env,
        ).max_log_lines == 400,
{
    lemma_value_is_natural(trimmed(env.update_log_lines->0@));
}

proof fn lemma_value_is_natural(s: Seq<char>)
    ensures
        unsigned_value(s) matches Some(v) ==> v >= 0,
{
}

// Headers.

/// The token of a header is what follows the word `Bearer` and a space, without
/// the white space around it, where anything follows.
pub proof fn lemma_what_a_bearer_header_carries(header: Seq<char>)
    ensures
        bearer(None) is None,
        bearer(Some(header)) is Some ==> {
            &&& trimmed(header).len() >= 7
            &&& trimmed(header).take(7) == "Bearer "@
            &&& bearer(Some(header))->0 == trimmed(trimmed(header).skip(7))
            &&& bearer(Some(header))->0.len() > 0
        },
        trimmed(header).len() >= 7 && trimmed(header).take(7) == "Bearer "@ && trimmed(
            trimmed(header).skip(7),
        ).len() > 0 ==> bearer(Some(header)) is Some,
{
    reveal_strlit("Bearer ");
    let h = trimmed(header);
    let word = "Bearer "@;
    assert(word.len() == 7);
    lemma_nothing_trimmed();
    if word.is_prefix_of(h) {
        assert(h.take(7) =~= word);
    }
    if h.len() >= 7 && h.take(7) == word {
        assert(word =~= h.subrange(0, 7));
    }
}

proof fn lemma_nothing_trimmed()
    ensures
        trimmed(Seq::<char>::empty()) == Seq::<char>::empty(),
        after_prefix(Seq::<char>::empty(), "Bearer "@) is None,
{
    reveal_strlit("Bearer ");
}

/// A token without white space around it arrives as it was sent.
pub proof fn lemma_a_bearer_header_carries_its_token(token: Seq<char>)
    requires
        token.len() > 0,
        trimmed(token) == token,
    ensures
        bearer(Some("Bearer "@ + token)) == Some(token),
{
    reveal_strlit("Bearer ");
    let word = "Bearer "@;
    let full = word + token;
    assert(full.first() == 'B');
    assert(full.last() == token.last());
    assert(!is_white_space(full.last())) by {
        let k = lemma_trimmed_is_the_middle(token);
    }
    assert(trimmed(full) == full) by {
        lemma_trimming_leaves_tidy_texts(full);
    }
    assert(word =~= full.subrange(0, 7));
    assert(full.skip(7) =~= token);
}

// Pins.

/// The twelve pins of a configuration.
pub open spec fn pin_of(cfg: GpioConfig, k: int) -> Option<u8> {
    if k == 0 {
        cfg.rfid_rst_gpio
    } else if k == 1 {
        cfg.spdt1_a
    } else if k == 2 {
        cfg.spdt1_b
    } else if k == 3 {
        cfg.spdt2_a
    } else if k == 4 {
        cfg.spdt2_b
    } else if k == 5 {
        cfg.spdt3_a
    } else if k == 6 {
        cfg.spdt3_b
    } else if k == 7 {
        cfg.rotary_a
    } else if k == 8 {
        cfg.rotary_b
    } else if k == 9 {
        cfg.rotary_btn
    } else if k == 10 {
        cfg.cap_touch
    } else {
        cfg.push_btn
    }
}

/// Their names.
pub open spec fn pin_name(k: int) -> Seq<char> {
    if k == 0 {
        "rfid_rst_gpio"@
    } else if k == 1 {
        "spdt1_a"@
    } else if k == 2 {
        "spdt1_b"@
    } else if k == 3 {
        "spdt2_a"@
    } else if k == 4 {
        "spdt2_b"@
    } else if k == 5 {
        "spdt3_a"@
    } else if k == 6 {
        "spdt3_b"@
    } else if k == 7 {
        "rotary_a"@
    } else if k == 8 {
        "rotary_b"@
    } else if k == 9 {
        "rotary_btn"@
    } else if k == 10 {
        "cap_touch"@
    } else {
        "push_btn"@
    }
}

/// A configuration is sound exactly where each of its twelve pins is unassigned or
/// at most 27, any two that are assigned differ, and bus and chip select are
/// unassigned or at most 1.
pub proof fn lemma_sound_pin_by_pin(cfg: GpioConfig)
    ensures
        gpio_sound(cfg) <==> {
            &&& forall|k: int|
                0 <= k < 12 ==> (#[trigger] pin_of(cfg, k) matches Some(p) ==> p <= 27)
            &&& forall|k: int, m: int|
                0 <= k < m < 12 && #[trigger] pin_of(cfg, k) is Some ==> pin_of(cfg, k)
                    != #[trigger] pin_of(cfg, m)
            &&& cfg.rfid_spi_bus matches Some(b) ==> b <= 1
            &&& cfg.rfid_spi_cs matches Some(c) ==> c <= 1
        },
        gpio_fault(cfg) is None <==> gpio_sound(cfg),
{
    crate::gpio::lemma_gpio_fault_iff_unsound(cfg);
    let slots = pin_slots(cfg);
    assert(slots.len() == 12);
    assert forall|k: int| 0 <= k < 12 implies (#[trigger] slots[k]).1 == pin_of(cfg, k) by {}
    if gpio_sound(cfg) {
        assert forall|k: int| 0 <= k < 12 implies (#[trigger] pin_of(cfg, k) matches Some(p) ==> p
            <= 27) by {
            assert(!off_header(slots, k));
        }
        assert forall|k: int, m: int|
            0 <= k < m < 12 && #[trigger] pin_of(cfg, k) is Some implies pin_of(cfg, k)
            != #[trigger] pin_of(cfg, m) by {
            assert(!same_pin(slots, k, m));
        }
    }
    if (forall|k: int| 0 <= k < 12 ==> (#[trigger] pin_of(cfg, k) matches Some(p) ==> p <= 27)) && (
    forall|k: int, m: int|
        0 <= k < m < 12 && #[trigger] pin_of(cfg, k) is Some ==> pin_of(cfg, k)
            != #[trigger] pin_of(cfg, m)) {
        assert forall|k: int| 0 <= k < slots.len() implies !#[trigger] off_header(slots, k) by {
            assert(slots[k].1 == pin_of(cfg, k));
        }
        assert forall|k: int, m: int| 0 <= k < m < slots.len() implies !#[trigger] same_pin(
            slots,
            k,
            m,
        ) by {
            assert(slots[k].1 == pin_of(cfg, k));
            assert(slots[m].1 == pin_of(cfg, m));
        }
    }
}

/// What is told of a faulty configuration: the first pin off the header; else the
/// bus, else the chip select; else the first pin that was assigned before, with
/// the latest pin before it that has the same number.
pub proof fn lemma_what_is_told_of_a_fault(cfg: GpioConfig, k: int, m: int)
    requires
        0 <= k < m < 12,
    ensures
        (forall|i: int| 0 <= i < m ==> (#[trigger] pin_of(cfg, i) matches Some(p) ==> p <= 27))
            && pin_of(cfg, m) is Some && pin_of(cfg, m)->0 > 27 ==> gpio_fault(cfg) == Some(
            pin_name(m) + " must be a BCM GPIO number 0-27 (got "@ + decimal(
                pin_of(cfg, m)->0 as nat,
            ) + ")"@,
        ),
        pin_of(cfg, 0) is Some && pin_of(cfg, 0)->0 > 27 ==> gpio_fault(cfg) == Some(
            pin_name(0) + " must be a BCM GPIO number 0-27 (got "@ + decimal(
                pin_of(cfg, 0)->0 as nat,
            ) + ")"@,
        ),
        (forall|i: int| 0 <= i < 12 ==> (#[trigger] pin_of(cfg, i) matches Some(p) ==> p <= 27))
            ==> {
            &&& cfg.rfid_spi_bus is Some && cfg.rfid_spi_bus->0 > 1 ==> gpio_fault(cfg) == Some(
                "rfid_spi_bus must be 0 or 1 (typical Raspberry Pi uses 0)"@,
            )
            &&& !(cfg.rfid_spi_bus is Some && cfg.rfid_spi_bus->0 > 1) && cfg.rfid_spi_cs is Some
                && cfg.rfid_spi_cs->0 > 1 ==> gpio_fault(cfg) == Some(
                "rfid_spi_cs must be 0 (CE0) or 1 (CE1)"@,
            )
            &&& !(cfg.rfid_spi_bus is Some && cfg.rfid_spi_bus->0 > 1) && !(cfg.rfid_spi_cs is Some
                && cfg.rfid_spi_cs->0 > 1) && pin_of(cfg, k) is Some && pin_of(cfg, k) == pin_of(
                cfg,
                m,
            ) && (forall|i: int, j: int|
                0 <= i < j < m && #[trigger] pin_of(cfg, i) is Some ==> pin_of(cfg, i)
                    != #[trigger] pin_of(cfg, j)) ==> gpio_fault(cfg) == Some(
                "GPIO "@ + decimal(pin_of(cfg, m)->0 as nat) + " is assigned more than once ("@
                    + pin_name(k) + " and "@ + pin_name(m) + ")"@,
            )
        },
{
    let slots = pin_slots(cfg);
    assert(slots.len() == 12);
    assert forall|i: int| 0 <= i < 12 implies (#[trigger] slots[i]).1 == pin_of(cfg, i)
        && slots[i].0 == pin_name(i) by {}
    crate::gpio::lemma_first_off_header(slots, 0);
    crate::gpio::lemma_first_clash(slots, 0);
    assert forall|i: int| 0 <= i < 12 implies (#[trigger] off_header(slots, i) <==> (pin_of(cfg, i)
        is Some && pin_of(cfg, i)->0 > 27)) by {
        assert(slots[i].1 == pin_of(cfg, i));
    }
    match first_off_header(slots, 0) {
        Some(f) => {
            crate::gpio::lemma_first_off_header_is_first(slots, 0);
            assert(off_header(slots, f));
            assert(slots[f].1 == pin_of(cfg, f) && slots[f].0 == pin_name(f));
            if pin_of(cfg, m) is Some && pin_of(cfg, m)->0 > 27 {
                assert(off_header(slots, m));
            }
            if pin_of(cfg, 0) is Some && pin_of(cfg, 0)->0 > 27 {
                assert(off_header(slots, 0));
            }
        },
        None => {
            assert(!off_header(slots, m));
            assert(!off_header(slots, 0));
            if pin_of(cfg, k) is Some && pin_of(cfg, k) == pin_of(cfg, m) && (forall|
                i: int,
                j: int,
            |
                0 <= i < j < m && #[trigger] pin_of(cfg, i) is Some ==> pin_of(cfg, i)
                    != #[trigger] pin_of(cfg, j)) {
                assert(slots[k].1 == pin_of(cfg, k) && slots[m].1 == pin_of(cfg, m));
                assert(same_pin(slots, k, m));
                assert forall|i: int, j: int| 0 <= i < j < m implies !#[trigger] same_pin(
                    slots,
                    i,
                    j,
                ) by {
                    assert(slots[i].1 == pin_of(cfg, i) && slots[j].1 == pin_of(cfg, j));
                }
                crate::gpio::lemma_first_clash_is_first(slots, 0, k, m);
            }
        },
    }
}

// Report numbers and repair.

/// Repair changes three things only: a missing layout version becomes the first, a
/// start for the next number that has not six digits becomes the first, and each
/// user's level becomes the one that it means.
pub proof fn lemma_what_repair_changes(d: StoreDataView, i: int)
    ensures
        normalized(d).schema_version == (if d.schema_version == 0 {
            1
        } else {
            d.schema_version
        }),
        100_000 <= d.next_report_num <= 999_999 ==> normalized(d).next_report_num
            == d.next_report_num,
        d.next_report_num < 100_000 || d.next_report_num > 999_999 ==> normalized(
            d,
        ).next_report_num == 100_000,
        normalized(d).reports == d.reports,
        normalized(d).gpio_config == d.gpio_config,
        normalized(d).users.len() == d.users.len(),
        0 <= i < d.users.len() ==> {
            let (u, v) = (d.users[i], normalized(d).users[i]);
            &&& v.username == u.username
            &&& v.rfid_uid == u.rfid_uid
            &&& v.passcode_hash == u.passcode_hash
            &&& v.created_at_utc == u.created_at_utc
            &&& 1 <= u.level <= 5 ==> v.level == u.level
            &&& u.level == 0 ==> v.level == 3
            &&& u.level < 0 || u.level > 5 ==> v.level == 5
        },
{
}

/// How many steps lead from one six-digit number up to another, going on with the
/// first after the last.
pub open spec fn steps_up(from: u32, to: u32) -> int {
    if to >= from {
        to - from
    } else {
        to - from + 900_000
    }
}

/// The number that is handed out has six digits; while there are fewer reports
/// than numbers, no report has it, and no free number lies closer behind the
/// start. The next search starts behind it, the first number following the last.
pub proof fn lemma_which_number_is_handed_out(d: StoreDataView, free: u32)
    ensures
        100_000 <= next_num(d) <= 999_999,
        d.reports.len() < 900_000 ==> {
            let start = normalized(d).next_report_num;
            &&& forall|i: int|
                0 <= i < d.reports.len() ==> (#[trigger] d.reports[i]).num != next_num(d)
            &&& 100_000 <= free <= 999_999 && (forall|i: int|
                0 <= i < d.reports.len() ==> (#[trigger] d.reports[i]).num != free) ==> steps_up(
                start,
                next_num(d),
            ) <= steps_up(start, free)
            &&& after_allocation(d).next_report_num == (if next_num(d) == 999_999 {
                100_000
            } else {
                (next_num(d) + 1) as u32
            })
        },
        after_allocation(d).reports == d.reports,
        after_allocation(d).gpio_config == d.gpio_config,
        after_allocation(d).users == normalized(d).users,
        after_allocation(d).schema_version == normalized(d).schema_version,
{
    crate::numbering::lemma_next_num(d);
    let n = normalized(d);
    let start = n.next_report_num;
    lemma_free_distance(n.reports, start, 0);
    if d.reports.len() < 900_000 {
        assert forall|i: int| 0 <= i < d.reports.len() implies (#[trigger] d.reports[i]).num
            != next_num(d) by {
            assert(!num_taken(d.reports, next_num(d)));
        }
        crate::numbering::lemma_all_taken_needs_all_reports_if(d.reports, start);
        let k = free_distance(n.reports, start, 0)->0;
        assert(next_num(d) == num_after(start, k));
        assert(steps_up(start, next_num(d)) == k);
        if 100_000 <= free <= 999_999 && (forall|i: int|
            0 <= i < d.reports.len() ==> (#[trigger] d.reports[i]).num != free) {
            let s = steps_up(start, free);
            assert(num_after(start, s) == free);
            assert(!num_taken(d.reports, free));
            if s < k {
                assert(num_taken(n.reports, num_after(start, s)));
            }
        }
    }
}

/// Whatever the number of reports: where some six-digit number is free, so is the
/// one that is handed out. Where all are taken it is the first of them, and the
/// next search starts where this one did.
pub proof fn lemma_what_a_crowded_store_hands_out(d: StoreDataView, free: u32)
    ensures
        100_000 <= free <= 999_999 && (forall|i: int|
            0 <= i < d.reports.len() ==> (#[trigger] d.reports[i]).num != free) ==> forall|i: int|
            0 <= i < d.reports.len() ==> (#[trigger] d.reports[i]).num != next_num(d),
        (forall|n: u32| 100_000 <= n <= 999_999 ==> #[trigger] num_taken(d.reports, n))
            ==> next_num(d) == 100_000 && after_allocation(d).next_report_num == normalized(
            d,
        ).next_report_num,
        num_taken(d.reports, free) <==> exists|i: int|
            0 <= i < d.reports.len() && (#[trigger] d.reports[i]).num == free,
{
    let n = normalized(d);
    let start = n.next_report_num;
    crate::numbering::lemma_next_num(d);
    lemma_free_distance(n.reports, start, 0);
    assert(n.reports == d.reports);
    if 100_000 <= free <= 999_999 && (forall|i: int|
        0 <= i < d.reports.len() ==> (#[trigger] d.reports[i]).num != free) {
        let s = steps_up(start, free);
        assert(num_after(start, s) == free);
        assert(!num_taken(d.reports, free));
        assert(free_distance(n.reports, start, 0) is Some);
        assert(!num_taken(d.reports, next_num(d)));
    }
    if forall|m: u32| 100_000 <= m <= 999_999 ==> #[trigger] num_taken(d.reports, m) {
        if free_distance(n.reports, start, 0) is Some {
            let k = free_distance(n.reports, start, 0)->0;
            assert(100_000 <= num_after(start, k) <= 999_999);
        }
    }
}

} // verus!
