//! Laws of texts, maps, JSON values, points in time and paths.

use vstd::prelude::*;
use vstd::string::*;
use crate::bus::InboundMessage;
use crate::clock::Instant;
use crate::error::ZeptoError;
use crate::http::success_status;
use crate::json::{
    compact_text, item, json_text, last_member, member, members_model, natural_of, text_member,
    text_of, Json, JsonModel, JsonNumber,
};
use crate::text::{
    alphanumeric, ascii_alphanumeric, decimal, joined, letter_or_number, trim_end, trim_start,
    trimmed, utf8_len, white_space,
};
use crate::text_map::{has_key, upsert};

verus! {

/// The text that an object holds under a key.
pub open spec fn text_at(members: Map<Seq<char>, JsonModel>, key: Seq<char>) -> Option<Seq<char>> {
    if members.dom().contains(key) {
        match members[key] {
            JsonModel::Text(s) => Some(s),
            _ => None,
        }
    } else {
        None
    }
}

/// White space among the ASCII characters is the space and the five controls
/// from the tab to the carriage return; no letter, digit or mark of ASCII is.
pub proof fn ascii_white_space(c: char)
    requires
        c <= '\u{7f}',
    ensures
        white_space(c) == (c == ' ' || c == '\t' || c == '\n' || c == '\u{b}' || c == '\u{c}' || c
            == '\r'),
{
}

/// White space beyond ASCII: the next line, the no-break space, the ogham space,
/// the spaces from the en quad to the hair space, the two separators, the two
/// narrow spaces and the ideographic space.
pub proof fn other_white_space(c: char)
    requires
        c > '\u{7f}',
    ensures
        white_space(c) == (c as int == 0x85 || c as int == 0xa0 || c as int == 0x1680 || 0x2000
            <= c as int <= 0x200a || c as int == 0x2028 || c as int == 0x2029 || c as int == 0x202f
            || c as int == 0x205f || c as int == 0x3000),
{
}

/// The length of a text in bytes is that of its UTF-8 encoding.
pub proof fn length_in_bytes(s: Seq<char>)
    ensures
        utf8_len(s) == vstd::utf8::encode_utf8(s).len(),
{
}

/// The ASCII letters and digits, by their numbers.
pub proof fn ascii_letters_and_digits(c: char)
    ensures
        ascii_alphanumeric(c) == (48 <= c as int <= 57 || 65 <= c as int <= 90 || 97 <= c as int
            <= 122),
        c as int <= 127 ==> letter_or_number(c) == ascii_alphanumeric(c),
        c as int > 127 ==> letter_or_number(c) == alphanumeric(c),
{
}

/// Whether `s` is white space from `from` up to `to`.
pub open spec fn blank_between(s: Seq<char>, from: int, to: int) -> bool {
    forall|i: int| from <= i < to ==> white_space(#[trigger] s[i])
}

/// What is cut off in front is white space.
proof fn cut_in_front(s: Seq<char>) -> (from: int)
    ensures
        0 <= from <= s.len(),
        trim_start(s) == s.skip(from),
        blank_between(s, 0, from),
        from < s.len() ==> !white_space(s[from]),
    decreases s.len(),
{
    if s.len() > 0 && white_space(s.first()) {
        let rest = s.drop_first();
        let from = cut_in_front(rest);
        assert(rest.skip(from) =~= s.skip(from + 1));
        assert forall|i: int| 0 <= i < from + 1 implies white_space(#[trigger] s[i]) by {
            if i > 0 {
                assert(rest[i - 1] == s[i]);
            }
        }
        if from < rest.len() {
            assert(rest[from] == s[from + 1]);
        }
        from + 1
    } else {
        assert(s.skip(0) =~= s);
        0
    }
}

/// What is cut off at the end is white space.
proof fn cut_at_the_end(s: Seq<char>) -> (to: int)
    ensures
        0 <= to <= s.len(),
        trim_end(s) == s.take(to),
        blank_between(s, to, s.len() as int),
        to > 0 ==> !white_space(s[to - 1]),
    decreases s.len(),
{
    if s.len() > 0 && white_space(s.last()) {
        let rest = s.drop_last();
        let to = cut_at_the_end(rest);
        assert(rest.take(to) =~= s.take(to));
        assert forall|i: int| to <= i < s.len() implies white_space(#[trigger] s[i]) by {
            if i < rest.len() {
                assert(rest[i] == s[i]);
            }
        }
        to
    } else {
        assert(s.take(s.len() as int) =~= s);
        s.len() as int
    }
}

/// Trimming cuts white space off at the two ends, all of it and nothing else:
/// what is left is the stretch of the text from its first to its last character
/// that is no white space.
pub proof fn trimming_cuts_white_space_alone(s: Seq<char>) -> (r: (int, int))
    ensures
        0 <= r.0 <= r.1 <= s.len(),
        trimmed(s) == s.subrange(r.0, r.1),
        blank_between(s, 0, r.0),
        blank_between(s, r.1, s.len() as int),
        r.0 < r.1 ==> !white_space(s[r.0]) && !white_space(s[r.1 - 1]),
        trimmed(s).len() == 0 <==> blank_between(s, 0, s.len() as int),
{
    let from = cut_in_front(s);
    let rest = s.skip(from);
    let to = cut_at_the_end(rest);
    assert(rest.take(to) =~= s.subrange(from, from + to));
    assert forall|i: int| from + to <= i < s.len() implies white_space(#[trigger] s[i]) by {
        assert(rest[i - from] == s[i]);
    }
    if to > 0 {
        assert(rest[to - 1] == s[from + to - 1]);
        assert(rest[0] == s[from]);
        assert(!white_space(s[from]));
    } else {
        assert forall|i: int| 0 <= i < s.len() implies white_space(#[trigger] s[i]) by {}
    }
    (from, from + to)
}

/// The number that a row of decimal digits stands for.
pub open spec fn number_of(digits: Seq<char>) -> int
    decreases digits.len(),
{
    if digits.len() == 0 {
        0
    } else {
        10 * number_of(digits.drop_last()) + (digits.last() as int - '0' as int)
    }
}

/// A number in decimal is a row of digits that stands for it, with no zero in
/// front of others.
pub proof fn decimal_reads_back(n: nat)
    ensures
        number_of(decimal(n)) == n,
        decimal(n).len() > 0,
        forall|i: int| 0 <= i < decimal(n).len() ==> '0' <= #[trigger] decimal(n)[i] <= '9',
        decimal(n).len() > 1 ==> decimal(n)[0] != '0',
    decreases n,
{
    if n < 10 {
        let one = decimal(n);
        assert(one.drop_last() =~= Seq::empty());
        assert(number_of(one.drop_last()) == 0);
    } else {
        let front = decimal(n / 10);
        decimal_reads_back(n / 10);
        assert(decimal(n).drop_last() =~= front);
        assert(decimal(n)[0] == front[0]);
        if n / 10 < 10 {
            assert(front[0] as int == '0' as int + n / 10);
        } else {
            decimal_reads_back(n / 10 / 10);
        }
    }
}

/// Joined texts are the texts one behind the other with the separator between
/// neighbours, and only there.
pub proof fn joining_separates_neighbours(a: Seq<Seq<char>>, last: Seq<char>, sep: Seq<char>)
    ensures
        joined(Seq::empty(), sep) == Seq::<char>::empty(),
        a.len() == 0 ==> joined(a.push(last), sep) == last,
        a.len() > 0 ==> joined(a.push(last), sep) == joined(a, sep) + sep + last,
{
    assert(a.push(last).drop_last() =~= a);
}

/// Setting a key keeps the order of the others: a new key goes to the end, and
/// one that is there keeps its place.
pub proof fn setting_keeps_the_order<V>(pairs: Seq<(Seq<char>, V)>, key: Seq<char>, value: V)
    ensures
        !has_key(pairs, key) ==> upsert(pairs, key, value) == pairs.push((key, value)),
        has_key(pairs, key) ==> upsert(pairs, key, value).len() == pairs.len(),
        has_key(pairs, key) ==> forall|i: int|
            0 <= i < pairs.len() ==> (#[trigger] upsert(pairs, key, value)[i]).0 == pairs[i].0
                && upsert(pairs, key, value)[i].1 == (if pairs[i].0 == key {
                value
            } else {
                pairs[i].1
            }),
{
}

/// The member of an object under a key is what the object holds there; other
/// values have no members, and only arrays have items.
pub proof fn members_and_items(
    members: Map<Seq<char>, JsonModel>,
    items: Seq<JsonModel>,
    other: JsonModel,
    key: Seq<char>,
    index: int,
)
    ensures
        member(JsonModel::Object(members), key) == (if members.dom().contains(key) {
            Some(members[key])
        } else {
            None
        }),
        text_member(JsonModel::Object(members), key) == text_at(members, key),
        !(other is Object) ==> member(other, key) is None && text_member(other, key) is None,
        item(JsonModel::Array(items), index) == (if 0 <= index < items.len() {
            Some(items[index])
        } else {
            None
        }),
        !(other is Array) ==> item(other, index) is None,
        other matches JsonModel::Text(s) ==> text_of(other) == Some(s),
        !(other is Text) ==> text_of(other) is None,
{
}

/// Just the integers that fit in `u64` are natural numbers.
pub proof fn natural_numbers(value: JsonModel)
    ensures
        match natural_of(value) {
            Some(n) => value == JsonModel::Integer(n as int),
            None => !(value matches JsonModel::Integer(n) && 0 <= n <= 0xffff_ffff_ffff_ffff),
        },
{
}

/// Of several members under one key the last counts.
pub proof fn last_member_counts(members: Seq<(String, Json)>, i: int)
    requires
        0 <= i < members.len(),
        forall|j: int| i < j < members.len() ==> (#[trigger] members[j]).0@ != members[i].0@,
    ensures
        members_model(members).dom().contains(members[i].0@),
        members_model(members)[members[i].0@] == members[i].1@,
        last_member(members, members[i].0@) == Some(members[i].1),
    decreases members.len(),
{
    if i < members.len() - 1 {
        let front = members.drop_last();
        assert(members[members.len() - 1].0@ != members[i].0@);
        assert forall|j: int| i < j < front.len() implies (#[trigger] front[j]).0@
            != front[i].0@ by {
            assert(front[j] == members[j]);
        }
        last_member_counts(front, i);
        assert(front[i] == members[i]);
    }
}

/// The text of a JSON value: the words of JSON, integers in decimal with a sign
/// where they are negative, and what is left to the printer.
pub proof fn text_of_json(value: JsonModel)
    ensures
        value is Null ==> json_text(value) == "null"@,
        value == JsonModel::Bool(true) ==> json_text(value) == "true"@,
        value == JsonModel::Bool(false) ==> json_text(value) == "false"@,
        value matches JsonModel::Integer(n) ==> (if n >= 0 {
            json_text(value) == decimal(n as nat)
        } else {
            json_text(value) == "-"@ + decimal((-n) as nat)
        }),
        value is Real || value is Text || value is Array || value is Object ==> json_text(value)
            == compact_text(value),
{
}

/// What the numbers and values of the library stand for.
pub proof fn json_values(n: u64, i: i64, b: bool, s: String)
    ensures
        JsonNumber::Unsigned(n).model() == JsonModel::Integer(n as int),
        JsonNumber::Signed(i).model() == JsonModel::Integer(i as int),
        Json::Null@ == JsonModel::Null,
        Json::Bool(b)@ == JsonModel::Bool(b),
        Json::Text(s)@ == JsonModel::Text(s@),
{
}

/// A point in time comes before another just where its second does, or in the
/// same second its nanosecond.
pub proof fn order_of_time(a: Instant, b: Instant, c: Instant)
    ensures
        a.secs < b.secs ==> a.earlier(b),
        a.secs == b.secs && a.nanos < b.nanos ==> a.earlier(b),
        !a.earlier(a),
        a.earlier(b) ==> !b.earlier(a),
        a.earlier(b) && b.earlier(c) ==> a.earlier(c),
        a != b ==> a.earlier(b) || b.earlier(a),
{
}

/// The statuses of success are those of three digits that begin with a two.
pub proof fn statuses_of_success(status: u16)
    ensures
        success_status(status) == (status / 100 == 2),
{
}

/// What an error and a message say.
pub proof fn errors_and_messages(text: String, message: InboundMessage)
    ensures
        ZeptoError::Tool(text).text() == text@,
        ZeptoError::Config(text).text() == text@,
        ZeptoError::Provider(text).text() == text@,
        message@.channel == message.channel@,
        message@.sender_id == message.sender_id@,
        message@.chat_id == message.chat_id@,
        message@.content == message.content@,
{
}

} // verus!
