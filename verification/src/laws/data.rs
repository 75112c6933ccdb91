//! What holds of texts, JSON values, headers and settings.
use vstd::prelude::*;
use vstd::utf8::{
    encode_utf8, encode_utf8_decode_utf8, encode_utf8_valid_utf8, is_ascii_chars, valid_utf8,
};

use crate::config::setting;
use crate::headers::{collected, lines_view, value_text};
use crate::json::{
    child, lemma_items_view, lemma_members_view, lemma_object_map_absent, lemma_object_map_last,
    opt_tree, text_in, text_or, Json, JsonView,
};
use crate::text::{
    decimal, digit, digits, leading, lossy_text, lower_case, lowercase_text, message_text,
    occurs_at, occurs_in, opt_text,
};
use crate::wire::parsed;

verus! {

broadcast use vstd::string::group_string_axioms;

/// The value at the end of a path of keys through nested objects.
pub open spec fn at(value: JsonView, path: Seq<Seq<char>>) -> Option<JsonView>
    decreases path.len(),
{
    if path.len() == 0 {
        Some(value)
    } else {
        match value {
            JsonView::Object(members) => if members.dom().contains(path[0]) {
                at(members[path[0]], path.drop_first())
            } else {
                None
            },
            _ => None,
        }
    }
}

/// The text at the end of a path, if there is one.
pub open spec fn told(value: JsonView, path: Seq<Seq<char>>) -> Option<Seq<char>> {
    match at(value, path) {
        Some(JsonView::Text(text)) => Some(text),
        _ => None,
    }
}

/// The text at the end of a path, or the empty text where there is none.
pub open spec fn text_at(value: JsonView, path: Seq<Seq<char>>) -> Seq<char> {
    match told(value, path) {
        Some(text) => text,
        None => Seq::empty(),
    }
}

/// An object holds `text` under `key`.
pub open spec fn tells(value: JsonView, key: Seq<char>, text: Seq<char>) -> bool {
    at(value, seq![key]) == Some(JsonView::Text(text))
}

/// An object has no keys but those of a list.
pub open spec fn has_only(value: JsonView, keys: Seq<Seq<char>>) -> bool {
    match value {
        JsonView::Object(members) => forall|key: Seq<char>| #[trigger]
            members.dom().contains(key) ==> keys.contains(key),
        _ => false,
    }
}

pub(crate) proof fn lemma_at_one(value: JsonView, a: Seq<char>)
    ensures
        at(value, seq![a]) == child(Some(value), a),
{
    reveal_with_fuel(at, 2);
    assert(seq![a].drop_first() =~= Seq::empty());
}

pub(crate) proof fn lemma_at_two(value: JsonView, a: Seq<char>, b: Seq<char>)
    ensures
        at(value, seq![a, b]) == child(child(Some(value), a), b),
{
    assert(seq![a, b].drop_first() =~= seq![b]);
    if let JsonView::Object(members) = value {
        lemma_at_one(members[a], b);
    }
}

pub(crate) proof fn lemma_at_three(value: JsonView, a: Seq<char>, b: Seq<char>, c: Seq<char>)
    ensures
        at(value, seq![a, b, c]) == child(child(child(Some(value), a), b), c),
{
    assert(seq![a, b, c].drop_first() =~= seq![b, c]);
    if let JsonView::Object(members) = value {
        lemma_at_two(members[a], b, c);
    }
}

pub(crate) proof fn lemma_at_four(
    value: JsonView,
    a: Seq<char>,
    b: Seq<char>,
    c: Seq<char>,
    d: Seq<char>,
)
    ensures
        at(value, seq![a, b, c, d]) == child(child(child(child(Some(value), a), b), c), d),
{
    assert(seq![a, b, c, d].drop_first() =~= seq![b, c, d]);
    if let JsonView::Object(members) = value {
        lemma_at_three(members[a], b, c, d);
    }
}

/// A text is found wherever it stands in another one.
pub proof fn law_parts_are_found(prefix: Seq<char>, part: Seq<char>, suffix: Seq<char>)
    ensures
        occurs_in(prefix + part + suffix, part),
{
    let whole = prefix + part + suffix;
    let start = prefix.len() as int;
    assert(whole.subrange(start, start + part.len()) =~= part);
    assert(occurs_at(whole, part, start));
}

/// A text that is found in another one stands there, with something before and after it.
pub proof fn law_found_parts_are_there(whole: Seq<char>, part: Seq<char>)
    requires
        occurs_in(whole, part),
    ensures
        exists|prefix: Seq<char>, suffix: Seq<char>| whole == #[trigger] (prefix + part + suffix),
{
    let start = choose|start: int| occurs_at(whole, part, start);
    let prefix = whole.take(start);
    let suffix = whole.skip(start + part.len());
    assert(whole =~= prefix + part + suffix) by {
        assert forall|i: int| 0 <= i < whole.len() implies whole[i] == (prefix + part + suffix)[i] by {
            if start <= i < start + part.len() {
                assert(whole.subrange(start, start + part.len())[i - start] == part[i - start]);
            }
        }
    }
}

/// The number that a row of decimal digits stands for.
pub open spec fn number_of(numeral: Seq<char>) -> int
    decreases numeral.len(),
{
    if numeral.len() == 0 {
        0
    } else {
        10 * number_of(numeral.drop_last()) + (numeral.last() as int - '0' as int)
    }
}

proof fn lemma_digits_read_back(n: nat)
    ensures
        number_of(digits(n)) == n,
        digits(n).len() > 0,
        forall|i: int| 0 <= i < digits(n).len() ==> '0' <= #[trigger] digits(n)[i] <= '9',
        n > 0 ==> digits(n)[0] != '0',
        n == 0 ==> digits(n).len() == 1,
    decreases n,
{
    if n < 10 {
        reveal_with_fuel(number_of, 2);
        assert(digits(n).drop_last() =~= Seq::empty());
    } else {
        lemma_digits_read_back(n / 10);
        assert(digits(n).drop_last() =~= digits(n / 10));
        assert(digits(n).last() == digit(n % 10));
    }
}

/// A numeral reads back as its number, and is written without leading zeros; that of a negative
/// number is a minus sign and the numeral of its magnitude.
pub proof fn law_numerals_read_back(n: int)
    ensures
        n >= 0 ==> number_of(decimal(n)) == n,
        n >= 0 ==> forall|i: int|
            0 <= i < decimal(n).len() ==> '0' <= #[trigger] decimal(n)[i] <= '9',
        n > 0 ==> decimal(n).len() > 0 && decimal(n)[0] != '0',
        n == 0 ==> decimal(n).len() == 1,
        n < 0 ==> decimal(n) == seq!['-'] + decimal(-n),
{
    if n >= 0 {
        lemma_digits_read_back(n as nat);
    }
}

/// The beginning of a text is its beginning: what follows is cut off, and a shorter text is whole.
pub proof fn law_beginnings(head: Seq<char>, tail: Seq<char>, n: nat)
    ensures
        leading(head + tail, head.len()) == head,
        n >= head.len() ==> leading(head, n) == head,
{
    assert((head + tail).take(head.len() as int) =~= head);
    assert(head.take(head.len() as int) =~= head);
}

/// The lower case of an ASCII text differs in its capital letters only, each of which stands
/// thirty-two places before its small letter.
pub proof fn law_lower_case_of_ascii(text: Seq<char>)
    requires
        is_ascii_chars(text),
    ensures
        lower_case(text).len() == text.len(),
        forall|i: int|
            0 <= i < text.len() ==> (#[trigger] lower_case(text)[i]) as int == if 65 <= text[i] as int
                <= 90 {
                text[i] as int + 32
            } else {
                text[i] as int
            },
{
}

/// The lower case of any other text is the one that the standard library gives.
pub proof fn law_lower_case_of_other_text(text: Seq<char>)
    requires
        !is_ascii_chars(text),
    ensures
        lower_case(text) == lowercase_text(text),
{
}

/// A text that is sent as UTF-8 is received as it was.
pub proof fn law_sent_texts_are_received(text: Seq<char>)
    ensures
        message_text(encode_utf8(text)) == text,
{
    encode_utf8_valid_utf8(text);
    encode_utf8_decode_utf8(text);
}

/// Bytes that are no UTF-8 are received with their ill-formed parts replaced.
pub proof fn law_ill_formed_messages_are_repaired(bytes: Seq<u8>)
    requires
        !valid_utf8(bytes),
    ensures
        message_text(bytes) == lossy_text(bytes),
{
}

/// A text that may be absent is absent, or is that text.
pub proof fn law_optional_texts(text: String)
    ensures
        opt_text(Some(text)) == Some(text@),
        opt_text(None) is None,
{
}

/// Scalars and texts are what they hold.
pub proof fn law_json_scalars(b: bool, n: Option<i64>, text: String)
    ensures
        Json::Null@ == JsonView::Null,
        Json::Bool(b)@ == JsonView::Bool(b),
        Json::Number(n)@ == JsonView::Number(n),
        Json::Text(text)@ == JsonView::Text(text@),
        Json::Text(text)@.as_str() == Some(text@),
        Json::Null@.as_str() is None && Json::Bool(b)@.as_str() is None,
        Json::Number(n)@.as_str() is None,
{
}

/// An array holds its items in their order.
pub proof fn law_json_arrays(items: Vec<Json>)
    ensures
        Json::Array(items)@ is Array,
        Json::Array(items)@->Array_0.len() == items@.len(),
        forall|i: int|
            0 <= i < items@.len() ==> #[trigger] Json::Array(items)@->Array_0[i] == items@[i]@,
        Json::Array(items)@.as_str() is None,
{
    lemma_items_view(items@);
}

/// An object holds under a key the last member that has the key.
pub proof fn law_json_objects_hold_their_members(members: Vec<(String, Json)>, i: int)
    requires
        0 <= i < members@.len(),
        forall|j: int| i < j < members@.len() ==> (#[trigger] members@[j]).0@ != members@[i].0@,
    ensures
        Json::Object(members)@.get(members@[i].0@) == Some(members@[i].1@),
        tells_of(Json::Object(members)@, members@[i].0@, members@[i].1@),
{
    let all = Json::members_view(members@);
    lemma_members_view(members@);
    assert(all[i] == (members@[i].0@, members@[i].1.tree()));
    assert forall|j: int| i < j < all.len() implies all[j].0 != all[i].0 by {
        assert(all[j] == (members@[j].0@, members@[j].1.tree()));
    }
    lemma_object_map_last(all, i);
    lemma_at_one(Json::Object(members)@, members@[i].0@);
}

/// An object holds `value` under `key`.
pub open spec fn tells_of(object: JsonView, key: Seq<char>, value: JsonView) -> bool {
    at(object, seq![key]) == Some(value)
}

/// An object holds nothing under a key that none of its members has.
pub proof fn law_json_objects_hold_nothing_else(members: Vec<(String, Json)>, key: Seq<char>)
    requires
        forall|j: int| 0 <= j < members@.len() ==> (#[trigger] members@[j]).0@ != key,
    ensures
        Json::Object(members)@.get(key) is None,
        at(Json::Object(members)@, seq![key]) is None,
{
    let all = Json::members_view(members@);
    lemma_members_view(members@);
    assert forall|j: int| 0 <= j < all.len() implies all[j].0 != key by {
        assert(all[j] == (members@[j].0@, members@[j].1.tree()));
    }
    lemma_object_map_absent(all, key);
    lemma_at_one(Json::Object(members)@, key);
}

/// A member is looked up in an object, and nowhere else; a text is read from a text, and from
/// nothing else.
pub proof fn law_json_reading(value: JsonView, key: Seq<char>, default: Seq<char>)
    ensures
        value.get(key) == at(value, seq![key]),
        child(Some(value), key) == at(value, seq![key]),
        child(None, key) is None,
        text_in(Some(value)) == (match value {
            JsonView::Text(text) => Some(text),
            _ => None,
        }),
        text_in(None) is None,
        text_or(None, default) == default,
        value is Text ==> text_or(Some(value), default) == value->Text_0,
        !(value is Text) ==> text_or(Some(value), default) == default,
{
    lemma_at_one(value, key);
}

/// What comes out of parsing is what was parsed, or the message.
pub proof fn law_parsing_outcomes(json: Json, message: String)
    ensures
        parsed(Ok(json)) == Ok::<JsonView, Seq<char>>(json@),
        parsed(Err(message)) == Err::<JsonView, Seq<char>>(message@),
        opt_tree(Some(&json)) == Some(json@),
{
}

/// A header value is text where each of its bytes is a tab, a space or a visible ASCII character,
/// and nowhere else; its characters are its bytes.
pub proof fn law_header_values_are_visible_ascii(bytes: Seq<u8>)
    ensures
        value_text(bytes) is Some <==> forall|i: int|
            0 <= i < bytes.len() ==> (#[trigger] bytes[i] == 9 || 32 <= bytes[i] < 127),
        value_text(bytes) matches Some(text) ==> encode_utf8(text) == bytes,
{
    if value_text(bytes) is Some {
        let text = bytes.map_values(|b: u8| b as char);
        assert forall|i: int| 0 <= i < bytes.len() implies (bytes[i] == 9 || 32 <= bytes[i] < 127) by {
            assert(crate::headers::is_visible(bytes[i]));
        }
        assert forall|i: int| 0 <= i < text.len() implies (text[i] as u32) < 128 by {
            assert(crate::headers::is_visible(bytes[i]));
        }
        vstd::utf8::is_ascii_chars_encode_utf8(text);
        assert(encode_utf8(text) =~= bytes);
    }
}

/// The lines of a request are its names and values, each as it was sent.
pub proof fn law_header_lines(lines: Seq<(String, Vec<u8>)>)
    ensures
        lines_view(lines).len() == lines.len(),
        forall|i: int|
            0 <= i < lines.len() ==> #[trigger] lines_view(lines)[i] == (lines[i].0@, lines[i].1@),
{
}

/// Every header comes from a line: the last one under its name whose value is text.
pub proof fn law_headers_come_from_lines(lines: Seq<(Seq<char>, Seq<u8>)>, key: Seq<char>)
    requires
        collected(lines).dom().contains(key),
    ensures
        exists|i: int|
            0 <= i < lines.len() && #[trigger] lower_case(lines[i].0) == key && value_text(
                lines[i].1,
            ) == Some(collected(lines)[key]) && (forall|j: int|
                i < j < lines.len() ==> value_text((#[trigger] lines[j]).1) is None || lower_case(
                    lines[j].0,
                ) != key),
    decreases lines.len(),
{
    let n = lines.len() - 1;
    let before = lines.drop_last();
    if value_text(lines.last().1) is Some && lower_case(lines.last().0) == key {
        assert(lower_case(lines[n].0) == key);
    } else {
        law_headers_come_from_lines(before, key);
        let i = choose|i: int|
            0 <= i < before.len() && #[trigger] lower_case(before[i].0) == key && value_text(
                before[i].1,
            ) == Some(collected(before)[key]) && (forall|j: int|
                i < j < before.len() ==> value_text((#[trigger] before[j]).1) is None || lower_case(
                    before[j].0,
                ) != key);
        assert(lower_case(lines[i].0) == key);
        assert forall|j: int| i < j < lines.len() implies value_text((#[trigger] lines[j]).1) is None
            || lower_case(lines[j].0) != key by {
            if j < n {
                assert(before[j] == lines[j]);
            }
        }
    }
}

/// A setting that is given holds, whatever it is; its default holds only where none is given.
pub proof fn law_settings(value: Seq<char>, default: Seq<char>)
    ensures
        setting(Some(value), default) == value,
        setting(None, default) == default,
{
}

} // verus!
