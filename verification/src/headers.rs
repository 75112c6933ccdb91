//! Request headers.
use vstd::hash_map::StringHashMap;
use vstd::prelude::*;
use vstd::utf8::{
    decode_utf8, encode_utf8, encode_utf8_decode_utf8, encode_utf8_valid_utf8,
    is_ascii_chars_encode_utf8, valid_utf8,
};

use crate::text::{from_utf8, lower_case, opt_text, to_lowercase};

verus! {

/// Request headers, each value under its name.
pub struct Headers {
    entries: StringHashMap<String>,
}

impl View for Headers {
    type V = Map<Seq<char>, Seq<char>>;

    closed spec fn view(&self) -> Map<Seq<char>, Seq<char>> {
        self.entries@.map_values(|value: String| value@)
    }
}

/// A byte is a visible ASCII character, a space or a tab.
pub open spec fn is_visible(b: u8) -> bool {
    b == 9 || 32 <= b <= 126
}

/// The text of a header value: its bytes are its characters, as long as all of them are visible
/// ASCII; any other value is no text.
pub open spec fn value_text(bytes: Seq<u8>) -> Option<Seq<char>> {
    if forall|i: int| 0 <= i < bytes.len() ==> is_visible(#[trigger] bytes[i]) {
        Some(bytes.map_values(|b: u8| b as char))
    } else {
        None
    }
}

/// What the received header lines are: each name with the bytes of its value.
pub open spec fn lines_view(lines: Seq<(String, Vec<u8>)>) -> Seq<(Seq<char>, Seq<u8>)> {
    lines.map_values(|line: (String, Vec<u8>)| (line.0@, line.1@))
}

/// The headers that a sequence of lines makes: names in lower case, the later of two lines under
/// one name in force, and lines whose value is no text left out.
pub open spec fn collected(lines: Seq<(Seq<char>, Seq<u8>)>) -> Map<Seq<char>, Seq<char>>
    decreases lines.len(),
{
    if lines.len() == 0 {
        Map::empty()
    } else {
        let before = collected(lines.drop_last());
        match value_text(lines.last().1) {
            Some(value) => before.insert(lower_case(lines.last().0), value),
            None => before,
        }
    }
}

/// Visible ASCII bytes are well-formed UTF-8, and encode the characters that they are.
proof fn lemma_visible_bytes_are_text(bytes: Seq<u8>)
    requires
        forall|i: int| 0 <= i < bytes.len() ==> is_visible(#[trigger] bytes[i]),
    ensures
        valid_utf8(bytes),
        decode_utf8(bytes) == bytes.map_values(|b: u8| b as char),
{
    let chars = bytes.map_values(|b: u8| b as char);
    assert forall|i: int| 0 <= i < chars.len() implies (chars[i] as u32) < 128 by {
        assert(is_visible(bytes[i]));
    }
    is_ascii_chars_encode_utf8(chars);
    assert(encode_utf8(chars) =~= bytes);
    encode_utf8_valid_utf8(chars);
    encode_utf8_decode_utf8(chars);
}

/// The text of a header value, if it is text: visible ASCII throughout.
pub fn header_text(bytes: Vec<u8>) -> (r: Option<String>)
    ensures
        opt_text(r) == value_text(bytes@),
{
    let mut i: usize = 0;
    while i < bytes.len()
        invariant
            i <= bytes@.len(),
            forall|j: int| 0 <= j < i ==> is_visible(#[trigger] bytes@[j]),
        decreases bytes@.len() - i,
    {
        let b: u8 = bytes[i];
        if !(b == 9 || (32 <= b && b <= 126)) {
            assert(!is_visible(bytes@[i as int]));
            return None;
        }
        i += 1;
    }
    proof {
        lemma_visible_bytes_are_text(bytes@);
    }
    from_utf8(bytes)
}

impl Headers {
    /// No headers.
    pub fn new() -> (r: Headers)
        ensures
            r@ == Map::<Seq<char>, Seq<char>>::empty(),
    {
        let r = Headers { entries: StringHashMap::new() };
        assert(r@ =~= Map::<Seq<char>, Seq<char>>::empty());
        r
    }

    /// Puts `value` under `name`, in place of what was there.
    pub fn insert(&mut self, name: String, value: String)
        ensures
            final(self)@ == old(self)@.insert(name@, value@),
    {
        self.entries.insert(name, value);
        assert(self@ =~= old(self)@.insert(name@, value@));
    }

    /// The value under `name`, if there is one.
    pub fn get(&self, name: &str) -> (r: Option<&str>)
        ensures
            match r {
                Some(value) => self@.dom().contains(name@) && value@ == self@[name@],
                None => !self@.dom().contains(name@),
            },
    {
        match self.entries.get(name) {
            Some(value) => Some(value.as_str()),
            None => None,
        }
    }

    /// Collects header lines: names in lower case, the later of two lines under one name in
    /// force, and lines whose value is no text left out.
    pub fn collect(lines: Vec<(String, Vec<u8>)>) -> (r: Headers)
        ensures
            r@ == collected(lines_view(lines@)),
    {
        let mut headers = Headers::new();
        let ghost all = lines_view(lines@);
        for line in it: lines
            invariant
                it.seq() == lines@,
                all == lines_view(lines@),
                headers@ == collected(all.take(it.index())),
        {
            proof {
                let upto = all.take(it.index() + 1);
                assert(upto.drop_last() =~= all.take(it.index()));
                assert(upto.last() == (line.0@, line.1@));
            }
            let (name, value) = line;
            match header_text(value) {
                Some(text) => {
                    headers.insert(to_lowercase(name.as_str()), text);
                },
                None => {},
            }
        }
        assert(all.take(all.len() as int) =~= all);
        headers
    }
}

} // verus!
