//! Query parameters: how they are encoded and appended to an address.

use crate::text::chars_of;
use vstd::prelude::*;
use vstd::string::*;
use vstd::utf8::encode_utf8;

verus! {

/// The bytes that the form encoding leaves as they are: ASCII letters and
/// digits, `*`, `-`, `.` and `_`.
pub open spec fn is_unreserved(byte: u8) -> bool {
    ||| byte == 0x2a
    ||| byte == 0x2d
    ||| byte == 0x2e
    ||| byte == 0x5f
    ||| 0x30 <= byte <= 0x39
    ||| 0x41 <= byte <= 0x5a
    ||| 0x61 <= byte <= 0x7a
}

/// The upper-case hexadecimal digit of a value below sixteen.
pub open spec fn hex_digit(nibble: u8) -> char {
    if nibble < 10 {
        ((0x30 + nibble) as u8) as char
    } else {
        ((0x37 + nibble) as u8) as char
    }
}

/// The form encoding of one byte: itself where it is unreserved, `+` for a
/// space, else `%` and its two hexadecimal digits.
pub open spec fn encoded_byte(byte: u8) -> Seq<char> {
    if is_unreserved(byte) {
        seq![byte as char]
    } else if byte == 0x20 {
        seq!['+']
    } else {
        seq!['%', hex_digit(byte / 16), hex_digit(byte % 16)]
    }
}

/// The `application/x-www-form-urlencoded` encoding of a byte string.
pub open spec fn form_encoded(bytes: Seq<u8>) -> Seq<char>
    decreases bytes.len(),
{
    if bytes.len() == 0 {
        Seq::empty()
    } else {
        form_encoded(bytes.drop_last()) + encoded_byte(bytes.last())
    }
}

/// `url::form_urlencoded::byte_serialize`, collected into one string: each
/// byte is encoded by itself, in order.
#[verifier::external_body]
pub(crate) fn form_encode(input: &[u8]) -> (encoded: String)
    ensures
        encoded@ == form_encoded(input@),
{
    url::form_urlencoded::byte_serialize(input).collect()
}

/// One parameter on the wire: the encoded key, `=`, the encoded value.
pub open spec fn encoded_pair(pair: (Seq<char>, Seq<char>)) -> Seq<char> {
    form_encoded(encode_utf8(pair.0)) + seq!['='] + form_encoded(encode_utf8(pair.1))
}

/// The parameters on the wire, in the order given, with `&` between them.
pub open spec fn query_string(pairs: Seq<(Seq<char>, Seq<char>)>) -> Seq<char>
    decreases pairs.len(),
{
    if pairs.len() == 0 {
        Seq::empty()
    } else if pairs.len() == 1 {
        encoded_pair(pairs[0])
    } else {
        query_string(pairs.drop_last()) + seq!['&'] + encoded_pair(pairs.last())
    }
}

/// What stands between an address and the parameters appended to it: `?`
/// where the address has none yet, nothing where it ends with one, else `&`.
pub open spec fn query_separator(address: Seq<char>) -> Seq<char> {
    if !address.contains('?') {
        seq!['?']
    } else if address.last() == '?' {
        Seq::empty()
    } else {
        seq!['&']
    }
}

/// The address with the parameters appended; unchanged where there are none.
pub open spec fn with_query(address: Seq<char>, pairs: Seq<(Seq<char>, Seq<char>)>) -> Seq<char> {
    if pairs.len() == 0 {
        address
    } else {
        address + query_separator(address) + query_string(pairs)
    }
}

/// Encodes the parameters as a query string.
pub fn encode_query(pairs: &Vec<(String, String)>) -> (encoded: String)
    ensures
        encoded@ == query_string(pairs.deep_view()),
{
    let mut encoded = String::new();
    let mut i: usize = 0;
    while i < pairs.len()
        invariant
            i <= pairs.len(),
            encoded@ == query_string(pairs.deep_view().take(i as int)),
        decreases pairs.len() - i,
    {
        let key = form_encode(pairs[i].0.as_str().as_bytes());
        let value = form_encode(pairs[i].1.as_str().as_bytes());
        if i > 0 {
            encoded.push('&');
        }
        encoded.append(key.as_str());
        encoded.push('=');
        encoded.append(value.as_str());
        proof {
            let done = pairs.deep_view().take(i + 1);
            assert(done.drop_last() == pairs.deep_view().take(i as int));
            assert(done.last() == (pairs[i as int].0@, pairs[i as int].1@));
        }
        i += 1;
    }
    assert(pairs.deep_view().take(i as int) == pairs.deep_view());
    encoded
}

/// Appends the parameters to an address.
pub fn append_query(address: String, pairs: &Vec<(String, String)>) -> (full: String)
    ensures
        full@ == with_query(address@, pairs.deep_view()),
{
    if pairs.len() == 0 {
        return address;
    }
    let chars = chars_of(address.as_str());
    let mut has_mark = false;
    let mut i: usize = 0;
    while i < chars.len()
        invariant
            i <= chars.len(),
            has_mark == chars@.take(i as int).contains('?'),
        decreases chars.len() - i,
    {
        if chars[i] == '?' {
            has_mark = true;
        }
        proof {
            let before = chars@.take(i as int);
            let after = chars@.take(i + 1);
            assert(after == before.push(chars@[i as int]));
            if before.contains('?') {
                let k = choose|k: int| 0 <= k < before.len() && before[k] == '?';
                assert(after[k] == '?');
            }
            if chars@[i as int] == '?' {
                assert(after[i as int] == '?');
            }
        }
        i += 1;
    }
    assert(chars@.take(i as int) == chars@);
    let mut full = address;
    if !has_mark {
        full.push('?');
    } else if chars[chars.len() - 1] != '?' {
        full.push('&');
    }
    let encoded = encode_query(pairs);
    full.append(encoded.as_str());
    full
}

/// The characters that separate the parts of an address.
pub open spec fn is_separator(c: char) -> bool {
    c == '&' || c == '=' || c == '?' || c == '/' || c == '#'
}

/// The encoding of one byte holds no separator.
pub proof fn lemma_encoded_byte_has_no_separator(byte: u8)
    ensures
        forall|i: int|
            0 <= i < encoded_byte(byte).len() ==> !is_separator(#[trigger] encoded_byte(byte)[i]),
{
    let high = byte / 16;
    let low = byte % 16;
    assert(high < 16 && low < 16);
    assert(!is_separator(hex_digit(high)));
    assert(!is_separator(hex_digit(low)));
    if is_unreserved(byte) {
        assert(!is_separator(byte as char));
    }
}

/// An encoded text holds no separator: each of its characters is an
/// unreserved one, `+`, `%` or a hexadecimal digit.
pub proof fn lemma_encoded_has_no_separator(bytes: Seq<u8>)
    ensures
        forall|i: int|
            0 <= i < form_encoded(bytes).len() ==> !is_separator(#[trigger] form_encoded(bytes)[i]),
    decreases bytes.len(),
{
    if bytes.len() > 0 {
        lemma_encoded_has_no_separator(bytes.drop_last());
        lemma_encoded_byte_has_no_separator(bytes.last());
        let head = form_encoded(bytes.drop_last());
        let tail = encoded_byte(bytes.last());
        assert forall|i: int| 0 <= i < form_encoded(bytes).len() implies !is_separator(
            #[trigger] form_encoded(bytes)[i],
        ) by {
            if i < head.len() {
                assert(form_encoded(bytes)[i] == head[i]);
            } else {
                assert(form_encoded(bytes)[i] == tail[i - head.len()]);
            }
        }
    }
}

/// A query string holds no `?`, `/` or `#`: what separates its parts is `&`
/// and `=` alone.
pub proof fn lemma_query_string_is_flat(pairs: Seq<(Seq<char>, Seq<char>)>)
    ensures
        forall|i: int|
            0 <= i < query_string(pairs).len() ==> {
                let c = #[trigger] query_string(pairs)[i];
                c != '?' && c != '/' && c != '#'
            },
    decreases pairs.len(),
{
    if pairs.len() > 0 {
        let last = pairs.last();
        let key = form_encoded(encode_utf8(last.0));
        let value = form_encoded(encode_utf8(last.1));
        lemma_encoded_has_no_separator(encode_utf8(last.0));
        lemma_encoded_has_no_separator(encode_utf8(last.1));
        let tail = encoded_pair(last);
        assert forall|i: int| 0 <= i < tail.len() implies !is_separator(tail[i]) || tail[i]
            == '=' by {
            if i < key.len() {
                assert(tail[i] == key[i]);
            } else if i > key.len() {
                assert(tail[i] == value[i - key.len() - 1]);
            }
        }
        if pairs.len() > 1 {
            lemma_query_string_is_flat(pairs.drop_last());
            let head = query_string(pairs.drop_last());
            assert forall|i: int| 0 <= i < query_string(pairs).len() implies {
                let c = #[trigger] query_string(pairs)[i];
                c != '?' && c != '/' && c != '#'
            } by {
                if i < head.len() {
                    assert(query_string(pairs)[i] == head[i]);
                } else if i > head.len() {
                    assert(query_string(pairs)[i] == tail[i - head.len() - 1]);
                }
            }
        }
    }
}

/// Parameters appended to an address that has no `?` stand behind exactly
/// one: it comes right after the address, which is kept as it is, and none
/// follows it.
pub proof fn lemma_query_follows_one_mark(address: Seq<char>, pairs: Seq<(Seq<char>, Seq<char>)>)
    requires
        pairs.len() > 0,
        !address.contains('?'),
    ensures
        ({
            let full = with_query(address, pairs);
            let at = address.len() as int;
            &&& full.len() == at + 1 + query_string(pairs).len()
            &&& full.subrange(0, at) == address
            &&& full[at] == '?'
            &&& full.subrange(at + 1, full.len() as int) == query_string(pairs)
            &&& forall|i: int| at < i < full.len() ==> full[i] != '?' && full[i] != '/'
        }),
{
    lemma_query_string_is_flat(pairs);
    let full = with_query(address, pairs);
    let at = address.len() as int;
    assert forall|i: int| at < i < full.len() implies full[i] != '?' && full[i] != '/' by {
        assert(full[i] == query_string(pairs)[i - at - 1]);
    }
}

} // verus!
