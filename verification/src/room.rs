//! How a room is named on the command line: by its identifier, or by the
//! URL of its page, either with the room key in the fragment.

use vstd::prelude::*;
use vstd::string::*;
use base64::Engine;
use crate::endpoint::{base_endpoint, base_endpoint_of};
use crate::names::{chars_of, trim_range, trimmed};
use crate::url_text::{
    fragment, fragment_of, parse_of, parse_url, path_segments, segments_of, texts_of,
};

verus! {

/// The longest key, in bytes, that is encoded.
pub const KEY_LIMIT: usize = 0x1000_0000;

/// Why a room cannot be addressed.
#[derive(Clone, Copy, Debug, PartialEq, Eq, Structural)]
pub enum RoomError {
    /// No room identifier was given.
    RoomIdRequired,
    /// The path of the URL names no room.
    RoomIdNotFound,
    /// The endpoint is no URL, or a URL could not be built on it.
    InvalidUrl,
    /// The endpoint's scheme is none of `https`, `http`, `wss`, `ws`.
    UnsupportedScheme,
    /// The endpoint does not take the scheme that goes with its own.
    InvalidScheme,
    /// The room key is not in its encoded form.
    InvalidKey,
}

/// How a room was named.
#[derive(Clone, Debug, PartialEq, Eq)]
pub struct RoomInput {
    pub room_id: String,
    pub endpoint: Option<String>,
    pub key: Option<Vec<u8>>,
}

/// Mathematical model of a room's naming.
pub struct RoomInputView {
    pub room_id: Seq<char>,
    pub endpoint: Option<Seq<char>>,
    pub key: Option<Seq<u8>>,
}

impl View for RoomInput {
    type V = RoomInputView;

    open spec fn view(&self) -> RoomInputView {
        RoomInputView {
            room_id: self.room_id@,
            endpoint: match self.endpoint {
                Some(e) => Some(e@),
                None => None,
            },
            key: match self.key {
                Some(k) => Some(k@),
                None => None,
            },
        }
    }
}

#[verifier::external_type_specification]
#[verifier::external_body]
pub struct ExDecodeError(base64::DecodeError);

/// The URL-safe base64 text of `bytes`, without padding.
pub uninterp spec fn base64url_text(bytes: Seq<u8>) -> Seq<char>;

/// The bytes that `text` is the URL-safe base64 form of, without padding,
/// or `None` where it is no such form.
pub uninterp spec fn base64url_bytes(text: Seq<char>) -> Option<Seq<u8>>;

/// The name and value pairs that `input` holds in the syntax of URL-encoded
/// forms, percent-decoded, in order.
pub uninterp spec fn form_pairs(input: Seq<char>) -> Seq<(Seq<char>, Seq<char>)>;

/// Calls `Engine::encode` of `base64` on the engine `URL_SAFE_NO_PAD`.
///
/// Trusted: the text is a function of the bytes, and decodes to them.
#[verifier::external_body]
fn encode_call(value: &[u8]) -> (text: String)
    requires
        value@.len() <= KEY_LIMIT,
    ensures
        text@ == base64url_text(value@),
        base64url_bytes(text@) == Some(value@),
{
    base64::engine::general_purpose::URL_SAFE_NO_PAD.encode(value)
}

/// Calls `Engine::decode` of `base64` on the engine `URL_SAFE_NO_PAD`.
///
/// Trusted: success and the bytes are a function of the text.
#[verifier::external_body]
fn decode_call(value: &str) -> (result: Result<Vec<u8>, base64::DecodeError>)
    ensures
        match result {
            Ok(bytes) => base64url_bytes(value@) == Some(bytes@),
            Err(_) => base64url_bytes(value@) is None,
        },
{
    base64::engine::general_purpose::URL_SAFE_NO_PAD.decode(value)
}

/// The views of `pairs`, in order.
pub open spec fn pairs_of(pairs: Seq<(String, String)>) -> Seq<(Seq<char>, Seq<char>)> {
    Seq::new(pairs.len(), |i: int| (pairs[i].0@, pairs[i].1@))
}

/// Calls `form_urlencoded::parse` on the bytes of `input` and collects the
/// pairs.
///
/// Trusted: the pairs are a function of the input.
#[verifier::external_body]
fn form_pairs_call(input: &str) -> (pairs: Vec<(String, String)>)
    ensures
        pairs_of(pairs@) == form_pairs(input@),
{
    url::form_urlencoded::parse(input.as_bytes()).into_owned().collect()
}

/// The encoded form of a key, where the key is short enough to be encoded.
pub open spec fn encoded_of(bytes: Seq<u8>) -> Option<Seq<char>> {
    if bytes.len() <= KEY_LIMIT {
        Some(base64url_text(bytes))
    } else {
        None
    }
}

/// Encodes `value` in URL-safe base64 without padding.
pub fn b64url_encode(value: &[u8]) -> (text: Option<String>)
    ensures
        match text {
            Some(t) => encoded_of(value@) == Some(t@) && base64url_bytes(t@) == Some(value@),
            None => encoded_of(value@) is None,
        },
{
    if value.len() > KEY_LIMIT {
        return None;
    }
    Some(encode_call(value))
}

/// Decodes `value` from URL-safe base64 without padding.
pub fn b64url_decode(value: &str) -> (result: Result<Vec<u8>, RoomError>)
    ensures
        match result {
            Ok(bytes) => base64url_bytes(value@) == Some(bytes@),
            Err(e) => base64url_bytes(value@) is None && e == RoomError::InvalidKey,
        },
{
    match decode_call(value) {
        Ok(bytes) => Ok(bytes),
        Err(_) => Err(RoomError::InvalidKey),
    }
}

/// The key that the receiving side works with: the one given on the
/// command line, decoded, or else the one that came with the room.
pub fn receiver_room_key(room_key: Option<Vec<u8>>, given: Option<&str>) -> (result: Result<
    Option<Vec<u8>>,
    RoomError,
>)
    ensures
        match given {
            None => result == Ok::<Option<Vec<u8>>, RoomError>(room_key),
            Some(text) => match result {
                Ok(key) => (key matches Some(bytes) && base64url_bytes(text@) == Some(bytes@)),
                Err(e) => base64url_bytes(text@) is None && e == RoomError::InvalidKey,
            },
        },
{
    match given {
        None => Ok(room_key),
        Some(text) => match b64url_decode(text) {
            Ok(bytes) => Ok(Some(bytes)),
            Err(e) => Err(e),
        },
    }
}

/// The endpoint that a session works with: the one given on the command
/// line, or else the one that came with the room.
pub fn effective_endpoint(given: Option<String>, room_endpoint: Option<String>) -> (endpoint:
    Option<String>)
    ensures
        endpoint == match given {
            Some(e) => Some(e),
            None => room_endpoint,
        },
{
    match given {
        Some(e) => Some(e),
        None => room_endpoint,
    }
}

/// The name under which the room key travels.
pub open spec fn key_name() -> Seq<char> {
    "k"@
}

/// The room key among `pairs`: the decoded value of the first pair named
/// `k`, if there is one.
pub open spec fn key_of_pairs(pairs: Seq<(Seq<char>, Seq<char>)>) -> Result<
    Option<Seq<u8>>,
    RoomError,
>
    decreases pairs.len(),
{
    if pairs.len() == 0 {
        Ok(None)
    } else if pairs.first().0 == key_name() {
        match base64url_bytes(pairs.first().1) {
            Some(bytes) => Ok(Some(bytes)),
            None => Err(RoomError::InvalidKey),
        }
    } else {
        key_of_pairs(pairs.drop_first())
    }
}

/// The room key that a fragment carries.
pub open spec fn key_of_fragment(fragment: Seq<char>) -> Result<Option<Seq<u8>>, RoomError> {
    key_of_pairs(form_pairs(fragment))
}

/// Whether an outcome is the one that the model gives.
pub open spec fn key_matches(result: Result<Option<Vec<u8>>, RoomError>, expected: Result<
    Option<Seq<u8>>,
    RoomError,
>) -> bool {
    match result {
        Ok(Some(bytes)) => expected == Ok::<Option<Seq<u8>>, RoomError>(Some(bytes@)),
        Ok(None) => expected == Ok::<Option<Seq<u8>>, RoomError>(None),
        Err(e) => expected == Err::<Option<Seq<u8>>, RoomError>(e),
    }
}

/// Picks the room key out of the fields of a form: the value of the first
/// field `k`, decoded. Without such a field there is no key.
pub fn key_from_pairs(pairs: &Vec<(String, String)>) -> (result: Result<
    Option<Vec<u8>>,
    RoomError,
>)
    ensures
        key_matches(result, key_of_pairs(pairs_of(pairs@))),
{
    let name = String::from_str("k");
    let ghost all = pairs_of(pairs@);
    let mut i: usize = 0;
    assert(all.skip(0) == all);
    while i < pairs.len()
        invariant
            i <= pairs@.len(),
            all == pairs_of(pairs@),
            name@ == key_name(),
            key_of_pairs(all) == key_of_pairs(all.skip(i as int)),
        decreases pairs@.len() - i,
    {
        proof {
            assert(all.skip(i as int).first() == all[i as int]);
            assert(all.skip(i as int).drop_first() == all.skip(i + 1));
            assert(all[i as int] == (pairs@[i as int].0@, pairs@[i as int].1@));
        }
        if pairs[i].0 == name {
            return match b64url_decode(pairs[i].1.as_str()) {
                Ok(bytes) => Ok(Some(bytes)),
                Err(e) => Err(e),
            };
        }
        i = i + 1;
    }
    Ok(None)
}

/// Reads the room key out of a URL fragment: the fragment is taken as a
/// URL-encoded form, and the value of its first field `k` is decoded. A
/// fragment without such a field carries no key.
pub fn parse_key_fragment(fragment: &str) -> (result: Result<Option<Vec<u8>>, RoomError>)
    ensures
        key_matches(result, key_of_fragment(fragment@)),
{
    let pairs = form_pairs_call(fragment);
    key_from_pairs(&pairs)
}

/// The segments of `segments` that are not empty, in order.
pub open spec fn non_empty(segments: Seq<Seq<char>>) -> Seq<Seq<char>>
    decreases segments.len(),
{
    if segments.len() == 0 {
        Seq::empty()
    } else if segments.last().len() == 0 {
        non_empty(segments.drop_last())
    } else {
        non_empty(segments.drop_last()).push(segments.last())
    }
}

/// The segment that marks the page of a room.
pub open spec fn room_marker() -> Seq<char> {
    "r"@
}

/// The room that a path names: the segment behind a leading `r`, or the
/// only segment; empty segments do not count.
pub open spec fn room_id_in(segments: Seq<Seq<char>>) -> Option<Seq<char>> {
    let parts = non_empty(segments);
    if parts.len() >= 2 && parts[0] == room_marker() {
        Some(parts[1])
    } else if parts.len() == 1 {
        Some(parts[0])
    } else {
        None
    }
}

/// The room that the URL `url` names.
pub open spec fn room_id_of_url(url: Seq<char>) -> Option<Seq<char>> {
    match segments_of(url) {
        Some(Some(segments)) => room_id_in(segments),
        _ => None,
    }
}

/// Finds the room identifier among the segments of a path: the segment
/// behind a leading `r`, or the only segment; empty segments do not count.
pub fn room_id_from_segments(segments: &Vec<String>) -> (room_id: Option<String>)
    ensures
        match room_id {
            Some(id) => room_id_in(texts_of(segments@)) == Some(id@),
            None => room_id_in(texts_of(segments@)) is None,
        },
{
    let ghost all = texts_of(segments@);
    let mut parts: Vec<String> = Vec::new();
    let mut i: usize = 0;
    assert(all.take(0) =~= Seq::<Seq<char>>::empty());
    while i < segments.len()
        invariant
            i <= segments@.len(),
            all == texts_of(segments@),
            texts_of(parts@) == non_empty(all.take(i as int)),
        decreases segments@.len() - i,
    {
        proof {
            assert(all.take(i + 1).drop_last() == all.take(i as int));
            assert(all.take(i + 1).last() == segments@[i as int]@);
        }
        if !segments[i].as_str().is_empty() {
            let ghost shorter = parts@;
            parts.push(segments[i].clone());
            assert(texts_of(parts@) =~= texts_of(shorter).push(segments@[i as int]@));
        }
        i = i + 1;
    }
    assert(all.take(all.len() as int) == all);
    let marker = String::from_str("r");
    if parts.len() >= 2 && parts[0] == marker {
        assert(texts_of(parts@)[0] == parts@[0]@);
        assert(texts_of(parts@)[1] == parts@[1]@);
        Some(parts[1].clone())
    } else if parts.len() == 1 {
        assert(texts_of(parts@)[0] == parts@[0]@);
        Some(parts[0].clone())
    } else {
        assert(parts@.len() >= 2 ==> texts_of(parts@)[0] == parts@[0]@);
        None
    }
}

/// Finds the room identifier in the path of the URL `url`.
pub fn extract_room_id_from_url(url: &str) -> (result: Result<String, RoomError>)
    ensures
        match result {
            Ok(id) => room_id_of_url(url@) == Some(id@),
            Err(e) => room_id_of_url(url@) is None && e == RoomError::RoomIdNotFound,
        },
{
    let found = match path_segments(url) {
        Some(Some(list)) => room_id_from_segments(&list),
        _ => None,
    };
    match found {
        Some(id) => Ok(id),
        None => Err(RoomError::RoomIdNotFound),
    }
}

/// Whether an outcome is the one that the model gives.
pub open spec fn room_matches(
    result: Result<RoomInput, RoomError>,
    expected: Result<RoomInputView, RoomError>,
) -> bool {
    match result {
        Ok(room) => expected == Ok::<RoomInputView, RoomError>(room@),
        Err(e) => expected == Err::<RoomInputView, RoomError>(e),
    }
}

/// The room that the URL `url` names, with the base endpoint of the URL
/// and the key in its fragment.
pub open spec fn room_of_url(url: Seq<char>) -> Result<RoomInputView, RoomError> {
    match room_id_of_url(url) {
        None => Err(RoomError::RoomIdNotFound),
        Some(room_id) => match base_endpoint_of(url) {
            Err(e) => Err(e),
            Ok(endpoint) => match fragment_of(url) {
                Some(Some(fragment)) => match key_of_fragment(fragment) {
                    Err(e) => Err(e),
                    Ok(key) => Ok(RoomInputView { room_id, endpoint: Some(endpoint), key }),
                },
                _ => Ok(RoomInputView { room_id, endpoint: Some(endpoint), key: None }),
            },
        },
    }
}

/// Reads a room out of the URL of its page: the identifier from the path,
/// the endpoint from the URL itself, the key from the fragment.
pub fn parse_room_url(url: &str) -> (result: Result<RoomInput, RoomError>)
    ensures
        room_matches(result, room_of_url(url@)),
{
    let room_id = match extract_room_id_from_url(url) {
        Ok(id) => id,
        Err(e) => {
            return Err(e);
        },
    };
    let endpoint = match base_endpoint(url) {
        Ok(base) => base,
        Err(e) => {
            return Err(e);
        },
    };
    let key = match fragment(url) {
        Some(Some(text)) => match parse_key_fragment(text.as_str()) {
            Ok(key) => key,
            Err(e) => {
                return Err(e);
            },
        },
        _ => None,
    };
    Ok(RoomInput { room_id, endpoint: Some(endpoint), key })
}

/// The place of the first `#` in `s`, or the length of `s` where there is
/// none.
pub open spec fn first_hash(s: Seq<char>) -> int
    decreases s.len(),
{
    if s.len() == 0 || s.first() == '#' {
        0
    } else {
        1 + first_hash(s.drop_first())
    }
}

proof fn lemma_first_hash(s: Seq<char>, i: int)
    requires
        0 <= i <= s.len(),
        forall|j: int| 0 <= j < i ==> s[j] != '#',
        i < s.len() ==> s[i] == '#',
    ensures
        first_hash(s) == i,
    decreases s.len(),
{
    if i > 0 {
        lemma_first_hash(s.drop_first(), i - 1);
    }
}

/// The room that a text other than a URL names: the text in front of the
/// first `#`, trimmed, is the identifier; what follows the `#` is a
/// fragment that may carry the key.
pub open spec fn room_of_plain(value: Seq<char>) -> Result<RoomInputView, RoomError> {
    let cut = first_hash(value);
    let key = if cut < value.len() {
        key_of_fragment(value.skip(cut + 1))
    } else {
        Ok(None)
    };
    match key {
        Err(e) => Err(e),
        Ok(key) => if trimmed(value.take(cut)).len() == 0 {
            Err(RoomError::RoomIdRequired)
        } else {
            Ok(RoomInputView { room_id: trimmed(value.take(cut)), endpoint: None, key })
        },
    }
}

/// The room that `value` names.
pub open spec fn room_of_input(value: Seq<char>) -> Result<RoomInputView, RoomError> {
    match parse_of(value) {
        Some(url) => room_of_url(url),
        None => room_of_plain(value),
    }
}

/// Reads a room out of a text that is no URL: the room's identifier,
/// trimmed, with the key in a fragment behind the first `#`, if there is
/// one.
pub fn parse_plain_room(value: &str) -> (result: Result<RoomInput, RoomError>)
    ensures
        room_matches(result, room_of_plain(value@)),
{
    let chars = chars_of(value);
    let mut cut: usize = 0;
    while cut < chars.len() && chars[cut] != '#'
        invariant
            cut <= chars@.len(),
            forall|j: int| 0 <= j < cut ==> chars@[j] != '#',
        decreases chars@.len() - cut,
    {
        cut = cut + 1;
    }
    proof {
        lemma_first_hash(chars@, cut as int);
    }
    let key = if cut < chars.len() {
        match parse_key_fragment(value.substring_char(cut + 1, chars.len())) {
            Ok(key) => key,
            Err(e) => {
                return Err(e);
            },
        }
    } else {
        None
    };
    let (a, b) = trim_range(&chars, 0, cut);
    if a == b {
        return Err(RoomError::RoomIdRequired);
    }
    let room_id = String::from_str(value.substring_char(a, b));
    Ok(RoomInput { room_id, endpoint: None, key })
}

/// Reads a room out of what was given on the command line: the URL of the
/// room's page, or the room's identifier, either with the key behind a `#`.
pub fn parse_room_input(value: &str) -> (result: Result<RoomInput, RoomError>)
    ensures
        room_matches(result, room_of_input(value@)),
{
    match parse_url(value) {
        Some(url) => parse_room_url(url.as_str()),
        None => parse_plain_room(value),
    }
}

} // verus!
