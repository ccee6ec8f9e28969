//! The shareable URL fragment: `#` followed by the base64 form of the text
//! the engine prints for the position.
use vstd::prelude::*;
use vstd::string::*;
use vstd::utf8::{decode_utf8, encode_utf8, is_ascii_chars, valid_utf8};
use crate::engine::{
    engine_text, fits_at, is_digit, load_position, reloaded, sfen_of, short_numbers, spaces_in,
    Tables, MAX_TEXT_LEN,
};

verus! {

broadcast use vstd::string::is_ascii_spec_bytes, vstd::utf8::encode_utf8_valid_utf8,
    vstd::utf8::encode_utf8_decode_utf8, vstd::utf8::is_ascii_chars_encode_utf8;

#[verifier::external_type_specification]
#[verifier::external_body]
pub struct ExBase64FragmentError(base64::DecodeError);

#[verifier::external_type_specification]
#[verifier::external_body]
pub struct ExUtf8Error(core::str::Utf8Error);

/// The standard padded base64 form of `bytes`.
pub uninterp spec fn b64(bytes: Seq<u8>) -> Seq<char>;

/// The bytes whose standard padded base64 form is `bytes`, or `None` when
/// `bytes` is not such a form.
pub uninterp spec fn unb64(bytes: Seq<u8>) -> Option<Seq<u8>>;

/// The bytes of an ASCII text, one per character.
pub open spec fn ascii_bytes(s: Seq<char>) -> Seq<u8> {
    Seq::new(s.len(), |i: int| s[i] as u8)
}

/// Relies on `base64::encode` (standard alphabet, padded): its output is
/// ASCII, and `base64::decode` gives the input back from it.
#[verifier::external_body]
fn encode_base64(bytes: &[u8]) -> (r: String)
    ensures
        r@ == b64(bytes@),
        is_ascii_chars(r@),
        unb64(ascii_bytes(r@)) == Some(bytes@),
{
    base64::encode(bytes)
}

/// Relies on `base64::decode` (standard alphabet, padded).
#[verifier::external_body]
fn decode_base64(bytes: &[u8]) -> (r: Result<Vec<u8>, base64::DecodeError>)
    ensures
        r is Ok <==> unb64(bytes@) is Some,
        r matches Ok(v) ==> Some(v@) == unb64(bytes@),
{
    base64::decode(bytes)
}

/// Relies on `std::str::from_utf8`: succeeds exactly on valid UTF-8.
#[verifier::external_body]
fn text_from_utf8(bytes: &[u8]) -> (r: Result<&str, core::str::Utf8Error>)
    ensures
        r is Ok <==> valid_utf8(bytes@),
        r matches Ok(s) ==> s@ == decode_utf8(bytes@),
{
    core::str::from_utf8(bytes)
}

/// Why a fragment does not give a position.
#[derive(Clone, Copy, Debug, PartialEq, Eq, Structural)]
pub enum FragmentError {
    /// The fragment does not start with `#`.
    MissingMarker,
    /// What follows `#` is not base64.
    BadEncoding,
    /// The decoded bytes are not UTF-8 text.
    BadText,
    /// The engine does not accept the text as a position.
    BadPosition,
}

/// The fragment for the position printed as `text`.
pub open spec fn fragment_of(text: Seq<char>) -> Seq<char> {
    seq!['#'] + b64(encode_utf8(text))
}

/// The text carried by fragment `f`.
pub open spec fn fragment_text(f: Seq<char>) -> Result<Seq<char>, FragmentError> {
    if !is_ascii_chars(f) {
        Err(FragmentError::BadEncoding)
    } else if f.len() == 0 || f[0] != '#' {
        Err(FragmentError::MissingMarker)
    } else {
        match unb64(ascii_bytes(f.drop_first())) {
            None => Err(FragmentError::BadEncoding),
            Some(b) => if valid_utf8(b) {
                Ok(decode_utf8(b))
            } else {
                Err(FragmentError::BadText)
            },
        }
    }
}

/// The position that fragment `f` loads.
pub open spec fn decoded(f: Seq<char>) -> Result<shogi::Position, FragmentError> {
    match fragment_text(f) {
        Err(e) => Err(e),
        Ok(t) => if !short_numbers(t) {
            Err(FragmentError::BadPosition)
        } else {
            match reloaded(t) {
                Some(u) => Ok(u),
                None => Err(FragmentError::BadPosition),
            }
        },
    }
}

/// The fragment that shares `position`. Decoding it gives back exactly the
/// text the engine prints for the position, and loading the fragment sets an
/// empty position from that text.
pub fn encode(position: &shogi::Position) -> (r: String)
    ensures
        r@ == fragment_of(sfen_of(*position)),
        fragment_text(r@) == Ok::<Seq<char>, FragmentError>(sfen_of(*position)),
        short_numbers(sfen_of(*position)) ==> decoded(r@) == match reloaded(sfen_of(*position)) {
            Some(q) => Ok::<shogi::Position, FragmentError>(q),
            None => Err(FragmentError::BadPosition),
        },
{
    let text = engine_text(position);
    let bytes = text.as_str().as_bytes();
    let body = encode_base64(bytes);
    let mut r = String::from_str("#");
    proof {
        reveal_strlit("#");
    }
    r.append(body.as_str());
    proof {
        let f = r@;
        assert(f.drop_first() == body@);
        assert(is_ascii_chars(f)) by {
            assert forall|i: int| 0 <= i < f.len() implies '\0' <= #[trigger] f[i] <= '\u{7f}' by {
                if i > 0 {
                    assert(f[i] == body@[i - 1]);
                }
            }
        }
        assert(bytes@ == encode_utf8(text@));
    }
    r
}

/// Whether the engine may be handed `text`: see `short_numbers`.
pub(crate) fn has_short_numbers(text: &str) -> (r: bool)
    ensures
        r == short_numbers(text@),
{
    if !text.is_ascii() {
        return false;
    }
    let bytes = text.as_bytes();
    let n = bytes.len();
    if n > MAX_TEXT_LEN {
        return false;
    }
    proof {
        assert(bytes@ == ascii_bytes(text@));
    }
    let ghost t = text@;
    let mut spaces: usize = 0;
    let mut i: usize = 0;
    while i < n
        invariant
            n == bytes@.len(),
            n == t.len(),
            t == text@,
            n <= MAX_TEXT_LEN,
            is_ascii_chars(t),
            bytes@ == ascii_bytes(t),
            i <= n,
            spaces == spaces_in(t.take(i as int)),
            spaces <= i,
            forall|j: int| 0 <= j < i ==> #[trigger] fits_at(t, j),
        decreases n - i,
    {
        let c = bytes[i];
        proof {
            assert forall|k: int| 0 <= k < n implies bytes@[k] == t[k] as u8 && (is_digit(t[k])
                <==> 48 <= bytes@[k] <= 57) && (t[k] == ' ' <==> bytes@[k] == 32) && ('\t'
                <= t[k] <= '\r' <==> 9 <= bytes@[k] <= 13) && (t[k] == '1' <==> bytes@[k] == 49) && (t[k]
                <= '8' <==> bytes@[k] <= 56) by {}
        }
        if 9 <= c && c <= 13 {
            assert(!fits_at(t, i as int));
            return false;
        }
        if c == 32 && (i == 0 || (i + 1 < n && bytes[i + 1] == 32)) {
            assert(!fits_at(t, i as int));
            return false;
        }
        if i + 2 < n && 48 <= c && c <= 57 && 48 <= bytes[i + 1] && bytes[i + 1] <= 57 && 48
            <= bytes[i + 2] && bytes[i + 2] <= 57 {
            if spaces != 3 || (i + 4 < n && 48 <= bytes[i + 3] && bytes[i + 3] <= 57 && 48
                <= bytes[i + 4] && bytes[i + 4] <= 57) {
                assert(!fits_at(t, i as int));
                return false;
            }
        }
        if spaces == 2 && i + 1 < n && 48 <= c && c <= 57 && 48 <= bytes[i + 1] && bytes[i + 1]
            <= 57 && (c != 49 || bytes[i + 1] > 56) {
            assert(!fits_at(t, i as int));
            return false;
        }
        assert(fits_at(t, i as int));
        proof {
            assert(t.take(i + 1).drop_last() == t.take(i as int));
            assert(t.take(i + 1).last() == t[i as int]);
        }
        if c == 32 {
            spaces = spaces + 1;
        }
        i = i + 1;
    }
    true
}

/// The position carried by `fragment`, or why there is none. The current
/// position of a caller is never touched.
pub fn decode(tables: &Tables, fragment: &str) -> (r: Result<shogi::Position, FragmentError>)
    ensures
        r == decoded(fragment@),
{
    if !fragment.is_ascii() {
        return Err(FragmentError::BadEncoding);
    }
    let bytes = fragment.as_bytes();
    proof {
        assert(bytes@ == ascii_bytes(fragment@));
    }
    if bytes.len() == 0 || bytes[0] != 35 {
        return Err(FragmentError::MissingMarker);
    }
    let payload = vstd::slice::slice_subrange(bytes, 1, bytes.len());
    proof {
        assert(payload@ == ascii_bytes(fragment@.drop_first()));
    }
    let raw = match decode_base64(payload) {
        Ok(raw) => raw,
        Err(_) => return Err(FragmentError::BadEncoding),
    };
    let text = match text_from_utf8(raw.as_slice()) {
        Ok(text) => text,
        Err(_) => return Err(FragmentError::BadText),
    };
    if !has_short_numbers(text) {
        return Err(FragmentError::BadPosition);
    }
    match load_position(tables, text) {
        Ok(p) => Ok(p),
        Err(_) => Err(FragmentError::BadPosition),
    }
}

} // verus!
