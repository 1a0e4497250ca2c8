//! The line protocol: `<key>:<json>` and a newline.
//!
//! The key is written in decimal. The payload is one JSON object with the
//! members `change_type`, `files` and `commit_id`, in that order. A message
//! is a line without its newline; it is split at its first `:` as it
//! stands, and the text before it must be the key, character for character.

use vstd::prelude::*;
use vstd::string::*;
use crate::changes::Changes;
use crate::changes::ChangesView;
use crate::payload::decode_payload;
use crate::payload::encode_payload;
use crate::payload::payload_changes;
use crate::payload::payload_text;
use crate::text::chars_of;
use crate::text::find_char;
use crate::text::lemma_first_exists;
use crate::text::lemma_position_absent;
use crate::text::lemma_position_found;
use crate::text::position;
use crate::text::text_eq;

verus! {

/// Why a line was not accepted.
#[derive(Debug, Clone, Copy, PartialEq, Eq, Structural)]
pub enum DecodeError {
    /// The line holds no `:`.
    MalformedMessage,
    /// The text before the first `:` is not the listener's key.
    AuthMismatch,
    /// The text after the first `:` is not a change event in JSON.
    InvalidPayload,
}

/// The character of one decimal digit.
pub open spec fn digit_char(d: nat) -> char {
    if d == 0 {
        '0'
    } else if d == 1 {
        '1'
    } else if d == 2 {
        '2'
    } else if d == 3 {
        '3'
    } else if d == 4 {
        '4'
    } else if d == 5 {
        '5'
    } else if d == 6 {
        '6'
    } else if d == 7 {
        '7'
    } else if d == 8 {
        '8'
    } else {
        '9'
    }
}

/// `n` in decimal, without sign or leading zeros.
pub open spec fn decimal(n: nat) -> Seq<char>
    decreases n,
{
    if n < 10 {
        seq![digit_char(n)]
    } else {
        decimal(n / 10).push(digit_char(n % 10))
    }
}

/// A character is a decimal digit.
pub open spec fn is_digit(c: char) -> bool {
    '0' <= c <= '9'
}

/// A decimal is never empty and holds digits only.
pub proof fn lemma_decimal_digits(n: nat)
    ensures
        decimal(n).len() > 0,
        forall|i: int| 0 <= i < decimal(n).len() ==> is_digit(#[trigger] decimal(n)[i]),
    decreases n,
{
    if n >= 10 {
        lemma_decimal_digits(n / 10);
    }
}

/// Two numbers with the same decimal are the same number.
pub proof fn lemma_decimal_injective(a: nat, b: nat)
    requires
        decimal(a) == decimal(b),
    ensures
        a == b,
    decreases a,
{
    lemma_decimal_digits(a / 10);
    lemma_decimal_digits(b / 10);
    if a >= 10 && b >= 10 {
        assert(decimal(a / 10) == decimal(a).drop_last());
        assert(decimal(b / 10) == decimal(b).drop_last());
        assert(digit_char(a % 10) == decimal(a).last());
        assert(digit_char(b % 10) == decimal(b).last());
        lemma_decimal_injective(a / 10, b / 10);
        assert(a % 10 == b % 10);
    } else if a < 10 && b < 10 {
        assert(digit_char(a) == decimal(a)[0]);
        assert(digit_char(b) == decimal(b)[0]);
    } else if a < 10 {
        assert(decimal(a).len() == 1);
        assert(decimal(b).len() == decimal(b / 10).len() + 1);
    } else {
        assert(decimal(b).len() == 1);
        assert(decimal(a).len() == decimal(a / 10).len() + 1);
    }
}

/// A key and a payload as one message: the key in decimal, `:` and the
/// payload.
pub open spec fn message(key: u128, payload: Seq<char>) -> Seq<char> {
    decimal(key as nat) + seq![':'] + payload
}

/// A key and a payload as one line: the message and a newline.
pub open spec fn framed(key: u128, payload: Seq<char>) -> Seq<char> {
    message(key, payload) + seq!['\n']
}

/// A line without the newline that ends it. A line that ends otherwise is
/// left as it is.
pub open spec fn without_newline(line: Seq<char>) -> Seq<char> {
    if line.len() > 0 && line.last() == '\n' {
        line.drop_last()
    } else {
        line
    }
}

/// What a listener that holds `key` finds in a message: the text behind the
/// first `:` where the text before it is the key in decimal.
pub open spec fn frame_payload(message: Seq<char>, key: u128) -> Result<Seq<char>, DecodeError> {
    match position(message, ':') {
        None => Err(DecodeError::MalformedMessage),
        Some(at) => if message.subrange(0, at) == decimal(key as nat) {
            Ok(message.subrange(at + 1, message.len() as int))
        } else {
            Err(DecodeError::AuthMismatch)
        },
    }
}

/// The text of one decimal digit.
fn digit_text(d: u8) -> (text: &'static str)
    requires
        d < 10,
    ensures
        text@ == seq![digit_char(d as nat)],
{
    proof {
        reveal_strlit("0");
        reveal_strlit("1");
        reveal_strlit("2");
        reveal_strlit("3");
        reveal_strlit("4");
        reveal_strlit("5");
        reveal_strlit("6");
        reveal_strlit("7");
        reveal_strlit("8");
        reveal_strlit("9");
    }
    let text = match d {
        0 => "0",
        1 => "1",
        2 => "2",
        3 => "3",
        4 => "4",
        5 => "5",
        6 => "6",
        7 => "7",
        8 => "8",
        _ => "9",
    };
    assert(text@ =~= seq![digit_char(d as nat)]);
    text
}

/// Appends `n` in decimal to `out`.
fn push_decimal(out: &mut String, n: u128)
    ensures
        final(out)@ == old(out)@ + decimal(n as nat),
    decreases n,
{
    if n >= 10 {
        push_decimal(out, n / 10);
    }
    out.append(digit_text((n % 10) as u8));
    assert(final(out)@ =~= old(out)@ + decimal(n as nat));
}

/// The key as it stands on the wire: in decimal.
pub fn key_text(key: u128) -> (text: String)
    ensures
        text@ == decimal(key as nat),
{
    let mut text = String::new();
    push_decimal(&mut text, key);
    assert(text@ =~= decimal(key as nat));
    text
}

/// Puts a key and a payload on one line.
pub fn frame(key: u128, payload: &str) -> (line: String)
    ensures
        line@ == framed(key, payload@),
{
    proof {
        reveal_strlit(":");
        reveal_strlit("\n");
    }
    let mut line = key_text(key);
    line.append(":");
    line.append(payload);
    line.append("\n");
    assert(line@ =~= framed(key, payload@));
    line
}

/// Takes the newline off the end of a line.
pub fn strip_newline(line: &str) -> (message: &str)
    ensures
        message@ == without_newline(line@),
{
    let chars = chars_of(line);
    let n: usize = chars.len();
    if n > 0 && chars[n - 1] == '\n' {
        let message = line.substring_char(0, n - 1);
        assert(message@ =~= line@.drop_last());
        message
    } else {
        line
    }
}

/// Splits a message at its first `:` and checks the text before it against
/// the key. Gives the text behind the `:`.
pub fn open_frame(message: &str, key: u128) -> (opened: Result<String, DecodeError>)
    ensures
        match opened {
            Ok(payload) => frame_payload(message@, key) == Ok::<Seq<char>, DecodeError>(
                payload@,
            ),
            Err(error) => frame_payload(message@, key) == Err::<Seq<char>, DecodeError>(error),
        },
{
    let chars = chars_of(message);
    match find_char(&chars, ':') {
        None => Err(DecodeError::MalformedMessage),
        Some(at) => {
            let sender = message.substring_char(0, at);
            let expected = key_text(key);
            if text_eq(sender, expected.as_str()) {
                let payload = message.substring_char(at + 1, chars.len());
                Ok(String::from_str(payload))
            } else {
                Err(DecodeError::AuthMismatch)
            }
        },
    }
}

/// The line that carries an event under a key.
pub open spec fn wire_line(key: u128, event: ChangesView) -> Seq<char> {
    framed(key, payload_text(event))
}

/// What a payload text gives: its event, or `InvalidPayload`.
pub open spec fn payload_result(payload: Seq<char>) -> Result<ChangesView, DecodeError> {
    match payload_changes(payload) {
        Some(event) => Ok(event),
        None => Err(DecodeError::InvalidPayload),
    }
}

/// What a listener that holds `key` reads from a message.
pub open spec fn decoded(message: Seq<char>, key: u128) -> Result<ChangesView, DecodeError> {
    match frame_payload(message, key) {
        Ok(payload) => payload_result(payload),
        Err(error) => Err(error),
    }
}

/// The mathematical value of what `decode` gives.
pub open spec fn decode_view(result: Result<Changes, DecodeError>) -> Result<
    ChangesView,
    DecodeError,
> {
    match result {
        Ok(event) => Ok(event@),
        Err(error) => Err(error),
    }
}

/// Writes an event as one line under a key.
pub fn encode(key: u128, event: &Changes) -> (line: String)
    ensures
        line@ == wire_line(key, event@),
{
    let payload = encode_payload(event);
    frame(key, payload.as_str())
}

/// Reads one message as a listener that holds `key`: checks the key before
/// the first `:` and reads the rest as a change event.
pub fn decode(message: &str, key: u128) -> (result: Result<Changes, DecodeError>)
    ensures
        decode_view(result) == decoded(message@, key),
{
    match open_frame(message, key) {
        Ok(payload) => match decode_payload(payload.as_str()) {
            Some(event) => Ok(event),
            None => Err(DecodeError::InvalidPayload),
        },
        Err(error) => Err(error),
    }
}

/// A text without `:`, a `:` and any text split behind the first text.
proof fn lemma_split(prefix: Seq<char>, payload: Seq<char>)
    requires
        !prefix.contains(':'),
    ensures
        position(prefix + seq![':'] + payload, ':') == Some(prefix.len() as int),
        (prefix + seq![':'] + payload).subrange(0, prefix.len() as int) == prefix,
        (prefix + seq![':'] + payload).subrange(
            prefix.len() as int + 1,
            (prefix + seq![':'] + payload).len() as int,
        ) == payload,
{
    let text = prefix + seq![':'] + payload;
    let at = prefix.len() as int;
    assert(text[at] == ':');
    assert forall|j: int| 0 <= j < at implies text[j] != ':' by {
        assert(prefix.contains(prefix[j]));
    }
    lemma_position_found(text, ':', at);
    assert(text.subrange(0, at) =~= prefix);
    assert(text.subrange(at + 1, text.len() as int) =~= payload);
}

/// A key in decimal holds no `:`.
proof fn lemma_decimal_has_no_colon(n: nat)
    ensures
        !decimal(n).contains(':'),
{
    lemma_decimal_digits(n);
    if decimal(n).contains(':') {
        let j = choose|j: int| 0 <= j < decimal(n).len() && decimal(n)[j] == ':';
        assert(is_digit(decimal(n)[j]));
    }
}

/// The outcome of every message. Without `:` it is `MalformedMessage`. With
/// one, `prefix` being the text before the first: `AuthMismatch` where the
/// prefix differs from the key in decimal, else the event that the text
/// behind the `:` spells, or `InvalidPayload` where it spells none.
pub proof fn lemma_decode_outcomes(prefix: Seq<char>, payload: Seq<char>, key: u128)
    requires
        !prefix.contains(':'),
    ensures
        decoded(prefix, key) == Err::<ChangesView, DecodeError>(DecodeError::MalformedMessage),
        prefix != decimal(key as nat) ==> decoded(prefix + seq![':'] + payload, key) == Err::<
            ChangesView,
            DecodeError,
        >(DecodeError::AuthMismatch),
        prefix == decimal(key as nat) ==> decoded(prefix + seq![':'] + payload, key)
            == payload_result(payload),
{
    lemma_no_colon_malformed(prefix, key);
    lemma_split(prefix, payload);
}

/// A message reads as `MalformedMessage` exactly when it holds no `:`.
pub proof fn lemma_no_colon_malformed(message: Seq<char>, key: u128)
    ensures
        decoded(message, key) == Err::<ChangesView, DecodeError>(DecodeError::MalformedMessage)
            <==> !message.contains(':'),
{
    if message.contains(':') {
        let j = choose|j: int| 0 <= j < message.len() && message[j] == ':';
        if position(message, ':') is None {
            lemma_first_exists(message, ':', j);
        }
    } else {
        lemma_position_absent(message, ':');
    }
}

/// A listener reads `AuthMismatch` from every message whose text before the
/// first `:` is not its key in decimal, whatever stands behind the `:`.
pub proof fn lemma_prefix_mismatch_rejected(prefix: Seq<char>, payload: Seq<char>, key: u128)
    requires
        !prefix.contains(':'),
        prefix != decimal(key as nat),
    ensures
        decoded(prefix + seq![':'] + payload, key) == Err::<ChangesView, DecodeError>(
            DecodeError::AuthMismatch,
        ),
{
    lemma_decode_outcomes(prefix, payload, key);
}

/// A listener whose key differs from the sender's reads `AuthMismatch` from
/// every message and every line of that sender, whatever the payload.
pub proof fn lemma_key_mismatch_rejected(sender: u128, key: u128, payload: Seq<char>)
    requires
        sender != key,
    ensures
        decoded(message(sender, payload), key) == Err::<ChangesView, DecodeError>(
            DecodeError::AuthMismatch,
        ),
        decoded(without_newline(framed(sender, payload)), key) == Err::<
            ChangesView,
            DecodeError,
        >(DecodeError::AuthMismatch),
{
    lemma_decimal_has_no_colon(sender as nat);
    if decimal(sender as nat) == decimal(key as nat) {
        lemma_decimal_injective(sender as nat, key as nat);
    }
    lemma_decode_outcomes(decimal(sender as nat), payload, key);
    lemma_line_message(sender, payload);
}

/// A message with the listener's key before its first `:` and a text behind
/// it that spells no change event reads as `InvalidPayload`.
pub proof fn lemma_bad_payload_invalid(key: u128, suffix: Seq<char>)
    requires
        payload_changes(suffix) is None,
    ensures
        decoded(message(key, suffix), key) == Err::<ChangesView, DecodeError>(
            DecodeError::InvalidPayload,
        ),
{
    lemma_decimal_has_no_colon(key as nat);
    lemma_decode_outcomes(decimal(key as nat), suffix, key);
}

/// A line without its newline is the message it was framed from.
pub proof fn lemma_line_message(key: u128, payload: Seq<char>)
    ensures
        without_newline(framed(key, payload)) == message(key, payload),
{
    assert(framed(key, payload).drop_last() =~= message(key, payload));
}

/// Framing is undone by the listener that holds the same key: the payload
/// comes back as it was.
pub proof fn lemma_frame_round_trip(key: u128, payload: Seq<char>)
    ensures
        frame_payload(without_newline(framed(key, payload)), key) == Ok::<
            Seq<char>,
            DecodeError,
        >(payload),
{
    lemma_line_message(key, payload);
    lemma_decimal_has_no_colon(key as nat);
    lemma_split(decimal(key as nat), payload);
}

/// Decoding undoes encoding for the listener that holds the sender's key:
/// the line of an event, its newline taken off, reads as whatever its
/// payload text reads as. The framing adds and loses nothing.
pub proof fn lemma_encoded_line_reads_as_payload(key: u128, event: ChangesView)
    ensures
        decoded(without_newline(wire_line(key, event)), key) == payload_result(
            payload_text(event),
        ),
{
    lemma_frame_round_trip(key, payload_text(event));
}

} // verus!
