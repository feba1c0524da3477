//! Text built by the library: numbers, and the logs of the graphics driver.

use vstd::prelude::*;
use vstd::utf8::*;

verus! {

/// The character of the decimal digit `d`.
pub open spec fn digit_char(d: nat) -> char {
    ('0' as u32 + d) as char
}

/// The decimal digits of `n`, most significant first, without leading zeros.
pub open spec fn decimal(n: nat) -> Seq<char>
    decreases n,
{
    if n < 10 {
        seq![digit_char(n)]
    } else {
        decimal(n / 10).push(digit_char(n % 10))
    }
}

fn digit_text(d: u32) -> (text: &'static str)
    requires
        d < 10,
    ensures
        text@ == seq![digit_char(d as nat)],
{
    proof {
        reveal_strlit("0");
        reveal_strlit("1");
        reveal_strlit("2");
        reveal_strlit("3");
        reveal_strlit("4");
        reveal_strlit("5");
        reveal_strlit("6");
        reveal_strlit("7");
        reveal_strlit("8");
        reveal_strlit("9");
    }
    match d {
        0 => "0",
        1 => "1",
        2 => "2",
        3 => "3",
        4 => "4",
        5 => "5",
        6 => "6",
        7 => "7",
        8 => "8",
        _ => "9",
    }
}

/// Writes `n` in decimal.
pub fn decimal_text(n: u32) -> (text: String)
    ensures
        text@ == decimal(n as nat),
    decreases n,
{
    if n < 10 {
        digit_text(n).to_owned()
    } else {
        let mut text = decimal_text(n / 10);
        text.append(digit_text(n % 10));
        text
    }
}

/// Whether two texts hold the same characters.
pub fn same_text(a: &str, b: &str) -> (same: bool)
    ensures
        same == (a@ == b@),
{
    a.to_owned() == b.to_owned()
}

/// `prefix` followed by `rest`.
pub fn joined(prefix: &str, rest: &str) -> (text: String)
    ensures
        text@ == prefix@ + rest@,
{
    prefix.to_owned().concat(rest)
}

/// What `String::from_utf8_lossy` makes of a byte sequence.
pub uninterp spec fn utf8_lossy(bytes: Seq<u8>) -> Seq<char>;

/// Calls `String::from_utf8_lossy`: bytes that are valid UTF-8 come back as the characters
/// they encode. What replaces an invalid sequence is left to the named result.
#[verifier::external_body]
fn lossy_text(bytes: &[u8]) -> (text: String)
    ensures
        text@ == utf8_lossy(bytes@),
        valid_utf8(bytes@) ==> text@ == decode_utf8(bytes@),
{
    String::from_utf8_lossy(bytes).into_owned()
}

/// The position of the first zero byte of `buffer`, or its length if it has none.
pub open spec fn nul_position(buffer: Seq<u8>) -> int
    decreases buffer.len(),
{
    if buffer.len() == 0 || buffer[0] == 0 {
        0
    } else {
        1 + nul_position(buffer.skip(1))
    }
}

/// The text of a log in `buffer`: the bytes before the first zero byte, decoded. A buffer
/// without a zero byte holds no log.
pub open spec fn log_text(buffer: Seq<u8>) -> Seq<char> {
    if nul_position(buffer) == buffer.len() {
        Seq::empty()
    } else {
        utf8_lossy(buffer.take(nul_position(buffer)))
    }
}

proof fn lemma_nul_position(buffer: Seq<u8>, n: int)
    requires
        0 <= n <= buffer.len(),
        forall|i: int| 0 <= i < n ==> buffer[i] != 0,
        n == buffer.len() || buffer[n] == 0,
    ensures
        nul_position(buffer) == n,
    decreases n,
{
    if n > 0 {
        let rest = buffer.skip(1);
        assert forall|i: int| 0 <= i < n - 1 implies rest[i] != 0 by {
            assert(rest[i] == buffer[i + 1]);
        }
        lemma_nul_position(rest, n - 1);
    }
}

/// The text of a log that the driver wrote to `buffer`, ended by a zero byte.
pub fn c_log_to_string(buffer: &[u8]) -> (text: String)
    ensures
        text@ == log_text(buffer@),
        nul_position(buffer@) < buffer@.len() && valid_utf8(
            buffer@.take(nul_position(buffer@)),
        ) ==> text@ == decode_utf8(buffer@.take(nul_position(buffer@))),
{
    let mut n: usize = 0;
    while n < buffer.len() && buffer[n] != 0
        invariant
            n <= buffer@.len(),
            forall|i: int| 0 <= i < n ==> buffer@[i] != 0,
        decreases buffer@.len() - n,
    {
        n += 1;
    }
    proof {
        lemma_nul_position(buffer@, n as int);
    }
    if n == buffer.len() {
        String::new()
    } else {
        let message = vstd::slice::slice_subrange(buffer, 0, n);
        assert(message@ == buffer@.take(n as int));
        lossy_text(message)
    }
}

/// The size of the buffer for a log of `length` bytes: at least one byte.
pub open spec fn log_buffer_size(length: i32) -> nat {
    if length > 1 {
        length as nat
    } else {
        1
    }
}

/// A zeroed buffer for a log of `length` bytes.
pub fn log_buffer(length: i32) -> (buffer: Vec<u8>)
    ensures
        buffer@ == Seq::new(log_buffer_size(length), |i: int| 0u8),
{
    let size: usize = if length > 1 {
        length as usize
    } else {
        1
    };
    let buffer: Vec<u8> = vec![0u8; size];
    assert(buffer@ =~= Seq::new(log_buffer_size(length), |i: int| 0u8));
    buffer
}

/// The encoding of a character other than the zero character has no zero byte.
proof fn lemma_scalar_without_zero(scalar: u32, i: int)
    requires
        is_scalar(scalar),
        scalar != 0,
        0 <= i < encode_scalar(scalar).len(),
    ensures
        encode_scalar(scalar)[i] != 0,
{
    assert(0 < scalar <= 0x7F ==> (scalar & 0x7F) as u8 != 0) by (bit_vector);
    assert(0xC0u8 | ((scalar >> 6) & 0x1F) as u8 != 0) by (bit_vector);
    assert(0xE0u8 | ((scalar >> 12) & 0x0F) as u8 != 0) by (bit_vector);
    assert(0xF0u8 | ((scalar >> 18) & 0x7) as u8 != 0) by (bit_vector);
    assert(0x80u8 | (scalar & 0x3F) as u8 != 0) by (bit_vector);
    assert(0x80u8 | ((scalar >> 6) & 0x3F) as u8 != 0) by (bit_vector);
    assert(0x80u8 | ((scalar >> 12) & 0x3F) as u8 != 0) by (bit_vector);
}

proof fn lemma_text_without_zero(text: Seq<char>, i: int)
    requires
        forall|j: int| 0 <= j < text.len() ==> text[j] != '\0',
        0 <= i < encode_utf8(text).len(),
    ensures
        encode_utf8(text)[i] != 0,
    decreases text.len(),
{
    if text.len() > 0 {
        let first = encode_scalar(text[0] as u32);
        char_is_scalar(text[0]);
        if i < first.len() {
            char_u32_cast(text[0], text[0] as u32);
            assert(text[0] != '\0');
            lemma_scalar_without_zero(text[0] as u32, i);
        } else {
            let rest = text.drop_first();
            assert forall|j: int| 0 <= j < rest.len() implies rest[j] != '\0' by {
                assert(rest[j] == text[j + 1]);
            }
            lemma_text_without_zero(rest, i - first.len());
        }
    }
}

/// A log reads back as it was written: where the driver writes a text without zero
/// characters, encoded and ended by a zero byte, the part of the buffer that is read is
/// valid and decodes to that text, whatever follows in the buffer.
pub proof fn law_logs_read_back(text: Seq<char>, rest: Seq<u8>)
    requires
        forall|i: int| 0 <= i < text.len() ==> text[i] != '\0',
    ensures
        ({
            let buffer = encode_utf8(text) + seq![0u8] + rest;
            &&& nul_position(buffer) < buffer.len()
            &&& valid_utf8(buffer.take(nul_position(buffer)))
            &&& decode_utf8(buffer.take(nul_position(buffer))) == text
        }),
{
    let bytes = encode_utf8(text);
    let buffer = bytes + seq![0u8] + rest;
    assert forall|i: int| 0 <= i < bytes.len() implies buffer[i] != 0 by {
        lemma_text_without_zero(text, i);
    }
    lemma_nul_position(buffer, bytes.len() as int);
    assert(buffer.take(bytes.len() as int) =~= bytes);
    encode_utf8_valid_utf8(text);
    encode_utf8_decode_utf8(text);
}

/// A buffer that the driver wrote nothing to holds an empty log.
pub proof fn law_untouched_buffers_are_empty(length: i32)
    ensures
        ({
            let buffer = Seq::new(log_buffer_size(length), |i: int| 0u8);
            &&& nul_position(buffer) == 0
            &&& valid_utf8(buffer.take(0))
            &&& decode_utf8(buffer.take(0)) == Seq::<char>::empty()
        }),
{
    let buffer = Seq::new(log_buffer_size(length), |i: int| 0u8);
    lemma_nul_position(buffer, 0);
    assert(buffer.take(0) =~= Seq::empty());
}

/// The number that a sequence of decimal digits stands for.
pub open spec fn digits_value(text: Seq<char>) -> int
    decreases text.len(),
{
    if text.len() == 0 {
        0
    } else {
        10 * digits_value(text.drop_last()) + (text.last() as int - '0' as int)
    }
}

proof fn lemma_decimal_reads_back(n: nat)
    ensures
        digits_value(decimal(n)) == n,
        forall|i: int| 0 <= i < decimal(n).len() ==> '0' <= #[trigger] decimal(n)[i] <= '9',
        decimal(n).len() > 0,
        n > 0 ==> decimal(n)[0] != '0',
    decreases n,
{
    assert(digits_value(Seq::empty()) == 0);
    if n < 10 {
        assert(decimal(n).drop_last() =~= Seq::empty());
    } else {
        lemma_decimal_reads_back(n / 10);
        assert(decimal(n).drop_last() =~= decimal(n / 10));
    }
}

/// A number that is written reads back: the text has only decimal digits, stands for the
/// number, and starts with a zero only if it is zero.
pub proof fn law_numbers_read_back(n: u32, text: String)
    requires
        call_ensures(decimal_text, (n,), text),
    ensures
        digits_value(text@) == n,
        forall|i: int| 0 <= i < text@.len() ==> '0' <= #[trigger] text@[i] <= '9',
        text@.len() > 0,
        text@[0] == '0' ==> n == 0 && text@.len() == 1,
{
    lemma_decimal_reads_back(n as nat);
}

/// Texts are the same if they have the same characters in the same places, and only then.
pub proof fn law_same_texts_agree_everywhere(a: &str, b: &str, same: bool)
    requires
        call_ensures(same_text, (a, b), same),
    ensures
        same <==> a@.len() == b@.len() && forall|i: int| 0 <= i < a@.len() ==> a@[i] == b@[i],
{
    if a@.len() == b@.len() && forall|i: int| 0 <= i < a@.len() ==> a@[i] == b@[i] {
        assert(a@ =~= b@);
    }
}

/// Joined texts stand one after the other, whole.
pub proof fn law_joined_texts_are_whole(prefix: &str, rest: &str, text: String)
    requires
        call_ensures(joined, (prefix, rest), text),
    ensures
        text@.len() == prefix@.len() + rest@.len(),
        text@.take(prefix@.len() as int) == prefix@,
        text@.skip(prefix@.len() as int) == rest@,
{
    assert(text@.take(prefix@.len() as int) =~= prefix@);
    assert(text@.skip(prefix@.len() as int) =~= rest@);
}

/// A log ends at its first zero byte: the bytes before it are decoded, what follows it does
/// not matter, and without one there is no log.
pub proof fn law_logs_end_at_the_first_zero(
    buffer: &[u8],
    log: Seq<u8>,
    rest: Seq<u8>,
    text: String,
)
    requires
        call_ensures(c_log_to_string, (buffer,), text),
        forall|i: int| 0 <= i < log.len() ==> log[i] != 0,
    ensures
        buffer@ == log + seq![0u8] + rest ==> text@ == utf8_lossy(log),
        buffer@ == log + seq![0u8] + rest && valid_utf8(log) ==> text@ == decode_utf8(log),
        buffer@ == log ==> text@.len() == 0,
{
    if buffer@ == log + seq![0u8] + rest {
        assert forall|i: int| 0 <= i < log.len() implies buffer@[i] != 0 by {
            assert(buffer@[i] == log[i]);
        }
        lemma_nul_position(buffer@, log.len() as int);
        assert(buffer@.take(log.len() as int) =~= log);
    }
    if buffer@ == log {
        lemma_nul_position(buffer@, log.len() as int);
    }
}

/// A text that the driver wrote is what the log says, whatever follows it in the buffer.
pub proof fn law_written_logs_are_read(
    buffer: &[u8],
    written: Seq<char>,
    rest: Seq<u8>,
    text: String,
)
    requires
        call_ensures(c_log_to_string, (buffer,), text),
        forall|i: int| 0 <= i < written.len() ==> written[i] != '\0',
        buffer@ == encode_utf8(written) + seq![0u8] + rest,
    ensures
        text@ == written,
{
    law_logs_read_back(written, rest);
}

/// The buffer for a log has as many bytes as the log, but at least one, and all are zero.
pub proof fn law_log_buffers_are_zero(length: i32, buffer: Vec<u8>)
    requires
        call_ensures(log_buffer, (length,), buffer),
    ensures
        buffer@.len() >= 1,
        length >= 1 ==> buffer@.len() == length,
        length < 1 ==> buffer@.len() == 1,
        forall|i: int| 0 <= i < buffer@.len() ==> buffer@[i] == 0,
{
}

} // verus!
