//! Program images: text in which each line is a sequence of pairs of
//! hexadecimal digits. Colons in a line are passed over; a carriage return
//! before the line feed belongs to the line ending. The bytes of the lines, in
//! order, are the program.

use vstd::prelude::*;
use crate::error::LoadError;

verus! {

/// The byte that ends a line.
pub const LINE_FEED: u8 = 0x0A;

/// The byte that may stand before the line feed in a line ending.
pub const CARRIAGE_RETURN: u8 = 0x0D;

/// The byte that is passed over within a line.
pub const COLON: u8 = 0x3A;

/// Whether `c` is a hexadecimal digit, in either case.
pub open spec fn is_hex_digit(c: u8) -> bool {
    (0x30 <= c <= 0x39) || (0x41 <= c <= 0x46) || (0x61 <= c <= 0x66)
}

/// The number that the hexadecimal digit `c` stands for.
pub open spec fn hex_digit_value(c: u8) -> int
    recommends
        is_hex_digit(c),
{
    if c <= 0x39 {
        c - 0x30
    } else if c <= 0x46 {
        c - 0x41 + 10
    } else {
        c - 0x61 + 10
    }
}

/// Whether `text` is a sequence of pairs of hexadecimal digits.
pub open spec fn is_hex_text(text: Seq<u8>) -> bool {
    text.len() % 2 == 0 && forall|i: int| 0 <= i < text.len() ==> is_hex_digit(#[trigger] text[i])
}

/// The bytes that the pairs of hexadecimal digits of `text` stand for: the
/// first digit of a pair is the high nibble.
pub open spec fn hex_bytes(text: Seq<u8>) -> Seq<u8>
    recommends
        is_hex_text(text),
{
    Seq::new(
        (text.len() / 2) as nat,
        |i: int| (hex_digit_value(text[2 * i]) * 16 + hex_digit_value(text[2 * i + 1])) as u8,
    )
}

#[verifier::external_type_specification]
#[verifier::external_body]
pub struct ExFromHexError(hex::FromHexError);

/// Calls `hex::decode`. The crate fails on a text of odd length and on the
/// first byte that is no hexadecimal digit; otherwise it makes one byte of each
/// pair of digits, the first digit shifted left by four and or-ed with the
/// second.
#[verifier::external_body]
fn decode_hex(text: &[u8]) -> (r: Result<Vec<u8>, hex::FromHexError>)
    ensures
        r is Ok <==> is_hex_text(text@),
        r matches Ok(bytes) ==> bytes@ == hex_bytes(text@),
{
    hex::decode(text)
}

/// Whether the first line of `text` has `n` bytes: none of them is a line
/// feed, and behind them stands a line feed or the end of the text.
pub open spec fn is_line_len(text: Seq<u8>, n: nat) -> bool {
    &&& n <= text.len()
    &&& n == text.len() || text[n as int] == LINE_FEED
    &&& forall|i: int| 0 <= i < n ==> text[i] != LINE_FEED
}

/// The number of bytes of the first line of `text`, its ending not counted.
pub open spec fn line_len(text: Seq<u8>) -> nat {
    choose|n: nat| is_line_len(text, n)
}

/// The first line of `text` without its ending: a carriage return before the
/// line feed belongs to the ending; without a line feed there is no ending.
pub open spec fn first_line(text: Seq<u8>) -> Seq<u8> {
    let n = line_len(text) as int;
    if n < text.len() && n > 0 && text[n - 1] == CARRIAGE_RETURN {
        text.take(n - 1)
    } else {
        text.take(n)
    }
}

/// `line` without its colons.
pub open spec fn without_colons(line: Seq<u8>) -> Seq<u8>
    decreases line.len(),
{
    if line.len() == 0 {
        line
    } else if line.last() == COLON {
        without_colons(line.drop_last())
    } else {
        without_colons(line.drop_last()).push(line.last())
    }
}

/// The program that `program` and, behind it, the program of the rest of an
/// image make.
pub open spec fn followed_by(program: Seq<u8>, rest: Option<Seq<u8>>) -> Option<Seq<u8>> {
    match rest {
        Some(rest) => Some(program + rest),
        None => None,
    }
}

/// The program that the image `text` holds: the bytes of its lines in order.
/// There is none where some line, without its colons, is not a sequence of
/// pairs of hexadecimal digits.
pub open spec fn image_program(text: Seq<u8>) -> Option<Seq<u8>>
    decreases text.len(),
{
    if text.len() == 0 {
        Some(Seq::empty())
    } else if !is_hex_text(without_colons(first_line(text))) {
        None
    } else if line_len(text) < text.len() {
        followed_by(
            hex_bytes(without_colons(first_line(text))),
            image_program(text.skip(line_len(text) as int + 1)),
        )
    } else {
        Some(hex_bytes(without_colons(first_line(text))))
    }
}

/// The first line of a text has one length only.
pub proof fn lemma_line_len(text: Seq<u8>, n: nat)
    requires
        is_line_len(text, n),
    ensures
        line_len(text) == n,
{
    let m = line_len(text);
    assert(is_line_len(text, m));
    if m < n {
        assert(text[m as int] != LINE_FEED);
    }
    if n < m {
        assert(text[n as int] != LINE_FEED);
    }
}

/// Decodes the line `line`: passes over its colons and makes one byte of each
/// pair of hexadecimal digits. Fails exactly when the rest is not a sequence
/// of such pairs.
pub fn decode_line(line: &[u8]) -> (r: Result<Vec<u8>, LoadError>)
    ensures
        is_hex_text(without_colons(line@)) ==> (r matches Ok(bytes) && bytes@ == hex_bytes(
            without_colons(line@),
        )),
        !is_hex_text(without_colons(line@)) ==> r == Err::<Vec<u8>, LoadError>(
            LoadError::MalformedHex,
        ),
{
    let mut digits: Vec<u8> = Vec::new();
    let mut i: usize = 0;
    while i < line.len()
        invariant
            i <= line@.len(),
            digits@ == without_colons(line@.take(i as int)),
        decreases line@.len() - i,
    {
        assert(line@.take(i as int + 1).drop_last() =~= line@.take(i as int));
        if line[i] != COLON {
            digits.push(line[i]);
        }
        i += 1;
    }
    assert(line@.take(i as int) =~= line@);
    match decode_hex(digits.as_slice()) {
        Ok(bytes) => Ok(bytes),
        Err(_) => Err(LoadError::MalformedHex),
    }
}

/// Decodes a program image. Fails with `MalformedHex` exactly when some line,
/// without its colons, is not a sequence of pairs of hexadecimal digits.
pub fn decode_image(image: &[u8]) -> (r: Result<Vec<u8>, LoadError>)
    ensures
        image_program(image@) matches Some(program) ==> (r matches Ok(bytes) && bytes@
            == program),
        image_program(image@) is None ==> r == Err::<Vec<u8>, LoadError>(LoadError::MalformedHex),
{
    let mut program: Vec<u8> = Vec::new();
    let mut pos: usize = 0;
    proof {
        assert(image@.skip(0) =~= image@);
        match image_program(image@) {
            Some(whole) => {
                assert(program@ + whole =~= whole);
            },
            None => {},
        }
    }
    while pos < image.len()
        invariant
            pos <= image@.len(),
            image_program(image@) == followed_by(program@, image_program(image@.skip(pos as int))),
        decreases image@.len() - pos,
    {
        let ghost rest = image@.skip(pos as int);
        let mut end: usize = pos;
        while end < image.len() && image[end] != LINE_FEED
            invariant
                pos <= end <= image@.len(),
                forall|i: int| pos <= i < end ==> image@[i] != LINE_FEED,
            decreases image@.len() - end,
        {
            end += 1;
        }
        proof {
            lemma_line_len(rest, (end - pos) as nat);
        }
        let terminated = end < image.len();
        let line_end = if terminated && end > pos && image[end - 1] == CARRIAGE_RETURN {
            end - 1
        } else {
            end
        };
        let line = vstd::slice::slice_subrange(image, pos, line_end);
        assert(line@ =~= first_line(rest));
        let next = if terminated {
            end + 1
        } else {
            end
        };
        let mut bytes = decode_line(line)?;
        proof {
            assert(image@.skip(next as int) =~= rest.skip(next - pos));
            if !terminated {
                assert(image@.skip(next as int) =~= Seq::<u8>::empty());
            }
            match image_program(image@.skip(next as int)) {
                Some(tail) => {
                    assert(program@ + (bytes@ + tail) =~= (program@ + bytes@) + tail);
                },
                None => {},
            }
        }
        program.append(&mut bytes);
        pos = next;
    }
    assert(program@ + Seq::<u8>::empty() =~= program@);
    Ok(program)
}

} // verus!
