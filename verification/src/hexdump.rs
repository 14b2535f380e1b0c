//! The text in which a request is shown to a person: each byte as `0x`,
//! two upper-case hex digits and a space.
use vstd::prelude::*;

verus! {

/// The upper-case hex digit of a value below 16.
pub open spec fn hex_digit(d: u8) -> char
    recommends
        d < 16,
{
    if d < 10 {
        (48 + d) as char
    } else {
        (65 + (d - 10)) as char
    }
}

/// How one byte is shown: `0x`, its two hex digits, then a space.
pub open spec fn byte_text(b: u8) -> Seq<char> {
    seq!['0', 'x', hex_digit(b / 16), hex_digit(b % 16), ' ']
}

/// How a sequence of bytes is shown: the text of each byte, in order.
pub open spec fn bytes_text(bytes: Seq<u8>) -> Seq<char>
    decreases bytes.len(),
{
    if bytes.len() == 0 {
        seq![]
    } else {
        bytes_text(bytes.drop_last()) + byte_text(bytes.last())
    }
}

/// Wraps std's `String::push`, which its documentation says appends `c` to
/// the end of the string: the text afterwards is the text before with `c` last.
#[verifier::external_body]
fn string_push(s: &mut String, c: char)
    ensures
        final(s)@ == old(s)@.push(c),
{
    s.push(c);
}

fn hex_char(d: u8) -> (c: char)
    requires
        d < 16,
    ensures
        c == hex_digit(d),
{
    if d < 10 {
        (48u8 + d) as char
    } else {
        (65u8 + (d - 10)) as char
    }
}

/// The text of `buf`: each byte as `0x`, two upper-case hex digits and a
/// space, in the order of the bytes.
pub fn format_buf(buf: &Vec<u8>) -> (text: String)
    ensures
        text@ == bytes_text(buf@),
{
    let mut text = String::new();
    let mut i: usize = 0;
    while i < buf.len()
        invariant
            i <= buf.len(),
            text@ == bytes_text(buf@.take(i as int)),
        decreases buf.len() - i,
    {
        let b = buf[i];
        string_push(&mut text, '0');
        string_push(&mut text, 'x');
        string_push(&mut text, hex_char(b / 16));
        string_push(&mut text, hex_char(b % 16));
        string_push(&mut text, ' ');
        assert(buf@.take(i + 1).drop_last() =~= buf@.take(i as int));
        assert(text@ =~= bytes_text(buf@.take(i + 1)));
        i = i + 1;
    }
    assert(buf@.take(buf.len() as int) =~= buf@);
    text
}

} // verus!
