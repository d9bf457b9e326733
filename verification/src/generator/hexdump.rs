//! The bytes of a program as text, sixteen bytes to a line.
use super::hex::{add_hex_byte, add_hex_number, hex_address, hex_byte, hex_number};
use vstd::prelude::*;
use vstd::string::*;

verus! {

/// Number of bytes in a line of a hexdump.
pub const BYTES_PER_LINE: usize = 16;

/// The place of a byte in hexadecimal digits: four of them, and more where
/// four do not hold it.
pub open spec fn hex_offset(offset: nat) -> Seq<char> {
    if offset < 0x1_0000 {
        hex_address(offset as u16)
    } else {
        hex_number(offset)
    }
}

/// The bytes of a line: each as two hexadecimal digits behind a blank, and
/// one more blank in front of every fourth of them, from the first on.
pub open spec fn dump_bytes(bytes: Seq<u8>) -> Seq<char>
    decreases bytes.len(),
{
    if bytes.len() == 0 {
        Seq::empty()
    } else {
        dump_bytes(bytes.drop_last()) + (if (bytes.len() - 1) % 4 == 0 {
            "  "@
        } else {
            " "@
        }) + hex_byte(bytes.last())
    }
}

/// A line of a hexdump: the place of its first byte, a colon, and its bytes.
pub open spec fn dump_line(offset: nat, bytes: Seq<u8>) -> Seq<char> {
    hex_offset(offset) + ":"@ + dump_bytes(bytes)
}

/// Number of lines of the hexdump of `length` bytes.
pub open spec fn dump_line_count(length: nat) -> nat {
    ((length + BYTES_PER_LINE - 1) / BYTES_PER_LINE as int) as nat
}

/// The bytes of the line `line` of a hexdump: sixteen, or those that are
/// left.
pub open spec fn dump_line_bytes(bytes: Seq<u8>, line: int) -> Seq<u8> {
    bytes.subrange(
        line * BYTES_PER_LINE,
        if (line + 1) * BYTES_PER_LINE <= bytes.len() {
            (line + 1) * BYTES_PER_LINE
        } else {
            bytes.len() as int
        },
    )
}

/// The hexdump of the bytes, line by line.
pub open spec fn hexdump_lines(bytes: Seq<u8>) -> Seq<Seq<char>> {
    Seq::new(
        dump_line_count(bytes.len()),
        |line: int| dump_line((line * BYTES_PER_LINE) as nat, dump_line_bytes(bytes, line)),
    )
}

/// Add the place of a byte to the text.
fn add_hex_offset(text: &mut String, offset: usize)
    ensures
        final(text)@ == old(text)@ + hex_offset(offset as nat),
{
    if offset < 0x1_0000 {
        add_hex_byte(text, (offset / 0x100) as u8);
        add_hex_byte(text, (offset % 0x100) as u8);
        assert(text@ =~= old(text)@ + hex_offset(offset as nat));
    } else {
        add_hex_number(text, offset);
    }
}

/// The bytes as text in the way of a hexdump: a line for every sixteen
/// bytes, which starts with the place of its first byte.
pub fn hexdump(bytes: &[u8]) -> (lines: Vec<String>)
    ensures
        lines@.map_values(|line: String| line@) == hexdump_lines(bytes@),
{
    let ghost expected = hexdump_lines(bytes@);
    let mut lines: Vec<String> = Vec::new();
    let mut offset: usize = 0;
    while offset < bytes.len()
        invariant
            offset <= bytes.len(),
            offset % BYTES_PER_LINE == 0,
            expected == hexdump_lines(bytes@),
            lines@.len() == offset / BYTES_PER_LINE,
            lines@.map_values(|line: String| line@) == expected.take(
                offset as int / BYTES_PER_LINE as int,
            ),
        decreases bytes.len() - offset,
    {
        let end = if bytes.len() - offset >= BYTES_PER_LINE {
            offset + BYTES_PER_LINE
        } else {
            bytes.len()
        };
        let ghost number = offset as int / BYTES_PER_LINE as int;
        let ghost chunk = dump_line_bytes(bytes@, number);
        assert(chunk == bytes@.subrange(offset as int, end as int));
        let mut line = String::new();
        add_hex_offset(&mut line, offset);
        line.append(":");
        let ghost head = line@;
        let mut index = offset;
        while index < end
            invariant
                offset <= index <= end <= bytes.len(),
                chunk == bytes@.subrange(offset as int, end as int),
                line@ == head + dump_bytes(chunk.take(index - offset)),
            decreases end - index,
        {
            if (index - offset) % 4 == 0 {
                line.append("  ");
            } else {
                line.append(" ");
            }
            add_hex_byte(&mut line, bytes[index]);
            proof {
                let taken = chunk.take(index - offset + 1);
                assert(taken.drop_last() =~= chunk.take(index - offset));
                assert(taken.last() == bytes@[index as int]);
                assert(line@ =~= head + dump_bytes(taken));
            }
            index += 1;
        }
        proof {
            assert(chunk.take(end - offset) =~= chunk);
            assert(line@ =~= dump_line(offset as nat, chunk));
            assert(number < expected.len());
            assert(expected[number] == line@);
        }
        let ghost before = lines@.map_values(|line: String| line@);
        lines.push(line);
        proof {
            assert(lines@.map_values(|line: String| line@) =~= before.push(line@));
            assert(expected.take(number + 1) =~= expected.take(number).push(expected[number]));
            assert((end as int + BYTES_PER_LINE - 1) / BYTES_PER_LINE as int == number + 1);
        }
        if end == bytes.len() {
            proof {
                assert(expected.take(number + 1) =~= expected);
            }
            return lines;
        }
        offset = end;
    }
    assert(expected.take(offset as int / BYTES_PER_LINE as int) =~= expected);
    lines
}

} // verus!
