//! The line that is shown for a finished command.

use crate::dispatch::Report;
use crate::encoding::views;
use vstd::prelude::*;
use vstd::string::StringExecFns;

verus! {

/// The character of one hexadecimal digit, in lower case.
pub open spec fn hex_char(digit: int) -> char {
    "0123456789abcdef"@[digit]
}

/// Two hexadecimal digits for each byte, the high one first.
pub open spec fn hex_digits(bytes: Seq<u8>) -> Seq<char> {
    Seq::new(
        2 * bytes.len(),
        |i: int|
            if i % 2 == 0 {
                hex_char(bytes[i / 2] as int / 16)
            } else {
                hex_char(bytes[i / 2] as int % 16)
            },
    )
}

/// A byte string as it is shown: `0x` and its hexadecimal digits.
pub open spec fn piece_text(bytes: Seq<u8>) -> Seq<char> {
    seq!['0', 'x'] + hex_digits(bytes)
}

/// Byte strings as they are shown: each after a space.
pub open spec fn pieces_text(pieces: Seq<Seq<u8>>) -> Seq<char>
    decreases pieces.len(),
{
    if pieces.len() == 0 {
        Seq::empty()
    } else {
        pieces_text(pieces.drop_last()) + seq![' '] + piece_text(pieces.last())
    }
}

/// The line that is shown for a report.
pub open spec fn rendered(report: Report) -> Seq<char> {
    match report {
        Report::NewAddress(address) => "new address: "@ + address@,
        Report::Values(values) => "Result:"@ + pieces_text(views(values@)),
        Report::Fault(message) => "Fault: "@ + message@,
    }
}

/// The text of one hexadecimal digit.
fn hex_digit(digit: u8) -> (text: &'static str)
    requires
        digit < 16,
    ensures
        text@ == seq![hex_char(digit as int)],
{
    proof {
        reveal_strlit("0123456789abcdef");
        reveal_strlit("0");
        reveal_strlit("1");
        reveal_strlit("2");
        reveal_strlit("3");
        reveal_strlit("4");
        reveal_strlit("5");
        reveal_strlit("6");
        reveal_strlit("7");
        reveal_strlit("8");
        reveal_strlit("9");
        reveal_strlit("a");
        reveal_strlit("b");
        reveal_strlit("c");
        reveal_strlit("d");
        reveal_strlit("e");
        reveal_strlit("f");
    }
    let text = match digit {
        0 => "0",
        1 => "1",
        2 => "2",
        3 => "3",
        4 => "4",
        5 => "5",
        6 => "6",
        7 => "7",
        8 => "8",
        9 => "9",
        10 => "a",
        11 => "b",
        12 => "c",
        13 => "d",
        14 => "e",
        _ => "f",
    };
    assert(text@ =~= seq![hex_char(digit as int)]);
    text
}

/// Appends a byte string as it is shown.
fn append_piece(line: &mut String, bytes: &Vec<u8>)
    ensures
        final(line)@ == old(line)@ + piece_text(bytes@),
{
    proof {
        reveal_strlit("0x");
    }
    line.append("0x");
    assert(line@ =~= old(line)@ + seq!['0', 'x'] + hex_digits(bytes@.take(0)));
    let mut i: usize = 0;
    while i < bytes.len()
        invariant
            i <= bytes.len(),
            line@ == old(line)@ + seq!['0', 'x'] + hex_digits(bytes@.take(i as int)),
        decreases bytes.len() - i,
    {
        let byte: u8 = bytes[i];
        let ghost before = line@;
        line.append(hex_digit(byte / 16));
        line.append(hex_digit(byte % 16));
        proof {
            let shorter = hex_digits(bytes@.take(i as int));
            let longer = hex_digits(bytes@.take(i + 1));
            assert(longer =~= shorter + seq![hex_char(byte as int / 16)] + seq![
                hex_char(byte as int % 16),
            ]);
            assert(line@ =~= old(line)@ + seq!['0', 'x'] + longer);
        }
        i += 1;
    }
    assert(bytes@.take(bytes.len() as int) =~= bytes@);
    assert(line@ =~= old(line)@ + piece_text(bytes@));
}

impl Report {
    /// Writes the line that is shown for the report.
    pub fn render(&self) -> (line: String)
        ensures
            line@ == rendered(*self),
    {
        match self {
            Report::NewAddress(address) => {
                let mut line = "new address: ".to_owned();
                line.append(address.to_bech32_str());
                line
            },
            Report::Values(values) => {
                let mut line = "Result:".to_owned();
                let mut i: usize = 0;
                assert(pieces_text(views(values@).take(0)) =~= Seq::<char>::empty());
                assert(line@ =~= "Result:"@ + pieces_text(views(values@).take(0)));
                while i < values.len()
                    invariant
                        i <= values.len(),
                        line@ == "Result:"@ + pieces_text(views(values@).take(i as int)),
                    decreases values.len() - i,
                {
                    proof {
                        reveal_strlit(" ");
                        let shown = views(values@).take(i + 1);
                        assert(shown.drop_last() =~= views(values@).take(i as int));
                        assert(shown.last() == values@[i as int]@);
                    }
                    line.append(" ");
                    append_piece(&mut line, &values[i]);
                    assert(line@ =~= "Result:"@ + pieces_text(views(values@).take(i + 1)));
                    i += 1;
                }
                assert(views(values@).take(values.len() as int) =~= views(values@));
                line
            },
            Report::Fault(message) => {
                let mut line = "Fault: ".to_owned();
                line.append(message.as_str());
                line
            },
        }
    }
}

} // verus!
