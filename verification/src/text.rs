//! Small pieces of text: comparing strings and writing numbers.
use vstd::prelude::*;
use vstd::string::StringExecFns;

verus! {

/// The character of one digit, in base ten or sixteen (upper case).
pub open spec fn digit(d: nat) -> char {
    if d < 10 {
        (48 + d) as char
    } else {
        (55 + d) as char
    }
}

/// `n` written in base ten, without leading zeros.
pub open spec fn decimal_text(n: nat) -> Seq<char>
    decreases n,
{
    if n < 10 {
        seq![digit(n)]
    } else {
        decimal_text(n / 10).push(digit(n % 10))
    }
}

/// A byte as two upper-case hexadecimal digits.
pub open spec fn hex_text(byte: u8) -> Seq<char> {
    seq![digit((byte / 16) as nat), digit((byte % 16) as nat)]
}

/// The bytes in hexadecimal, separated by a comma and a blank.
pub open spec fn hex_items_text(bytes: Seq<u8>) -> Seq<char>
    decreases bytes.len(),
{
    if bytes.len() == 0 {
        Seq::empty()
    } else if bytes.len() == 1 {
        hex_text(bytes[0])
    } else {
        hex_items_text(bytes.drop_last()) + ", "@ + hex_text(bytes.last())
    }
}

fn digit_str(d: u8) -> (s: &'static str)
    requires
        d < 16,
    ensures
        s@ == seq![digit(d as nat)],
{
    proof {
        reveal_strlit("0");
        reveal_strlit("1");
        reveal_strlit("2");
        reveal_strlit("3");
        reveal_strlit("4");
        reveal_strlit("5");
        reveal_strlit("6");
        reveal_strlit("7");
        reveal_strlit("8");
        reveal_strlit("9");
        reveal_strlit("A");
        reveal_strlit("B");
        reveal_strlit("C");
        reveal_strlit("D");
        reveal_strlit("E");
        reveal_strlit("F");
    }
    match d {
        0 => "0",
        1 => "1",
        2 => "2",
        3 => "3",
        4 => "4",
        5 => "5",
        6 => "6",
        7 => "7",
        8 => "8",
        9 => "9",
        10 => "A",
        11 => "B",
        12 => "C",
        13 => "D",
        14 => "E",
        _ => "F",
    }
}

/// Writes `n` in base ten.
pub fn decimal(n: u64) -> (s: String)
    ensures
        s@ == decimal_text(n as nat),
    decreases n,
{
    if n < 10 {
        digit_str(n as u8).to_owned()
    } else {
        let mut s = decimal(n / 10);
        s.append(digit_str((n % 10) as u8));
        assert(s@ =~= decimal_text((n / 10) as nat).push(digit((n % 10) as nat)));
        s
    }
}

/// Writes the bytes in hexadecimal, separated by a comma and a blank.
pub fn hex_items(bytes: &[u8]) -> (s: String)
    ensures
        s@ == hex_items_text(bytes@),
{
    let mut s = String::new();
    let mut i: usize = 0;
    assert(bytes@.take(0) =~= Seq::<u8>::empty());
    while i < bytes.len()
        invariant
            i <= bytes@.len(),
            s@ == hex_items_text(bytes@.take(i as int)),
        decreases bytes@.len() - i,
    {
        let byte = bytes[i];
        if i > 0 {
            s.append(", ");
        }
        s.append(digit_str(byte / 16));
        s.append(digit_str(byte % 16));
        proof {
            let next = bytes@.take(i + 1);
            assert(next.drop_last() =~= bytes@.take(i as int));
            assert(next.last() == byte);
            if i > 0 {
                assert(s@ =~= hex_items_text(next.drop_last()) + ", "@ + hex_text(byte));
            } else {
                assert(s@ =~= hex_text(byte));
            }
        }
        i = i + 1;
    }
    assert(bytes@.take(i as int) =~= bytes@);
    s
}

/// Equality of two strings, character for character.
pub fn same_text(a: &str, b: &str) -> (same: bool)
    ensures
        same == (a@ == b@),
{
    let left = a.as_bytes();
    let right = b.as_bytes();
    if left.len() != right.len() {
        return false;
    }
    let mut i: usize = 0;
    while i < left.len()
        invariant
            left@.len() == right@.len(),
            left@ == vstd::utf8::encode_utf8(a@),
            right@ == vstd::utf8::encode_utf8(b@),
            i <= left@.len(),
            forall|j: int| 0 <= j < i ==> left@[j] == right@[j],
        decreases left@.len() - i,
    {
        if left[i] != right[i] {
            return false;
        }
        i = i + 1;
    }
    proof {
        assert(left@ =~= right@);
        vstd::utf8::encode_utf8_decode_utf8(a@);
        vstd::utf8::encode_utf8_decode_utf8(b@);
    }
    true
}

/// The number that a text of digits in base ten stands for.
pub open spec fn decimal_value(text: Seq<char>) -> int
    decreases text.len(),
{
    if text.len() == 0 {
        0
    } else {
        10 * decimal_value(text.drop_last()) + (text.last() as int - '0' as int)
    }
}

/// The number that one hexadecimal digit in upper case stands for.
pub open spec fn hex_value(c: char) -> int {
    if c <= '9' {
        c as int - '0' as int
    } else {
        c as int - 'A' as int + 10
    }
}

/// A number in base ten is made of digits, has no needless zero in front, and
/// stands for that number.
pub proof fn law_decimal_stands_for_the_number(n: nat)
    ensures
        decimal_text(n).len() >= 1,
        forall|i: int|
            0 <= i < decimal_text(n).len() ==> '0' <= #[trigger] decimal_text(n)[i] <= '9',
        decimal_text(n).len() > 1 ==> decimal_text(n)[0] != '0',
        decimal_value(decimal_text(n)) == n,
    decreases n,
{
    reveal_with_fuel(decimal_text, 2);
    reveal_with_fuel(decimal_value, 2);
    let text = decimal_text(n);
    if n >= 10 {
        let front = decimal_text(n / 10);
        law_decimal_stands_for_the_number(n / 10);
        assert(text.drop_last() =~= front);
        assert(text[0] == front[0]);
        assert(text.last() == digit(n % 10));
        if n / 10 >= 10 {
            assert(front.len() > 1);
        }
    } else {
        assert(text.last() == digit(n));
        assert(text.drop_last() =~= Seq::<char>::empty());
    }
}

/// A byte in hexadecimal is two digits in upper case that stand for it.
pub proof fn law_hex_stands_for_the_byte(byte: u8)
    ensures
        hex_text(byte).len() == 2,
        forall|i: int|
            0 <= i < 2 ==> '0' <= #[trigger] hex_text(byte)[i] <= '9' || 'A' <= hex_text(byte)[i]
                <= 'F',
        16 * hex_value(hex_text(byte)[0]) + hex_value(hex_text(byte)[1]) == byte,
{
}

/// Each byte of a list in hexadecimal is in its place, with a comma and a blank
/// between it and the next, and there is nothing else.
pub proof fn law_hex_items(bytes: Seq<u8>)
    ensures
        bytes.len() == 0 ==> hex_items_text(bytes).len() == 0,
        bytes.len() > 0 ==> hex_items_text(bytes).len() == 4 * bytes.len() - 2,
        forall|i: int|
            0 <= i < bytes.len() ==> {
                &&& hex_items_text(bytes)[4 * i] == hex_text(#[trigger] bytes[i])[0]
                &&& hex_items_text(bytes)[4 * i + 1] == hex_text(bytes[i])[1]
                &&& i + 1 < bytes.len() ==> hex_items_text(bytes)[4 * i + 2] == ','
                    && hex_items_text(bytes)[4 * i + 3] == ' '
            },
    decreases bytes.len(),
{
    reveal_strlit(", ");
    assert(", "@.len() == 2 && ", "@[0] == ',' && ", "@[1] == ' ');
    if bytes.len() > 1 {
        let front = bytes.drop_last();
        law_hex_items(front);
        assert forall|i: int| 0 <= i < bytes.len() implies {
            &&& hex_items_text(bytes)[4 * i] == hex_text(#[trigger] bytes[i])[0]
            &&& hex_items_text(bytes)[4 * i + 1] == hex_text(bytes[i])[1]
            &&& i + 1 < bytes.len() ==> hex_items_text(bytes)[4 * i + 2] == ','
                && hex_items_text(bytes)[4 * i + 3] == ' '
        } by {
            if i + 1 < bytes.len() {
                assert(front[i] == bytes[i]);
            }
        }
    }
}

} // verus!
