//! Packet layouts: a packet is listed as the rules that form its bytes, in the
//! order that they have in the packet. A rule is a constant byte or a field of
//! one byte. The same list says how a packet is written and how it is
//! recognised.
use crate::error::PacketError;
use crate::frame;
use vstd::prelude::*;

verus! {

/// One byte of a packet.
#[derive(Clone, Copy, Debug, PartialEq, Eq, Structural)]
pub enum Rule {
    /// This byte and no other.
    Byte(u8),
    /// The byte of a field.
    Field,
}

/// How many fields a layout has.
pub open spec fn field_count(rules: Seq<Rule>) -> nat
    decreases rules.len(),
{
    if rules.len() == 0 {
        0
    } else {
        field_count(rules.skip(1)) + match rules[0] {
            Rule::Byte(_) => 0nat,
            Rule::Field => 1nat,
        }
    }
}

/// The bytes that a layout forms from the bytes of its fields.
pub open spec fn formed(rules: Seq<Rule>, fields: Seq<u8>) -> Seq<u8>
    decreases rules.len(),
{
    if rules.len() == 0 {
        Seq::empty()
    } else {
        match rules[0] {
            Rule::Byte(byte) => seq![byte] + formed(rules.skip(1), fields),
            Rule::Field => seq![fields[0]] + formed(rules.skip(1), fields.skip(1)),
        }
    }
}

/// The bytes of the fields that a layout finds in `data`, or what keeps `data`
/// from having that layout: the first rule that its bytes do not meet, or a
/// nonzero byte after the last rule.
pub open spec fn matched(rules: Seq<Rule>, data: Seq<u8>) -> Result<Seq<u8>, PacketError>
    decreases rules.len(),
{
    if rules.len() == 0 {
        if frame::all_zero(data) {
            Ok(Seq::empty())
        } else {
            Err(PacketError::NonzeroPadding)
        }
    } else {
        match rules[0] {
            Rule::Byte(expected) => if data.len() == 0 {
                Err(PacketError::UnexpectedByte { expected, found: None })
            } else if data[0] != expected {
                Err(PacketError::UnexpectedByte { expected, found: Some(data[0]) })
            } else {
                matched(rules.skip(1), data.skip(1))
            },
            Rule::Field => if data.len() == 0 {
                Err(PacketError::Eof)
            } else {
                match matched(rules.skip(1), data.skip(1)) {
                    Ok(fields) => Ok(seq![data[0]] + fields),
                    Err(error) => Err(error),
                }
            },
        }
    }
}

/// What stands in front of the checksum: all bytes but the last.
pub open spec fn body(data: Seq<u8>) -> Seq<u8> {
    if data.len() == 0 {
        data
    } else {
        data.drop_last()
    }
}

/// What stands in front of the checksum: all bytes but the last.
pub fn packet_body(data: &[u8]) -> (content: &[u8])
    ensures
        content@ == body(data@),
{
    let end = data.len().saturating_sub(1);
    let content = &data[0..end];
    assert(content@ =~= body(data@));
    content
}

/// Takes one constant byte off the front of `data`.
pub fn expect_byte(data: &[u8], expected: u8) -> (rest: Result<&[u8], PacketError>)
    ensures
        match rest {
            Ok(rest) => data@.len() > 0 && data@[0] == expected && rest@ == data@.skip(1),
            Err(error) => if data@.len() == 0 {
                error == (PacketError::UnexpectedByte { expected, found: None })
            } else {
                data@[0] != expected && error == (PacketError::UnexpectedByte {
                    expected,
                    found: Some(data@[0]),
                })
            },
        },
{
    if data.len() == 0 {
        return Err(PacketError::UnexpectedByte { expected, found: None });
    }
    if data[0] != expected {
        return Err(PacketError::UnexpectedByte { expected, found: Some(data[0]) });
    }
    Ok(&data[1..data.len()])
}

/// Checks that nothing but zeros is left.
pub fn expect_zeros(data: &[u8]) -> (done: Result<(), PacketError>)
    ensures
        match done {
            Ok(_) => frame::all_zero(data@),
            Err(error) => !frame::all_zero(data@) && error == PacketError::NonzeroPadding,
        },
{
    if is_zero(data) {
        Ok(())
    } else {
        Err(PacketError::NonzeroPadding)
    }
}

/// Whether every byte is zero.
pub fn is_zero(data: &[u8]) -> (zero: bool)
    ensures
        zero == frame::all_zero(data@),
{
    let mut i: usize = 0;
    while i < data.len()
        invariant
            i <= data@.len(),
            forall|j: int| 0 <= j < i ==> data@[j] == 0,
        decreases data@.len() - i,
    {
        if data[i] != 0 {
            return false;
        }
        i = i + 1;
    }
    true
}

/// A layout forms one byte for each of its rules.
pub proof fn lemma_formed_len(rules: Seq<Rule>, fields: Seq<u8>)
    ensures
        formed(rules, fields).len() == rules.len(),
    decreases rules.len(),
{
    if rules.len() > 0 {
        match rules[0] {
            Rule::Byte(_) => lemma_formed_len(rules.skip(1), fields),
            Rule::Field => lemma_formed_len(rules.skip(1), fields.skip(1)),
        }
    }
}

/// Bytes that a layout formed, with any number of zeros after them, have that
/// layout, and the fields that it finds in them are those that it was given.
pub proof fn law_formed_matches(rules: Seq<Rule>, fields: Seq<u8>, padding: Seq<u8>)
    requires
        fields.len() == field_count(rules),
        frame::all_zero(padding),
    ensures
        matched(rules, formed(rules, fields) + padding) == Ok::<Seq<u8>, PacketError>(fields),
    decreases rules.len(),
{
    let data = formed(rules, fields) + padding;
    if rules.len() == 0 {
        assert(data =~= padding);
        assert(fields =~= Seq::empty());
    } else {
        match rules[0] {
            Rule::Byte(_) => {
                law_formed_matches(rules.skip(1), fields, padding);
                assert(data.skip(1) =~= formed(rules.skip(1), fields) + padding);
            },
            Rule::Field => {
                law_formed_matches(rules.skip(1), fields.skip(1), padding);
                assert(data.skip(1) =~= formed(rules.skip(1), fields.skip(1)) + padding);
                assert(seq![fields[0]] + fields.skip(1) =~= fields);
            },
        }
    }
}

/// Bytes that have a layout are those that the layout forms from the fields it
/// finds in them, and zeros: nothing else passes.
pub proof fn law_matched_is_formed(rules: Seq<Rule>, data: Seq<u8>)
    requires
        matched(rules, data) is Ok,
    ensures
        ({
            let fields = matched(rules, data)->Ok_0;
            &&& fields.len() == field_count(rules)
            &&& data.len() >= rules.len()
            &&& data.take(rules.len() as int) == formed(rules, fields)
            &&& frame::all_zero(data.skip(rules.len() as int))
        }),
    decreases rules.len(),
{
    let n = rules.len() as int;
    let fields = matched(rules, data)->Ok_0;
    if n == 0 {
        assert(data.take(0) =~= formed(rules, fields));
        assert(data.skip(0) =~= data);
    } else {
        law_matched_is_formed(rules.skip(1), data.skip(1));
        let rest = matched(rules.skip(1), data.skip(1))->Ok_0;
        assert(data.take(n) =~= seq![data[0]] + data.skip(1).take(n - 1));
        assert(data.skip(n) =~= data.skip(1).skip(n - 1));
        if rules[0] is Field {
            assert(fields.skip(1) =~= rest);
        }
    }
}

/// A frame finished from what a layout formed has that layout, checksum aside.
pub proof fn lemma_framed_matches(rules: Seq<Rule>, fields: Seq<u8>)
    requires
        fields.len() == field_count(rules),
        rules.len() <= frame::CONTENT_LEN,
    ensures
        matched(rules, body(frame::framed(formed(rules, fields)))) == Ok::<Seq<u8>, PacketError>(
            fields,
        ),
{
    let content = formed(rules, fields);
    lemma_formed_len(rules, fields);
    let padding = frame::zeros((frame::CONTENT_LEN - content.len()) as nat);
    law_formed_matches(rules, fields, padding);
    assert(body(frame::framed(content)) =~= content + padding);
}

/// What stands in front of the checksum is every byte but the last, in order.
pub proof fn law_body(data: Seq<u8>)
    ensures
        data.len() == 0 ==> body(data).len() == 0,
        data.len() > 0 ==> body(data) == data.subrange(0, data.len() - 1),
{
}

} // verus!
