//! The 20-byte frame that every command and report travels in: up to 19 bytes
//! of content, zero padding, and an XOR checksum in the last byte.
use crate::error::PacketError;
use vstd::prelude::*;

verus! {

/// Bytes of a frame before its checksum.
pub const CONTENT_LEN: usize = 19;

/// Bytes of a frame.
pub const FRAME_LEN: usize = 20;

/// The XOR of all bytes, zero for none.
pub open spec fn xor_all(data: Seq<u8>) -> u8
    decreases data.len(),
{
    if data.len() == 0 {
        0
    } else {
        xor_all(data.drop_last()) ^ data.last()
    }
}

/// `n` zero bytes.
pub open spec fn zeros(n: nat) -> Seq<u8> {
    Seq::new(n, |i: int| 0u8)
}

/// Whether every byte is zero.
pub open spec fn all_zero(data: Seq<u8>) -> bool {
    forall|i: int| 0 <= i < data.len() ==> data[i] == 0
}

/// `data` cut or padded with zeros to the content length.
pub open spec fn padded(data: Seq<u8>) -> Seq<u8> {
    Seq::new(CONTENT_LEN as nat, |i: int| if i < data.len() { data[i] } else { 0u8 })
}

/// The frame that carries `data`. The checksum covers `data` as given, also
/// what the frame has no room for.
pub open spec fn framed(data: Seq<u8>) -> Seq<u8> {
    padded(data).push(xor_all(data))
}

/// Whether `frame` is a whole frame whose last byte is the XOR of the others.
pub open spec fn is_sealed(frame: Seq<u8>) -> bool {
    frame.len() == FRAME_LEN && frame[19] == xor_all(frame.take(19))
}

/// What a fallible encoder returned, by its bytes.
pub open spec fn bytes_of(result: Result<Vec<u8>, PacketError>) -> Result<Seq<u8>, PacketError> {
    match result {
        Ok(bytes) => Ok(bytes@),
        Err(error) => Err(error),
    }
}

/// The XOR of all bytes.
pub fn calculate_checksum(data: &[u8]) -> (checksum: u8)
    ensures
        checksum == xor_all(data@),
{
    let mut checksum: u8 = 0;
    let mut i: usize = 0;
    assert(data@.take(0) =~= Seq::<u8>::empty());
    while i < data.len()
        invariant
            i <= data@.len(),
            checksum == xor_all(data@.take(i as int)),
        decreases data@.len() - i,
    {
        checksum = checksum ^ data[i];
        assert(data@.take(i + 1).drop_last() =~= data@.take(i as int));
        i = i + 1;
    }
    assert(data@.take(i as int) =~= data@);
    checksum
}

/// Pads (or cuts) `data` to the content length and appends its checksum.
pub fn finish(data: Vec<u8>) -> (frame: Vec<u8>)
    ensures
        frame@ == framed(data@),
{
    let checksum = calculate_checksum(data.as_slice());
    let ghost content = data@;
    let mut frame = data;
    frame.resize(CONTENT_LEN, 0);
    proof {
        if content.len() < CONTENT_LEN {
            assert forall|i: int| 0 <= i < content.len() implies frame@[i] == content[i] by {
                assert(frame@.subrange(0, content.len() as int)[i] == content[i]);
            }
        }
        assert(frame@ =~= padded(content));
    }
    frame.push(checksum);
    frame
}

/// The XOR of two sequences in a row is the XOR of the two XORs.
pub proof fn lemma_xor_all_concat(a: Seq<u8>, b: Seq<u8>)
    ensures
        xor_all(a + b) == xor_all(a) ^ xor_all(b),
    decreases b.len(),
{
    if b.len() == 0 {
        assert(a + b =~= a);
        let x = xor_all(a);
        assert(x ^ 0u8 == x) by (bit_vector);
    } else {
        lemma_xor_all_concat(a, b.drop_last());
        assert((a + b).drop_last() =~= a + b.drop_last());
        let x = xor_all(a);
        let y = xor_all(b.drop_last());
        let z = b.last();
        assert((x ^ y) ^ z == x ^ (y ^ z)) by (bit_vector);
    }
}

/// The XOR of zero bytes is zero.
pub proof fn lemma_xor_all_zero(data: Seq<u8>)
    requires
        all_zero(data),
    ensures
        xor_all(data) == 0,
    decreases data.len(),
{
    if data.len() > 0 {
        lemma_xor_all_zero(data.drop_last());
        assert(0u8 ^ 0u8 == 0u8) by (bit_vector);
    }
}

/// Finishing any data gives a whole frame, and where the data fits in the
/// frame, the data is there in front, zeros follow, and the last byte is the
/// XOR of the 19 before it.
pub proof fn law_finish_seals(data: Seq<u8>)
    ensures
        framed(data).len() == FRAME_LEN,
        data.len() <= CONTENT_LEN ==> {
            &&& framed(data).take(data.len() as int) == data
            &&& all_zero(framed(data).subrange(data.len() as int, 19))
            &&& is_sealed(framed(data))
        },
{
    if data.len() <= CONTENT_LEN {
        let frame = framed(data);
        let pad = zeros((CONTENT_LEN - data.len()) as nat);
        assert(frame.take(data.len() as int) =~= data);
        assert(frame.take(19) =~= data + pad);
        lemma_xor_all_concat(data, pad);
        lemma_xor_all_zero(pad);
        let x = xor_all(data);
        assert(x ^ 0u8 == x) by (bit_vector);
    }
}

/// The XOR over a whole sealed frame, checksum included, is zero.
pub proof fn law_sealed_frame_cancels(frame: Seq<u8>)
    requires
        is_sealed(frame),
    ensures
        xor_all(frame) == 0,
{
    assert(frame.drop_last() =~= frame.take(19));
    let x = xor_all(frame.take(19));
    assert(x ^ x == 0u8) by (bit_vector);
}

/// Changing one byte changes the XOR by both the byte that went and the one
/// that came.
proof fn lemma_xor_all_update(data: Seq<u8>, i: int, byte: u8)
    requires
        0 <= i < data.len(),
    ensures
        xor_all(data.update(i, byte)) == xor_all(data) ^ data[i] ^ byte,
    decreases data.len(),
{
    let x = xor_all(data.drop_last());
    let last = data.last();
    let changed = data.update(i, byte);
    if i == data.len() - 1 {
        assert(changed.drop_last() =~= data.drop_last());
        assert(x ^ byte == x ^ last ^ last ^ byte) by (bit_vector);
    } else {
        lemma_xor_all_update(data.drop_last(), i, byte);
        assert(changed.drop_last() =~= data.drop_last().update(i, byte));
        let gone = data[i];
        assert(x ^ gone ^ byte ^ last == x ^ last ^ gone ^ byte) by (bit_vector);
    }
}

/// A frame in which one byte was changed, be it the checksum, is no longer
/// sealed.
pub proof fn law_one_changed_byte_breaks_the_seal(frame: Seq<u8>, i: int, byte: u8)
    requires
        is_sealed(frame),
        0 <= i < frame.len(),
        byte != frame[i],
    ensures
        !is_sealed(frame.update(i, byte)),
{
    let changed = frame.update(i, byte);
    if i < 19 {
        let content = frame.take(19);
        assert(changed.take(19) =~= content.update(i, byte));
        lemma_xor_all_update(content, i, byte);
        let x = xor_all(content);
        let gone = frame[i];
        assert(gone != byte ==> x ^ gone ^ byte != x) by (bit_vector);
    } else {
        assert(changed.take(19) =~= frame.take(19));
    }
}

/// The checksum of no bytes is zero, and each byte that is added is combined with
/// it by XOR.
pub proof fn law_checksum(data: Seq<u8>, byte: u8)
    ensures
        xor_all(Seq::empty()) == 0,
        xor_all(data.push(byte)) == xor_all(data) ^ byte,
{
    assert(data.push(byte).drop_last() =~= data);
}

/// What each of the 20 bytes of a frame is: the data as far as there is room,
/// then zeros, and at the end the checksum of all of the data.
pub proof fn law_frame_bytes(data: Seq<u8>)
    ensures
        framed(data).len() == 20,
        forall|i: int| 0 <= i < 19 && i < data.len() ==> #[trigger] framed(data)[i] == data[i],
        forall|i: int| data.len() <= i < 19 ==> #[trigger] framed(data)[i] == 0,
        framed(data)[19] == xor_all(data),
{
}

/// A frame is sealed when it has 20 bytes and the last one is the checksum of the
/// 19 before it, and only then.
pub proof fn law_sealed(frame: Seq<u8>)
    ensures
        is_sealed(frame) <==> frame.len() == 20 && frame[19] == xor_all(frame.subrange(0, 19)),
{
    if frame.len() == 20 {
        assert(frame.take(19) =~= frame.subrange(0, 19));
    }
}

/// The bytes of what an encoder returned are all of its bytes, and its error is
/// the error.
pub proof fn law_encoder_result(bytes: Vec<u8>, error: PacketError)
    ensures
        bytes_of(Ok(bytes)) == Ok::<Seq<u8>, PacketError>(bytes@),
        bytes_of(Err(error)) == Err::<Seq<u8>, PacketError>(error),
{
}

/// Bytes are all zero when each of them is, and only then.
pub proof fn law_all_zero(data: Seq<u8>)
    ensures
        all_zero(data) <==> (forall|i: int| 0 <= i < data.len() ==> data[i] == 0),
{
}

} // verus!
