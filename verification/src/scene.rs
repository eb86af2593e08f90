//! Scenes of lights: the scene parameter, fragmented into lines, and the code
//! that activates it.
use crate::base64;
use crate::error::PacketError;
use crate::frame;
use crate::packet::{GoveeBlePacket, PacketType};
use vstd::prelude::*;

verus! {

/// The longest scene parameter, in bytes, whose lines one byte can count.
pub const MAX_SCENE_BYTES: usize = 4332;

/// A length of Base64 text that never stands for more than
/// [`MAX_SCENE_BYTES`] bytes.
pub const SAFE_PARAM_LEN: usize = 5776;

/// How many lines a scene parameter of `len` bytes takes. A line has room for
/// 17 bytes, and the first three of them are taken.
pub open spec fn scene_line_count(len: nat) -> nat {
    (len + 19) / 17
}

/// What is spread over the lines: a one, the number of lines, a two, and the
/// scene parameter.
pub open spec fn scene_stream(bytes: Seq<u8>) -> Seq<u8> {
    seq![0x01u8, scene_line_count(bytes.len()) as u8, 0x02u8] + bytes
}

/// The content of line `i`: the fragment marker, the number of the line, which
/// is 255 for the last, and the line's part of the stream.
pub open spec fn scene_line(bytes: Seq<u8>, i: int) -> Seq<u8> {
    let stream = scene_stream(bytes);
    let number = if i + 1 == scene_line_count(bytes.len()) {
        0xffu8
    } else {
        i as u8
    };
    let end = if 17 * (i + 1) < stream.len() {
        17 * (i + 1)
    } else {
        stream.len() as int
    };
    seq![0xa3u8, number] + stream.subrange(17 * i, end)
}

/// The first `n` lines, each finished to a frame.
pub open spec fn scene_lines(bytes: Seq<u8>, n: nat) -> Seq<u8>
    decreases n,
{
    if n == 0 {
        Seq::empty()
    } else {
        scene_lines(bytes, (n - 1) as nat) + frame::framed(scene_line(bytes, n - 1))
    }
}

/// The frame that activates a scene code, which is sent low byte first.
pub open spec fn scene_activation(code: u16) -> Seq<u8> {
    frame::framed(seq![0x33u8, 0x05u8, 0x04u8, (code % 256) as u8, (code / 256) as u8])
}

/// The whole command: the lines of the parameter, then the activation.
pub open spec fn scene_frames(code: u16, bytes: Seq<u8>) -> Seq<u8> {
    scene_lines(bytes, scene_line_count(bytes.len())) + scene_activation(code)
}

/// The byte at position `p` of the unpadded lines in a row, while the number of
/// lines is still zero and the last line has a number like the others.
spec fn draft_byte(bytes: Seq<u8>, p: int) -> u8 {
    let i = p / 19;
    let j = p % 19;
    if j == 0 {
        0xa3u8
    } else if j == 1 {
        i as u8
    } else {
        (seq![0x01u8, 0x00u8, 0x02u8] + bytes)[17 * i + j - 2]
    }
}

/// The command for scene `code` with the scene parameter `bytes`.
pub fn encode_scene(code: u16, bytes: &[u8]) -> (frames: Vec<u8>)
    requires
        bytes@.len() <= MAX_SCENE_BYTES,
    ensures
        frames@ == scene_frames(code, bytes@),
{
    let mut data: Vec<u8> = vec![0xa3u8, 0x00u8, 0x01u8, 0x00u8, 0x02u8];
    let mut num_lines: u8 = 0;
    let mut last_line_marker: usize = 1;
    let mut k: usize = 0;
    while k < bytes.len()
        invariant
            bytes@.len() <= MAX_SCENE_BYTES,
            k <= bytes@.len(),
            num_lines + 1 == scene_line_count(k as nat),
            last_line_marker == 19 * num_lines + 1,
            data@.len() == k + 3 + 2 * (num_lines + 1),
            forall|p: int| 0 <= p < data@.len() ==> data@[p] == draft_byte(bytes@, p),
        decreases bytes@.len() - k,
    {
        if data.len() % 19 == 0 {
            num_lines = num_lines + 1;
            data.push(0xa3);
            last_line_marker = data.len();
            data.push(num_lines);
        }
        data.push(bytes[k]);
        k = k + 1;
    }
    // The last line has 255 in place of its number.
    data[last_line_marker] = 0xff;
    // The number of lines is known only now.
    data[3] = num_lines + 1;

    let lines = num_lines as usize + 1;
    let mut frames: Vec<u8> = Vec::new();
    let mut i: usize = 0;
    while i < lines
        invariant
            i <= lines,
            lines == scene_line_count(bytes@.len()),
            lines <= 255,
            data@.len() == bytes@.len() + 3 + 2 * lines,
            frames@ == scene_lines(bytes@, i as nat),
            forall|p: int| #![trigger data@[p]]
                0 <= p < data@.len() ==> data@[p] == (if p == 19 * (lines - 1) + 1 {
                    0xffu8
                } else if p == 3 {
                    lines as u8
                } else {
                    draft_byte(bytes@, p)
                }),
        decreases lines - i,
    {
        let start = 19 * i;
        let end = if 19 * (i + 1) < data.len() {
            19 * (i + 1)
        } else {
            data.len()
        };
        let line = vstd::slice::slice_to_vec(&data.as_slice()[start..end]);
        assert(line@ =~= scene_line(bytes@, i as int));
        frames.append(&mut frame::finish(line));
        i = i + 1;
    }
    let hi = (code >> 8u16) as u8;
    let lo = (code & 0xff) as u8;
    assert(code >> 8u16 == code / 256) by (bit_vector);
    assert(code & 0xff == code % 256) by (bit_vector);
    let activation: Vec<u8> = vec![0x33u8, 0x05u8, 0x04u8, lo, hi];
    assert(activation@ =~= seq![0x33u8, 0x05u8, 0x04u8, lo, hi]);
    frames.append(&mut frame::finish(activation));
    frames
}

/// A scene: its code, and its parameter in Base64.
#[derive(Clone, Debug, PartialEq, Eq)]
pub struct SetSceneCode {
    code: u16,
    scence_param: String,
}

impl Default for SetSceneCode {
    fn default() -> (scene: Self)
        ensures
            scene.code() == 0,
            scene.param() == Seq::<char>::empty(),
    {
        SetSceneCode { code: 0, scence_param: String::new() }
    }
}

impl SetSceneCode {
    pub closed spec fn code(self) -> u16 {
        self.code
    }

    /// The parameter, in Base64.
    pub closed spec fn param(self) -> Seq<char> {
        self.scence_param@
    }

    /// The bytes of the parameter's text.
    pub open spec fn param_text(self) -> Seq<u8> {
        vstd::utf8::encode_utf8(self.param())
    }

    /// Whether the parameter is of a length that can be decoded, and its lines
    /// can be counted in one byte. Those of a text up to [`SAFE_PARAM_LEN`]
    /// always can, and a text that is not Base64 has none to count.
    pub open spec fn encodable(self) -> bool {
        &&& self.param_text().len() <= usize::MAX / 8
        &&& self.param_text().len() <= SAFE_PARAM_LEN || (base64::base64_bytes(
            self.param_text(),
        ) matches Ok(bytes) ==> bytes.len() <= MAX_SCENE_BYTES)
    }

    /// The command for this scene.
    pub open spec fn encoding(self) -> Result<Seq<u8>, PacketError> {
        match base64::base64_bytes(self.param_text()) {
            Ok(bytes) => Ok(scene_frames(self.code(), bytes)),
            Err(error) => Err(PacketError::Base64 { error }),
        }
    }

    pub fn new(code: u16, scence_param: String) -> (scene: Self)
        ensures
            scene.code() == code,
            scene.param() == scence_param@,
    {
        SetSceneCode { code, scence_param }
    }

    /// The command for this scene: the parameter in fragments, then the code.
    pub fn encode(&self) -> (frames: Result<Vec<u8>, PacketError>)
        requires
            self.encodable(),
        ensures
            frame::bytes_of(frames) == self.encoding(),
    {
        match base64::base64_decode(self.scence_param.as_str().as_bytes()) {
            Ok(bytes) => Ok(encode_scene(self.code, bytes.as_slice())),
            Err(error) => Err(PacketError::Base64 { error }),
        }
    }

    /// Whether [`SetSceneCode::encode`] can be called.
    pub fn is_encodable(&self) -> (encodable: bool)
        ensures
            encodable == self.encodable(),
    {
        let text = self.scence_param.as_str().as_bytes();
        if text.len() > usize::MAX / 8 {
            return false;
        }
        match base64::base64_decode(text) {
            Ok(bytes) => bytes.len() <= MAX_SCENE_BYTES,
            Err(_) => true,
        }
    }

    /// As [`SetSceneCode::encode`], for any scene: `None` where the parameter
    /// is too long to be encoded.
    pub fn checked_encode(&self) -> (frames: Option<Result<Vec<u8>, PacketError>>)
        ensures
            match frames {
                Some(frames) => self.encodable() && frame::bytes_of(frames) == self.encoding(),
                None => !self.encodable(),
            },
    {
        if self.is_encodable() {
            Some(self.encode())
        } else {
            None
        }
    }

    pub open spec fn decoding(_data: Seq<u8>) -> Result<GoveeBlePacket, PacketError> {
        Err(PacketError::NoDecoder { packet_type: PacketType::SetSceneCode })
    }

    /// Scenes are not decoded.
    pub fn decode(_data: &[u8]) -> (packet: Result<GoveeBlePacket, PacketError>)
        ensures
            packet == Self::decoding(_data@),
    {
        Err(PacketError::NoDecoder { packet_type: PacketType::SetSceneCode })
    }
}

proof fn lemma_scene_lines(bytes: Seq<u8>, n: nat)
    requires
        n <= scene_line_count(bytes.len()),
    ensures
        scene_lines(bytes, n).len() == 20 * n,
        forall|i: int|
            0 <= i < n ==> #[trigger] scene_lines(bytes, n).subrange(20 * i, 20 * i + 20)
                == frame::framed(scene_line(bytes, i)),
    decreases n,
{
    if n > 0 {
        let before = scene_lines(bytes, (n - 1) as nat);
        let line = frame::framed(scene_line(bytes, n - 1));
        lemma_scene_lines(bytes, (n - 1) as nat);
        frame::law_finish_seals(scene_line(bytes, n - 1));
        assert forall|i: int| 0 <= i < n implies #[trigger] scene_lines(bytes, n).subrange(
            20 * i,
            20 * i + 20,
        ) == frame::framed(scene_line(bytes, i)) by {
            if i < n - 1 {
                assert(scene_lines(bytes, n).subrange(20 * i, 20 * i + 20) =~= before.subrange(
                    20 * i,
                    20 * i + 20,
                ));
            } else {
                assert(scene_lines(bytes, n).subrange(20 * i, 20 * i + 20) =~= line);
            }
        }
    }
}

/// The command for a scene is whole frames, each with a right checksum: one for
/// each line and the activation at the end.
pub proof fn law_scene_frames_are_sealed(code: u16, bytes: Seq<u8>)
    ensures
        ({
            let frames = scene_frames(code, bytes);
            let lines = scene_line_count(bytes.len()) as int;
            &&& frames.len() == 20 * (lines + 1)
            &&& forall|i: int|
                0 <= i <= lines ==> {
                    let frame = #[trigger] frames.subrange(20 * i, 20 * i + 20);
                    &&& frame::is_sealed(frame)
                    &&& frame == if i < lines {
                        frame::framed(scene_line(bytes, i))
                    } else {
                        scene_activation(code)
                    }
                }
        }),
{
    let frames = scene_frames(code, bytes);
    let lines = scene_line_count(bytes.len()) as int;
    lemma_scene_lines(bytes, lines as nat);
    let activation = seq![0x33u8, 0x05u8, 0x04u8, (code % 256) as u8, (code / 256) as u8];
    frame::law_finish_seals(activation);
    assert forall|i: int| 0 <= i <= lines implies {
        let frame = #[trigger] frames.subrange(20 * i, 20 * i + 20);
        &&& frame::is_sealed(frame)
        &&& frame == if i < lines {
            frame::framed(scene_line(bytes, i))
        } else {
            scene_activation(code)
        }
    } by {
        if i < lines {
            frame::law_finish_seals(scene_line(bytes, i));
            assert(frames.subrange(20 * i, 20 * i + 20) =~= scene_lines(bytes, lines as nat).subrange(
                20 * i,
                20 * i + 20,
            ));
        } else {
            assert(frames.subrange(20 * i, 20 * i + 20) =~= scene_activation(code));
        }
    }
}

/// The receiver can put a scene together again: every line starts with the
/// fragment marker and its number, 255 for the last; the fourth byte is the
/// number of lines; and every byte of the parameter is in its place.
pub proof fn law_scene_reassembles(code: u16, bytes: Seq<u8>)
    requires
        bytes.len() <= MAX_SCENE_BYTES,
    ensures
        ({
            let frames = scene_frames(code, bytes);
            let lines = scene_line_count(bytes.len());
            &&& 1 <= lines <= 255
            &&& frames[3] == lines
            &&& forall|i: int|
                0 <= i < lines ==> {
                    &&& #[trigger] frames[20 * i] == 0xa3
                    &&& frames[20 * i + 1] == if i + 1 == lines {
                        255
                    } else {
                        i
                    }
                }
            &&& forall|k: int|
                0 <= k < bytes.len() ==> frames[20 * ((k + 3) / 17) + 2 + (k + 3) % 17]
                    == #[trigger] bytes[k]
        }),
{
    let frames = scene_frames(code, bytes);
    let lines = scene_line_count(bytes.len());
    let stream = scene_stream(bytes);
    lemma_scene_lines(bytes, lines);
    assert forall|i: int, j: int|
        0 <= i < lines && 0 <= j < 20 implies frames[20 * i + j] == #[trigger] frame::framed(
        scene_line(bytes, i),
    )[j] by {
        assert(scene_lines(bytes, lines).subrange(20 * i, 20 * i + 20)[j] == frames[20 * i + j]);
    }
    assert(frames[3] == lines) by {
        assert(frames[20 * 0int + 3] == frame::framed(scene_line(bytes, 0))[3]);
    }
    assert forall|i: int| 0 <= i < lines implies {
        &&& #[trigger] frames[20 * i] == 0xa3
        &&& frames[20 * i + 1] == if i + 1 == lines {
            255
        } else {
            i
        }
    } by {
        assert(frames[20 * i + 0] == frame::framed(scene_line(bytes, i))[0]);
        assert(frames[20 * i + 1] == frame::framed(scene_line(bytes, i))[1]);
    }
    assert forall|k: int| 0 <= k < bytes.len() implies frames[20 * ((k + 3) / 17) + 2 + (k + 3)
        % 17] == #[trigger] bytes[k] by {
        let i = (k + 3) / 17;
        let j = (k + 3) % 17;
        assert(0 <= i < lines);
        assert(scene_line(bytes, i)[2 + j] == stream[17 * i + j]);
        assert(frames[20 * i + (2 + j)] == frame::framed(scene_line(bytes, i))[2 + j]);
    }
}

/// The first byte of the command is the fragment marker, however long the
/// parameter is.
pub proof fn lemma_scene_starts_with_a_fragment(code: u16, bytes: Seq<u8>)
    ensures
        scene_frames(code, bytes).len() >= 20,
        scene_frames(code, bytes)[0] == 0xa3,
{
    lemma_lines_start(bytes, scene_line_count(bytes.len()));
}

proof fn lemma_lines_start(bytes: Seq<u8>, n: nat)
    requires
        n >= 1,
    ensures
        scene_lines(bytes, n).len() >= 20,
        scene_lines(bytes, n)[0] == 0xa3,
    decreases n,
{
    if n == 1 {
        assert(scene_lines(bytes, 0) =~= Seq::empty());
    } else {
        lemma_lines_start(bytes, (n - 1) as nat);
    }
}

/// What each byte of the command for a scene is, where `p` is what the parameter
/// stands for in Base64. Every byte of `p` is sent, in its place among the lines;
/// a parameter that is not Base64 is the error.
pub proof fn law_scene_bytes(scene: SetSceneCode)
    ensures
        match base64::base64_bytes(vstd::utf8::encode_utf8(scene.param())) {
            Err(error) => scene.encoding() == Err::<Seq<u8>, PacketError>(
                PacketError::Base64 { error },
            ),
            Ok(p) => p.len() <= 4332 ==> (scene.encoding() matches Ok(frames) && {
                let lines = ((p.len() + 19) / 17) as int;
                &&& frames.len() == 20 * (lines + 1)
                &&& frames[2] == 1
                &&& frames[3] == lines
                &&& frames[4] == 2
                &&& forall|i: int|
                    0 <= i < lines ==> {
                        &&& #[trigger] frames[20 * i] == 0xa3
                        &&& frames[20 * i + 1] == if i + 1 == lines {
                            255
                        } else {
                            i
                        }
                        &&& frames[20 * i + 19] == frame::xor_all(
                            frames.subrange(20 * i, 20 * i + 19),
                        )
                    }
                &&& forall|k: int|
                    0 <= k < p.len() ==> frames[20 * ((k + 3) / 17) + 2 + (k + 3) % 17]
                        == #[trigger] p[k]
                &&& forall|q: int|
                    20 * (lines - 1) + 2 + (p.len() + 3 - 17 * (lines - 1)) <= q < 20 * lines - 1
                        ==> #[trigger] frames[q] == 0
                &&& frames.subrange(20 * lines, 20 * lines + 20) == frame::framed(
                    seq![
                        0x33u8,
                        0x05u8,
                        0x04u8,
                        (scene.code() % 256) as u8,
                        (scene.code() / 256) as u8,
                    ],
                )
            }),
        },
{
    match base64::base64_bytes(vstd::utf8::encode_utf8(scene.param())) {
        Err(_) => {},
        Ok(p) => if p.len() <= 4332 {
            let frames = scene.encoding()->Ok_0;
            let lines = scene_line_count(p.len()) as int;
            law_scene_reassembles(scene.code(), p);
            law_scene_frames_are_sealed(scene.code(), p);
            let first = frames.subrange(20 * 0int, 20 * 0int + 20);
            assert(first == frame::framed(scene_line(p, 0)));
            assert(first[2] == frames[2] && first[4] == frames[4]);
            assert(scene_line(p, 0)[2] == scene_stream(p)[0]);
            assert(scene_line(p, 0)[4] == scene_stream(p)[2]);
            assert forall|i: int| 0 <= i < lines implies frames[20 * i + 19] == frame::xor_all(
                #[trigger] frames.subrange(20 * i, 20 * i + 19),
            ) by {
                let line = frames.subrange(20 * i, 20 * i + 20);
                assert(frame::is_sealed(line));
                assert(line.take(19) =~= frames.subrange(20 * i, 20 * i + 19));
                assert(line[19] == frames[20 * i + 19]);
            }
            let last = frames.subrange(20 * (lines - 1), 20 * (lines - 1) + 20);
            assert(last == frame::framed(scene_line(p, lines - 1)));
            assert(scene_line(p, lines - 1).len() == 2 + p.len() + 3 - 17 * (lines - 1));
            assert forall|q: int|
                20 * (lines - 1) + 2 + (p.len() + 3 - 17 * (lines - 1)) <= q < 20 * lines
                    - 1 implies #[trigger] frames[q] == 0 by {
                assert(last[q - 20 * (lines - 1)] == frames[q]);
            }
        },
    }
}

/// Which scenes can be encoded: those whose parameter is not too long to be
/// decoded, and stands for no more than 4332 bytes, which are 255 lines.
pub proof fn law_encodable_scenes(scene: SetSceneCode)
    ensures
        ({
            let text = vstd::utf8::encode_utf8(scene.param());
            &&& text.len() > usize::MAX / 8 ==> !scene.encodable()
            &&& text.len() <= 5776 ==> scene.encodable()
            &&& 5776 < text.len() <= usize::MAX / 8 ==> (scene.encodable() <==> match base64::base64_bytes(
                text,
            ) {
                Ok(bytes) => bytes.len() <= 4332,
                Err(_) => true,
            })
        }),
{
}

/// No bytes are read as a scene.
pub proof fn law_scenes_are_not_read(data: Seq<u8>)
    ensures
        SetSceneCode::decoding(data) == Err::<GoveeBlePacket, PacketError>(
            PacketError::NoDecoder { packet_type: PacketType::SetSceneCode },
        ),
{
}

} // verus!
