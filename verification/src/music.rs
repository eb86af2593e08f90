//! Music mode of lights, with a palette chosen by the caller.
use crate::error::PacketError;
use crate::frame;
use crate::packet::{GoveeBlePacket, PacketType};
use vstd::prelude::*;

verus! {

/// Music mode with a caller-chosen colour palette. It is a sibling of
/// [`crate::SetSceneCode`]: the palette is sent in fragments, and a last frame
/// sets the mode. Each frame is padded to 19 bytes and has an XOR checksum:
///
/// ```text
/// a3 00 01 02 41 <profile> <ncolors> <first 12 palette bytes>
/// a3 ff <remaining palette bytes>
/// 33 05 13 <profile> <sensitivity>
/// ```
///
/// The palette is RGB triples; with at most 7 colours it always fits in
/// exactly two fragments. `profile` is the style id of the SKU.
#[derive(Clone, Debug, PartialEq, Eq)]
pub struct SetMusicPalette {
    pub profile: u8,
    pub colors: Vec<[u8; 3]>,
    pub sensitivity: u8,
}

/// The components of the colours in a row.
pub open spec fn flattened(colors: Seq<[u8; 3]>) -> Seq<u8> {
    Seq::new(3 * colors.len(), |i: int| colors[i / 3]@[i % 3])
}

/// How many palette bytes the first fragment carries.
pub open spec fn head_len(palette: Seq<u8>) -> int {
    if palette.len() < 12 {
        palette.len() as int
    } else {
        12
    }
}

impl Default for SetMusicPalette {
    fn default() -> (palette: Self)
        ensures
            palette.profile == 0,
            palette.colors@ == Seq::<[u8; 3]>::empty(),
            palette.sensitivity == 0,
    {
        SetMusicPalette { profile: 0, colors: Vec::new(), sensitivity: 0 }
    }
}

impl SetMusicPalette {
    /// The first fragment: how many colours there are, and the first of them.
    pub open spec fn first_fragment(self) -> Seq<u8> {
        let palette = flattened(self.colors@);
        seq![
            0xa3u8,
            0x00u8,
            0x01u8,
            0x02u8,
            0x41u8,
            self.profile,
            self.colors@.len() as u8,
        ] + palette.take(head_len(palette))
    }

    /// The last fragment: what is left of the palette.
    pub open spec fn last_fragment(self) -> Seq<u8> {
        let palette = flattened(self.colors@);
        seq![0xa3u8, 0xffu8] + palette.skip(head_len(palette))
    }

    /// What sets music mode.
    pub open spec fn activation(self) -> Seq<u8> {
        seq![0x33u8, 0x05u8, 0x13u8, self.profile, self.sensitivity]
    }

    /// The command, or which part of the palette is out of range.
    pub open spec fn encoding(self) -> Result<Seq<u8>, PacketError> {
        if !(1 <= self.colors@.len() <= 7) {
            Err(PacketError::PaletteSize { colors: self.colors@.len() as usize })
        } else if self.sensitivity > 100 {
            Err(PacketError::Sensitivity { sensitivity: self.sensitivity })
        } else {
            Ok(
                frame::framed(self.first_fragment()) + frame::framed(self.last_fragment())
                    + frame::framed(self.activation()),
            )
        }
    }

    /// The command for this palette: two fragments, then the mode.
    pub fn encode(&self) -> (frames: Result<Vec<u8>, PacketError>)
        ensures
            frame::bytes_of(frames) == self.encoding(),
    {
        if self.colors.len() < 1 || self.colors.len() > 7 {
            return Err(PacketError::PaletteSize { colors: self.colors.len() });
        }
        if self.sensitivity > 100 {
            return Err(PacketError::Sensitivity { sensitivity: self.sensitivity });
        }
        let flat = flatten(&self.colors);
        let split = if flat.len() < 12 {
            flat.len()
        } else {
            12
        };
        let (head, rest) = flat.as_slice().split_at(split);

        let mut first: Vec<u8> = vec![
            0xa3u8,
            0x00u8,
            0x01u8,
            0x02u8,
            0x41u8,
            self.profile,
            self.colors.len() as u8,
        ];
        first.extend_from_slice(head);
        assert(first@ =~= self.first_fragment());

        let mut second: Vec<u8> = vec![0xa3u8, 0xffu8];
        second.extend_from_slice(rest);
        assert(second@ =~= self.last_fragment());

        let third: Vec<u8> = vec![0x33u8, 0x05u8, 0x13u8, self.profile, self.sensitivity];
        assert(third@ =~= self.activation());

        let mut frames = frame::finish(first);
        frames.append(&mut frame::finish(second));
        frames.append(&mut frame::finish(third));
        Ok(frames)
    }

    pub open spec fn decoding(_data: Seq<u8>) -> Result<GoveeBlePacket, PacketError> {
        Err(PacketError::NoDecoder { packet_type: PacketType::SetMusicPalette })
    }

    /// Palettes are not decoded.
    pub fn decode(_data: &[u8]) -> (packet: Result<GoveeBlePacket, PacketError>)
        ensures
            packet == Self::decoding(_data@),
    {
        Err(PacketError::NoDecoder { packet_type: PacketType::SetMusicPalette })
    }
}

fn flatten(colors: &Vec<[u8; 3]>) -> (flat: Vec<u8>)
    ensures
        flat@ == flattened(colors@),
{
    let mut flat: Vec<u8> = Vec::new();
    let mut i: usize = 0;
    while i < colors.len()
        invariant
            i <= colors@.len(),
            flat@.len() == 3 * i,
            forall|p: int| 0 <= p < flat@.len() ==> flat@[p] == colors@[p / 3]@[p % 3],
        decreases colors@.len() - i,
    {
        let color = colors[i];
        flat.push(color[0]);
        flat.push(color[1]);
        flat.push(color[2]);
        i = i + 1;
    }
    assert(flat@ =~= flattened(colors@));
    flat
}

/// A palette that is in range is always three whole frames, each with a right
/// checksum: neither fragment is ever cut off.
pub proof fn law_palette_is_three_sealed_frames(palette: SetMusicPalette)
    requires
        1 <= palette.colors@.len() <= 7,
        palette.sensitivity <= 100,
    ensures
        palette.encoding() matches Ok(frames) && {
            &&& frames.len() == 3 * frame::FRAME_LEN
            &&& frame::is_sealed(frames.subrange(0, 20))
            &&& frame::is_sealed(frames.subrange(20, 40))
            &&& frame::is_sealed(frames.subrange(40, 60))
        },
{
    let frames = palette.encoding()->Ok_0;
    frame::law_finish_seals(palette.first_fragment());
    frame::law_finish_seals(palette.last_fragment());
    frame::law_finish_seals(palette.activation());
    assert(frames.subrange(0, 20) =~= frame::framed(palette.first_fragment()));
    assert(frames.subrange(20, 40) =~= frame::framed(palette.last_fragment()));
    assert(frames.subrange(40, 60) =~= frame::framed(palette.activation()));
}

/// Nothing of a palette is lost: the seventh byte of the command counts the
/// colours, and each component of each colour is in its place, the first
/// twelve in the first frame and the others in the second.
pub proof fn law_palette_reassembles(palette: SetMusicPalette)
    requires
        1 <= palette.colors@.len() <= 7,
        palette.sensitivity <= 100,
    ensures
        palette.encoding() matches Ok(frames) && {
            &&& frames[5] == palette.profile
            &&& frames[6] == palette.colors@.len()
            &&& frames[43] == palette.profile
            &&& frames[44] == palette.sensitivity
            &&& forall|i: int, j: int|
                0 <= i < palette.colors@.len() && 0 <= j < 3 ==> (#[trigger] palette.colors@[i]@[j])
                    == frames[if 3 * i + j < 12 {
                    7 + 3 * i + j
                } else {
                    22 + (3 * i + j - 12)
                }]
        },
{
    let frames = palette.encoding()->Ok_0;
    let flat = flattened(palette.colors@);
    assert forall|i: int, j: int|
        0 <= i < palette.colors@.len() && 0 <= j < 3 implies (#[trigger] palette.colors@[i]@[j])
        == frames[if 3 * i + j < 12 {
        7 + 3 * i + j
    } else {
        22 + (3 * i + j - 12)
    }] by {
        let p = 3 * i + j;
        assert(p / 3 == i && p % 3 == j);
        assert(flat[p] == palette.colors@[i]@[j]);
        if p < 12 {
            assert(palette.first_fragment()[7 + p] == flat[p]);
        } else {
            assert(palette.last_fragment()[2 + (p - 12)] == flat[p]);
        }
    }
}

/// What each byte of the command for a palette is, and which palettes have none.
/// The first frame announces two fragments, and two follow in all: both start
/// with `a3`, the last of them with `a3 ff`. The third frame sets the mode.
pub proof fn law_palette_bytes(palette: SetMusicPalette)
    ensures
        ({
            let n = palette.colors@.len() as int;
            &&& n < 1 || n > 7 ==> (palette.encoding() matches Err(
                PacketError::PaletteSize { colors },
            ) && colors == n)
            &&& 1 <= n <= 7 && palette.sensitivity > 100 ==> palette.encoding() == Err::<
                Seq<u8>,
                PacketError,
            >(PacketError::Sensitivity { sensitivity: palette.sensitivity })
            &&& 1 <= n <= 7 && palette.sensitivity <= 100 ==> (palette.encoding() matches Ok(frames)
                && {
                &&& frames.len() == 60
                &&& frames.subrange(0, 5) == seq![0xa3u8, 0x00u8, 0x01u8, 0x02u8, 0x41u8]
                &&& frames[5] == palette.profile
                &&& frames[6] == n
                &&& forall|i: int, j: int|
                    0 <= i < n && 0 <= j < 3 ==> (#[trigger] palette.colors@[i]@[j]) == frames[if 3
                        * i + j < 12 {
                        7 + 3 * i + j
                    } else {
                        10 + 3 * i + j
                    }]
                &&& forall|p: int| 7 + 3 * n <= p < 19 ==> #[trigger] frames[p] == 0
                &&& frames[19] == frame::xor_all(frames.subrange(0, 19))
                &&& frames.subrange(20, 22) == seq![0xa3u8, 0xffu8]
                &&& forall|p: int| 22 <= p < 39 && 10 + 3 * n <= p ==> #[trigger] frames[p] == 0
                &&& frames[39] == frame::xor_all(frames.subrange(20, 39))
                &&& frames.subrange(40, 43) == seq![0x33u8, 0x05u8, 0x13u8]
                &&& frames[43] == palette.profile
                &&& frames[44] == palette.sensitivity
                &&& forall|p: int| 45 <= p < 59 ==> #[trigger] frames[p] == 0
                &&& frames[59] == frame::xor_all(frames.subrange(40, 59))
                &&& frames[3] == (if frames[0] == 0xa3 {
                    1int
                } else {
                    0
                }) + (if frames[20] == 0xa3 {
                    1int
                } else {
                    0
                }) + (if frames[40] == 0xa3 {
                    1int
                } else {
                    0
                })
            })
        }),
{
    let n = palette.colors@.len() as int;
    if n < 1 || n > 7 {
        assert(palette.colors@.len() == palette.colors.len());
    } else if palette.sensitivity <= 100 {
        let frames = palette.encoding()->Ok_0;
        law_palette_is_three_sealed_frames(palette);
        law_palette_reassembles(palette);
        assert(frames.subrange(0, 20).take(19) =~= frames.subrange(0, 19));
        assert(frames.subrange(20, 40).take(19) =~= frames.subrange(20, 39));
        assert(frames.subrange(40, 60).take(19) =~= frames.subrange(40, 59));
        assert(frames.subrange(0, 20)[19] == frames[19]);
        assert(frames.subrange(20, 40)[19] == frames[39]);
        assert(frames.subrange(40, 60)[19] == frames[59]);
        assert(frames.subrange(0, 5) =~= seq![0xa3u8, 0x00u8, 0x01u8, 0x02u8, 0x41u8]);
        assert(frames.subrange(20, 22) =~= seq![0xa3u8, 0xffu8]);
        assert(frames.subrange(40, 43) =~= seq![0x33u8, 0x05u8, 0x13u8]);
        assert(frames[0] == frames.subrange(0, 5)[0] && frames[3] == frames.subrange(0, 5)[3]);
        assert(frames[20] == frames.subrange(20, 22)[0]);
        assert(frames[40] == frames.subrange(40, 43)[0]);
    }
}

/// No bytes are read as a palette.
pub proof fn law_palettes_are_not_read(data: Seq<u8>)
    ensures
        SetMusicPalette::decoding(data) == Err::<GoveeBlePacket, PacketError>(
            PacketError::NoDecoder { packet_type: PacketType::SetMusicPalette },
        ),
{
}

} // verus!
