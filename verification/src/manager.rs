//! Codecs, and the manager that picks them by the SKU of a device.
use crate::base64;
use crate::error::PacketError;
use crate::frame;
use crate::humidifier;
use crate::humidifier::{
    HumidifierAutoMode, NotifyHumidifierMode, NotifyHumidifierNightlightParams, SetHumidifierMode,
    SetHumidifierNightlightParams,
};
use crate::layout;
use crate::music::SetMusicPalette;
use crate::packet;
use crate::packet::{AnyPacket, GoveeBlePacket, HexBytes, PacketData, PacketType};
use crate::power;
use crate::power::SetDevicePower;
use crate::rice_cooker;
use crate::rice_cooker::{
    NotifyRiceCookerActiveProgram, NotifyRiceCookerProgramParams, NotifyRiceCookerProgramPhase,
};
use crate::scene;
use crate::scene::SetSceneCode;
use crate::text;
use std::collections::HashMap;
use std::marker::PhantomData;
use vstd::hash_map::StringHashMap;
use vstd::prelude::*;

verus! {

/// An encoder and a decoder, whatever the type of their packets.
trait Codec: Send + Sync {
    spec fn encode_requires(&self, packet: AnyPacket<'_>) -> bool;

    spec fn encode_ensures(
        &self,
        packet: AnyPacket<'_>,
        bytes: Result<Vec<u8>, PacketError>,
    ) -> bool;

    spec fn decode_requires(&self, data: &[u8]) -> bool;

    spec fn decode_ensures(&self, data: &[u8], packet: Result<GoveeBlePacket, PacketError>) -> bool;

    fn encode(&self, packet: AnyPacket<'_>) -> (bytes: Result<Vec<u8>, PacketError>)
        requires
            self.encode_requires(packet),
        ensures
            self.encode_ensures(packet, bytes),
    ;

    fn decode(&self, data: &[u8]) -> (packet: Result<GoveeBlePacket, PacketError>)
        requires
            self.decode_requires(data),
        ensures
            self.decode_ensures(data, packet),
    ;
}

/// A codec for packets of type `T`, made of two functions.
struct TypedCodec<T, E, D> {
    encode: E,
    decode: D,
    packet_type: PhantomData<T>,
}

impl<
    T: PacketData,
    E: Fn(&T) -> Result<Vec<u8>, PacketError> + Send + Sync,
    D: Fn(&[u8]) -> Result<GoveeBlePacket, PacketError> + Send + Sync,
> Codec for TypedCodec<T, E, D> {
    spec fn encode_requires(&self, packet: AnyPacket<'_>) -> bool {
        forall|value: T| packet == #[trigger] value.erased() ==> call_requires(
            self.encode,
            (&value,),
        )
    }

    spec fn encode_ensures(
        &self,
        packet: AnyPacket<'_>,
        bytes: Result<Vec<u8>, PacketError>,
    ) -> bool {
        &&& forall|value: T|
            packet == #[trigger] value.erased() ==> call_ensures(self.encode, (&value,), bytes)
        &&& packet.packet_type() != T::packet_type_spec() ==> bytes == Err::<Vec<u8>, PacketError>(
            PacketError::WrongType { packet_type: T::packet_type_spec() },
        )
    }

    spec fn decode_requires(&self, data: &[u8]) -> bool {
        call_requires(self.decode, (data,))
    }

    spec fn decode_ensures(
        &self,
        data: &[u8],
        packet: Result<GoveeBlePacket, PacketError>,
    ) -> bool {
        call_ensures(self.decode, (data,), packet)
    }

    fn encode(&self, packet: AnyPacket<'_>) -> (bytes: Result<Vec<u8>, PacketError>) {
        match T::downcast_ref(packet) {
            Some(value) => {
                let bytes = (self.encode)(value);
                proof {
                    T::lemma_erased(*value, *value);
                    assert forall|other: T| packet == #[trigger] other.erased() implies call_ensures(
                        self.encode,
                        (&other,),
                        bytes,
                    ) by {
                        T::lemma_erased(*value, other);
                    }
                }
                bytes
            },
            None => {
                proof {
                    assert forall|other: T| packet != #[trigger] other.erased() by {
                        T::lemma_erased(other, other);
                    }
                }
                Err(PacketError::WrongType { packet_type: T::packet_type() })
            },
        }
    }

    fn decode(&self, data: &[u8]) -> (packet: Result<GoveeBlePacket, PacketError>) {
        (self.decode)(data)
    }
}

/// How packets of one type are encoded and decoded, and the SKUs of the devices
/// that are known to understand them.
pub struct PacketCodec {
    codec: Box<dyn Codec>,
    supported_skus: &'static [&'static str],
    packet_type: PacketType,
}

impl PacketCodec {
    /// The SKUs that understand these packets.
    pub closed spec fn skus(self) -> Seq<&'static str> {
        self.supported_skus@
    }

    /// Whether a SKU understands these packets.
    pub open spec fn supports(self, sku: Seq<char>) -> bool {
        exists|i: int| 0 <= i < self.skus().len() && (#[trigger] self.skus()[i])@ == sku
    }

    /// The type of these packets.
    pub closed spec fn packet_type(self) -> PacketType {
        self.packet_type
    }

    /// Whether the encoder can be handed `packet`.
    pub closed spec fn encode_requires(self, packet: AnyPacket<'_>) -> bool {
        self.codec.encode_requires(packet)
    }

    /// Whether the encoder can return `bytes` for `packet`.
    pub closed spec fn encode_ensures(
        self,
        packet: AnyPacket<'_>,
        bytes: Result<Vec<u8>, PacketError>,
    ) -> bool {
        self.codec.encode_ensures(packet, bytes)
    }

    /// Whether the decoder can be handed `data`.
    pub closed spec fn decode_requires(self, data: &[u8]) -> bool {
        self.codec.decode_requires(data)
    }

    /// Whether the decoder can return `packet` for `data`.
    pub closed spec fn decode_ensures(
        self,
        data: &[u8],
        packet: Result<GoveeBlePacket, PacketError>,
    ) -> bool {
        self.codec.decode_ensures(data, packet)
    }

    /// A codec for packets of type `T` that `supported_skus` understand, with
    /// an encoder and a decoder. A packet of another type is an error.
    pub fn new<T: PacketData>(
        supported_skus: &'static [&'static str],
        encode: impl Fn(&T) -> Result<Vec<u8>, PacketError> + 'static + Sync + Send,
        decode: impl Fn(&[u8]) -> Result<GoveeBlePacket, PacketError> + 'static + Sync + Send,
    ) -> (codec: Self)
        ensures
            codec.skus() == supported_skus@,
            codec.packet_type() == T::packet_type_spec(),
            forall|value: T| #[trigger]
                codec.encode_requires(value.erased()) == call_requires(encode, (&value,)),
            forall|value: T, bytes: Result<Vec<u8>, PacketError>| #[trigger]
                codec.encode_ensures(value.erased(), bytes) == call_ensures(
                    encode,
                    (&value,),
                    bytes,
                ),
            forall|packet: AnyPacket<'_>|
                packet.packet_type() != T::packet_type_spec() ==> #[trigger] codec.encode_requires(
                    packet,
                ),
            forall|packet: AnyPacket<'_>, bytes: Result<Vec<u8>, PacketError>|
                packet.packet_type() != T::packet_type_spec() && #[trigger] codec.encode_ensures(
                    packet,
                    bytes,
                ) ==> bytes == Err::<Vec<u8>, PacketError>(
                    PacketError::WrongType { packet_type: T::packet_type_spec() },
                ),
            forall|data: &[u8]| #[trigger]
                codec.decode_requires(data) == call_requires(decode, (data,)),
            forall|data: &[u8], packet: Result<GoveeBlePacket, PacketError>| #[trigger]
                codec.decode_ensures(data, packet) == call_ensures(decode, (data,), packet),
    {
        let typed: TypedCodec<T, _, _> = TypedCodec { encode, decode, packet_type: PhantomData };
        proof {
            assert forall|a: T, b: T| #[trigger] a.erased() == #[trigger] b.erased() implies a
                == b by {
                T::lemma_erased(a, b);
            }
            assert forall|a: T| (#[trigger] a.erased()).packet_type() == T::packet_type_spec() by {
                T::lemma_erased(a, a);
            }
        }
        PacketCodec { codec: Box::new(typed), supported_skus, packet_type: T::packet_type() }
    }

    /// Runs the encoder.
    pub fn encode(&self, packet: AnyPacket<'_>) -> (bytes: Result<Vec<u8>, PacketError>)
        requires
            self.encode_requires(packet),
        ensures
            self.encode_ensures(packet, bytes),
    {
        self.codec.encode(packet)
    }

    /// Runs the decoder.
    pub fn decode(&self, data: &[u8]) -> (packet: Result<GoveeBlePacket, PacketError>)
        requires
            self.decode_requires(data),
        ensures
            self.decode_ensures(data, packet),
    {
        self.codec.decode(data)
    }

    /// Whether a SKU understands these packets.
    pub fn supports_sku(&self, sku: &str) -> (supported: bool)
        ensures
            supported == self.supports(sku@),
            supported <==> exists|i: int|
                0 <= i < self.skus().len() && (#[trigger] self.skus()[i])@ == sku@,
    {
        let mut i: usize = 0;
        while i < self.supported_skus.len()
            invariant
                i <= self.skus().len(),
                forall|j: int| 0 <= j < i ==> (#[trigger] self.skus()[j])@ != sku@,
            decreases self.skus().len() - i,
        {
            if text::same_text(self.supported_skus[i], sku) {
                assert(self.skus()[i as int]@ == sku@);
                return true;
            }
            i = i + 1;
        }
        false
    }
}

/// Which codec of a list to use for a SKU: for each type of packets, the place
/// of the last codec that supports the SKU.
pub open spec fn codec_map(codecs: Seq<PacketCodec>, sku: Seq<char>) -> Map<u8, usize>
    decreases codecs.len(),
{
    if codecs.len() == 0 {
        Map::empty()
    } else {
        let before = codec_map(codecs.drop_last(), sku);
        if codecs.last().supports(sku) {
            before.insert(codecs.last().packet_type().key_spec(), (codecs.len() - 1) as usize)
        } else {
            before
        }
    }
}

/// The places that [`codec_map`] gives are those of codecs that support the SKU
/// and have the type that they are listed under, and no such type is missing.
proof fn lemma_codec_map(codecs: Seq<PacketCodec>, sku: Seq<char>)
    requires
        codecs.len() <= usize::MAX,
    ensures
        forall|key: u8| #[trigger]
            codec_map(codecs, sku).contains_key(key) ==> {
                let i = codec_map(codecs, sku)[key] as int;
                &&& 0 <= i < codecs.len()
                &&& codecs[i].supports(sku)
                &&& codecs[i].packet_type().key_spec() == key
            },
        forall|i: int|
            0 <= i < codecs.len() && (#[trigger] codecs[i]).supports(sku) ==> codec_map(
                codecs,
                sku,
            ).contains_key(codecs[i].packet_type().key_spec()),
    decreases codecs.len(),
{
    if codecs.len() > 0 {
        let front = codecs.drop_last();
        lemma_codec_map(front, sku);
        assert forall|key: u8| #[trigger] codec_map(codecs, sku).contains_key(key) implies {
            let i = codec_map(codecs, sku)[key] as int;
            &&& 0 <= i < codecs.len()
            &&& codecs[i].supports(sku)
            &&& codecs[i].packet_type().key_spec() == key
        } by {
            if codec_map(front, sku).contains_key(key) {
                assert(front[codec_map(front, sku)[key] as int]
                    == codecs[codec_map(front, sku)[key] as int]);
            }
        }
        assert forall|i: int|
            0 <= i < codecs.len() && (#[trigger] codecs[i]).supports(sku) implies codec_map(
            codecs,
            sku,
        ).contains_key(codecs[i].packet_type().key_spec()) by {
            if i < codecs.len() - 1 {
                assert(front[i] == codecs[i]);
            }
        }
    }
}

/// Picks the codecs of a SKU.
fn select_codecs(codecs: &Vec<PacketCodec>, sku: &str) -> (map: HashMap<u8, usize>)
    ensures
        map@ == codec_map(codecs@, sku@),
{
    broadcast use vstd::std_specs::hash::group_hash_axioms;

    let mut map: HashMap<u8, usize> = HashMap::new();
    let mut i: usize = 0;
    assert(codecs@.take(0) =~= Seq::<PacketCodec>::empty());
    while i < codecs.len()
        invariant
            i <= codecs@.len(),
            map@ == codec_map(codecs@.take(i as int), sku@),
        decreases codecs@.len() - i,
    {
        assert(codecs@.take(i + 1).drop_last() =~= codecs@.take(i as int));
        if codecs[i].supports_sku(sku) {
            map.insert(codecs[i].packet_type.key(), i);
        }
        i = i + 1;
    }
    assert(codecs@.take(i as int) =~= codecs@);
    map
}

/// The SKU whose devices understand packets of a type. Lights of any SKU go by
/// one name.
pub open spec fn sku_of(packet_type: PacketType) -> Seq<char> {
    match packet_type {
        PacketType::SetHumidifierMode => "H7160"@,
        PacketType::NotifyHumidifierMode => "H7160"@,
        PacketType::HumidifierAutoMode => "H7160"@,
        PacketType::NotifyHumidifierNightlightParams => "H7160"@,
        PacketType::SetHumidifierNightlightParams => "H7160"@,
        PacketType::NotifyRiceCookerActiveProgram => "H7180"@,
        PacketType::NotifyRiceCookerProgramPhase => "H7180"@,
        PacketType::NotifyRiceCookerProgramParams => "H7180"@,
        PacketType::SetSceneCode => "Generic:Light"@,
        PacketType::SetMusicPalette => "Generic:Light"@,
        PacketType::SetDevicePower => "Generic:Light"@,
    }
}

/// Whether the devices of a SKU understand packets of a type.
pub open spec fn registered(sku: Seq<char>, packet_type: PacketType) -> bool {
    sku == sku_of(packet_type)
}

/// The types of packets that the devices of a SKU understand.
pub open spec fn types_for_sku(sku: Seq<char>) -> Set<PacketType> {
    if sku == "H7160"@ {
        set![
            PacketType::SetHumidifierMode,
            PacketType::NotifyHumidifierMode,
            PacketType::HumidifierAutoMode,
            PacketType::NotifyHumidifierNightlightParams,
            PacketType::SetHumidifierNightlightParams,
        ]
    } else if sku == "H7180"@ {
        set![
            PacketType::NotifyRiceCookerActiveProgram,
            PacketType::NotifyRiceCookerProgramPhase,
            PacketType::NotifyRiceCookerProgramParams,
        ]
    } else if sku == "Generic:Light"@ {
        set![
            PacketType::SetSceneCode,
            PacketType::SetMusicPalette,
            PacketType::SetDevicePower,
        ]
    } else {
        Set::empty()
    }
}

/// The numbers that the types of packets in a set have.
pub open spec fn keys_of(types: Set<PacketType>) -> Set<u8> {
    Set::new(
        |key: u8|
            exists|packet_type: PacketType| #[trigger]
                types.contains(packet_type) && packet_type.key_spec() == key,
    )
}

/// Whether `map` lists the codecs of a SKU: by the number of each type that the
/// SKU understands, and no other, the place of the codec for that type.
pub open spec fn is_map_for_sku(
    map: Map<u8, usize>,
    codecs: Seq<PacketCodec>,
    sku: Seq<char>,
) -> bool {
    &&& map.dom() == keys_of(types_for_sku(sku))
    &&& forall|packet_type: PacketType| #[trigger]
        types_for_sku(sku).contains(packet_type) ==> {
            let place = map[packet_type.key_spec()];
            &&& place < codecs.len()
            &&& is_codec_for(codecs[place as int], packet_type)
        }
}

/// What a SKU's packet is decoded to: what a codec of the SKU finds in it, and
/// where none finds anything, its bytes as they are.
pub open spec fn decodes_to(sku: Seq<char>, data: Seq<u8>, packet: GoveeBlePacket) -> bool {
    &&& forall|packet_type: PacketType|
        registered(sku, packet_type) ==> (#[trigger] packet::decoding(packet_type, data) matches Ok(
            found,
        ) ==> packet == found)
    &&& (forall|packet_type: PacketType|
        registered(sku, packet_type) ==> (#[trigger] packet::decoding(packet_type, data)) is Err)
        ==> (packet matches GoveeBlePacket::Generic(bytes) && bytes@ == data)
}

/// What encoding a packet of any type for a SKU gives: the packet's frames, or
/// that the SKU has no codec for it.
pub open spec fn encodes_to(
    sku: Seq<char>,
    packet: AnyPacket<'_>,
    bytes: Result<Vec<u8>, PacketError>,
) -> bool {
    if registered(sku, packet.packet_type()) {
        frame::bytes_of(bytes) == packet.encoding()
    } else {
        bytes matches Err(PacketError::NoCodec { sku: named, packet_type }) && named@ == sku
            && packet_type == packet.packet_type()
    }
}

/// Whether encoding a packet for a SKU is possible: only a codec that the SKU
/// has can find the packet too large.
pub open spec fn encodable_for(sku: Seq<char>, packet: AnyPacket<'_>) -> bool {
    registered(sku, packet.packet_type()) ==> packet.encodable()
}

/// The types of packets, in the order that their codecs are listed in.
pub open spec fn listed_types() -> Seq<PacketType> {
    seq![
        PacketType::SetHumidifierMode,
        PacketType::NotifyHumidifierMode,
        PacketType::HumidifierAutoMode,
        PacketType::NotifyHumidifierNightlightParams,
        PacketType::SetHumidifierNightlightParams,
        PacketType::NotifyRiceCookerActiveProgram,
        PacketType::NotifyRiceCookerProgramPhase,
        PacketType::NotifyRiceCookerProgramParams,
        PacketType::SetSceneCode,
        PacketType::SetMusicPalette,
        PacketType::SetDevicePower,
    ]
}

/// Whether a codec is the one for packets of a type.
#[verifier::opaque]
pub open spec fn is_codec_for(codec: PacketCodec, packet_type: PacketType) -> bool {
    &&& codec.packet_type() == packet_type
    &&& codec.skus().len() == 1
    &&& codec.skus()[0]@ == sku_of(packet_type)
    &&& forall|packet: AnyPacket<'_>|
        packet.packet_type() == packet_type && packet.encodable()
            ==> #[trigger] codec.encode_requires(packet)
    &&& forall|packet: AnyPacket<'_>, bytes: Result<Vec<u8>, PacketError>|
        packet.packet_type() == packet_type && #[trigger] codec.encode_ensures(packet, bytes)
            ==> frame::bytes_of(bytes) == packet.encoding()
    &&& forall|data: &[u8]| #[trigger] codec.decode_requires(data)
    &&& forall|data: &[u8], found: Result<GoveeBlePacket, PacketError>| #[trigger]
        codec.decode_ensures(data, found) ==> found == packet::decoding(packet_type, data@)
}

/// A codec of packets of type `T` that encodes and decodes them as it should is
/// the one for that type.
proof fn lemma_codec_of<T: PacketData>(codec: PacketCodec)
    requires
        codec.packet_type() == T::packet_type_spec(),
        codec.skus().len() == 1,
        codec.skus()[0]@ == sku_of(T::packet_type_spec()),
        forall|value: T|
            value.erased().encodable() ==> #[trigger] codec.encode_requires(value.erased()),
        forall|value: T, bytes: Result<Vec<u8>, PacketError>| #[trigger]
            codec.encode_ensures(value.erased(), bytes) ==> frame::bytes_of(bytes)
                == value.erased().encoding(),
        forall|data: &[u8]| #[trigger] codec.decode_requires(data),
        forall|data: &[u8], found: Result<GoveeBlePacket, PacketError>| #[trigger]
            codec.decode_ensures(data, found) ==> found == packet::decoding(
                T::packet_type_spec(),
                data@,
            ),
    ensures
        is_codec_for(codec, T::packet_type_spec()),
{
    reveal(is_codec_for);
    assert forall|packet: AnyPacket<'_>|
        packet.packet_type() == T::packet_type_spec()
            && packet.encodable() implies #[trigger] codec.encode_requires(packet) by {
        let value = T::lemma_onto(packet);
        assert(codec.encode_requires(value.erased()));
    }
    assert forall|packet: AnyPacket<'_>, bytes: Result<Vec<u8>, PacketError>|
        packet.packet_type() == T::packet_type_spec() && #[trigger] codec.encode_ensures(
            packet,
            bytes,
        ) implies frame::bytes_of(bytes) == packet.encoding() by {
        let value = T::lemma_onto(packet);
        assert(codec.encode_ensures(value.erased(), bytes));
    }
}

/// Encodes and decodes packets for the SKU of a device.
pub struct PacketManager {
    /// Which codecs to use for the SKUs that were asked for.
    codec_by_sku: StringHashMap<HashMap<u8, usize>>,
    all_codecs: Vec<PacketCodec>,
}

impl PacketManager {
    /// The codecs that the manager has.
    pub closed spec fn codecs(self) -> Seq<PacketCodec> {
        self.all_codecs@
    }

    /// The SKUs whose codecs were picked before.
    pub closed spec fn known_skus(self) -> Set<Seq<char>> {
        self.codec_by_sku@.dom()
    }

    #[verifier::type_invariant]
    spec fn wf(self) -> bool {
        &&& self.all_codecs@.len() == listed_types().len()
        &&& forall|i: int|
            0 <= i < listed_types().len() ==> is_codec_for(
                #[trigger] self.all_codecs@[i],
                listed_types()[i],
            )
        &&& forall|sku: Seq<char>| #[trigger]
            self.codec_by_sku@.contains_key(sku) ==> self.codec_by_sku@[sku]@ == codec_map(
                self.all_codecs@,
                sku,
            )
    }

    /// The codecs to use for a SKU, by the number of their type, as places in
    /// the list of codecs. They are picked once for each SKU, and are the same
    /// whatever was asked for before.
    pub fn map_for_sku(&mut self, sku: &str) -> (codecs: (&HashMap<u8, usize>, &Vec<PacketCodec>))
        ensures
            codecs.1@ == old(self).codecs(),
            codecs.0@ == codec_map(codecs.1@, sku@),
            is_map_for_sku(codecs.0@, codecs.1@, sku@),
            final(self).codecs() == old(self).codecs(),
            final(self).known_skus() == old(self).known_skus().insert(sku@),
    {
        proof {
            use_type_invariant(&*self);
        }
        if !self.codec_by_sku.contains_key(sku) {
            let map = select_codecs(&self.all_codecs, sku);
            let mut cache: StringHashMap<HashMap<u8, usize>> = StringHashMap::new();
            std::mem::swap(&mut cache, &mut self.codec_by_sku);
            cache.insert(sku.to_owned(), map);
            self.codec_by_sku = cache;
        }
        proof {
            use_type_invariant(&*self);
            law_map_lists_the_types_of_a_sku(self.all_codecs@, sku@);
        }
        (self.codec_by_sku.get(sku).unwrap(), &self.all_codecs)
    }

    /// The codec to use for packets of a type that are exchanged with a SKU.
    fn resolve_by_sku(&mut self, sku: &str, packet_type: PacketType) -> (codec: Result<
        &PacketCodec,
        PacketError,
    >)
        ensures
            match codec {
                Ok(codec) => registered(sku@, packet_type) && is_codec_for(*codec, packet_type),
                Err(error) => {
                    &&& !registered(sku@, packet_type)
                    &&& error matches PacketError::NoCodec { sku: named, packet_type: missing }
                        && named@ == sku@ && missing == packet_type
                },
            },
            final(self).codecs() == old(self).codecs(),
            final(self).known_skus() == old(self).known_skus().insert(sku@),
    {
        broadcast use vstd::std_specs::hash::group_hash_axioms;

        reveal(is_codec_for);
        proof {
            use_type_invariant(&*self);
        }
        let (map, codecs) = self.map_for_sku(sku);
        proof {
            lemma_listed_codecs(codecs@, sku@);
        }
        match map.get(&packet_type.key()) {
            Some(place) => Ok(&codecs[*place]),
            None => Err(PacketError::NoCodec { sku: sku.to_owned(), packet_type }),
        }
    }

    /// Decodes a packet of a SKU. The codecs of the SKU are tried in no
    /// particular order; at most one of them understands the packet. One that
    /// none understands stays as it is.
    pub fn decode_for_sku(&mut self, sku: &str, data: &[u8]) -> (packet: GoveeBlePacket)
        ensures
            decodes_to(sku@, data@, packet),
            final(self).codecs() == old(self).codecs(),
            final(self).known_skus() == old(self).known_skus().insert(sku@),
    {
        broadcast use vstd::std_specs::hash::group_hash_axioms;

        reveal(is_codec_for);
        proof {
            use_type_invariant(&*self);
        }
        let (map, codecs) = self.map_for_sku(sku);
        proof {
            lemma_listed_codecs(codecs@, sku@);
        }
        match first_decoded(map, codecs, data) {
            Some(packet) => {
                proof {
                    law_at_most_one_codec_decodes(sku@, data@);
                }
                packet
            },
            None => {
                proof {
                    assert forall|packet_type: PacketType| registered(
                        sku@,
                        packet_type,
                    ) implies (#[trigger] packet::decoding(packet_type, data@)) is Err by {
                        let key = packet_type.key_spec();
                        assert(map@.contains_key(key));
                        assert(map@.values().contains(map@[key]));
                    }
                }
                GoveeBlePacket::Generic(HexBytes::new(vstd::slice::slice_to_vec(data)))
            },
        }
    }

    /// Encodes a packet for a SKU.
    pub fn encode_for_sku<T: PacketData>(&mut self, sku: &str, value: &T) -> (bytes: Result<
        Vec<u8>,
        PacketError,
    >)
        requires
            encodable_for(sku@, value.erased()),
        ensures
            encodes_to(sku@, value.erased(), bytes),
            final(self).codecs() == old(self).codecs(),
            final(self).known_skus() == old(self).known_skus().insert(sku@),
    {
        proof {
            T::lemma_erased(*value, *value);
            reveal(is_codec_for);
        }
        let codec = self.resolve_by_sku(sku, T::packet_type())?;
        codec.encode(value.as_any())
    }

    /// As [`PacketManager::encode_for_sku`], for any packet: `None` where it is
    /// too large to be encoded.
    pub fn checked_encode_for_sku<T: PacketData>(&mut self, sku: &str, value: &T) -> (bytes: Option<
        Result<Vec<u8>, PacketError>,
    >)
        ensures
            match bytes {
                Some(bytes) => encodable_for(sku@, value.erased()) && encodes_to(
                    sku@,
                    value.erased(),
                    bytes,
                ),
                None => !encodable_for(sku@, value.erased()),
            },
            final(self).codecs() == old(self).codecs(),
            final(self).known_skus() == old(self).known_skus().insert(sku@),
    {
        proof {
            T::lemma_erased(*value, *value);
        }
        if let Err(error) = self.resolve_by_sku(sku, T::packet_type()) {
            return Some(Err(error));
        }
        if value.as_any().is_encodable() {
            Some(self.encode_for_sku(sku, value))
        } else {
            None
        }
    }

    /// A manager that knows every packet type there is.
    pub fn new() -> (manager: Self)
        ensures
            manager.codecs().len() == listed_types().len(),
            forall|i: int|
                0 <= i < listed_types().len() ==> is_codec_for(
                    #[trigger] manager.codecs()[i],
                    listed_types()[i],
                ),
            manager.known_skus() == Set::<Seq<char>>::empty(),
    {
        let mut all_codecs = humidifier_codecs();
        all_codecs.append(&mut rice_cooker_codecs());
        all_codecs.append(&mut light_codecs());
        PacketManager { codec_by_sku: StringHashMap::new(), all_codecs }
    }
}

/// Tries the codecs that a map lists, in no particular order.
fn first_decoded(
    map: &HashMap<u8, usize>,
    codecs: &Vec<PacketCodec>,
    data: &[u8],
) -> (packet: Option<GoveeBlePacket>)
    requires
        codecs@.len() == listed_types().len(),
        forall|i: int|
            0 <= i < listed_types().len() ==> is_codec_for(#[trigger] codecs@[i], listed_types()[i]),
        forall|place: usize| #[trigger]
            map@.values().contains(place) ==> place < listed_types().len(),
    ensures
        match packet {
            Some(packet) => exists|place: usize| #[trigger]
                map@.values().contains(place) && packet::decoding(
                    listed_types()[place as int],
                    data@,
                ) == Ok::<GoveeBlePacket, PacketError>(packet),
            None => forall|place: usize| #[trigger]
                map@.values().contains(place) ==> packet::decoding(
                    listed_types()[place as int],
                    data@,
                ) is Err,
        },
{
    broadcast use vstd::std_specs::hash::group_hash_axioms;

    for place in places: map.values()
        invariant
            codecs@.len() == listed_types().len(),
            forall|i: int|
                0 <= i < listed_types().len() ==> is_codec_for(
                    #[trigger] codecs@[i],
                    listed_types()[i],
                ),
            forall|place: usize| #[trigger]
                map@.values().contains(place) ==> place < listed_types().len(),
            places.seq().unref().to_set() == map@.values(),
            forall|j: int|
                0 <= j < places.index() ==> packet::decoding(
                    listed_types()[*(#[trigger] places.seq()[j]) as int],
                    data@,
                ) is Err,
    {
        proof {
            reveal(is_codec_for);
            assert(places.seq().unref()[places.index()] == *place);
            assert(map@.values().contains(*place));
        }
        if let Ok(packet) = codecs[*place].decode(data) {
            return Some(packet);
        }
    }
    None
}

fn humidifier_codecs() -> (codecs: Vec<PacketCodec>)
    ensures
        codecs@.len() == 5,
        forall|i: int|
            0 <= i < 5 ==> is_codec_for(#[trigger] codecs@[i], listed_types()[i]),
{
    let set_mode = PacketCodec::new(
        &["H7160"],
        SetHumidifierMode::encode,
        SetHumidifierMode::decode,
    );
    let mode = PacketCodec::new(
        &["H7160"],
        NotifyHumidifierMode::encode,
        NotifyHumidifierMode::decode,
    );
    let auto_mode = PacketCodec::new(
        &["H7160"],
        HumidifierAutoMode::encode,
        HumidifierAutoMode::decode,
    );
    let nightlight = PacketCodec::new(
        &["H7160"],
        NotifyHumidifierNightlightParams::encode,
        NotifyHumidifierNightlightParams::decode,
    );
    let set_nightlight = PacketCodec::new(
        &["H7160"],
        SetHumidifierNightlightParams::encode,
        SetHumidifierNightlightParams::decode,
    );
    proof {
        lemma_codec_of::<SetHumidifierMode>(set_mode);
        lemma_codec_of::<NotifyHumidifierMode>(mode);
        lemma_codec_of::<HumidifierAutoMode>(auto_mode);
        lemma_codec_of::<NotifyHumidifierNightlightParams>(nightlight);
        lemma_codec_of::<SetHumidifierNightlightParams>(set_nightlight);
    }
    vec![set_mode, mode, auto_mode, nightlight, set_nightlight]
}

/// Cookers only report, so the encoders of their packets refuse.
fn rice_cooker_codecs() -> (codecs: Vec<PacketCodec>)
    ensures
        codecs@.len() == 3,
        forall|i: int|
            0 <= i < 3 ==> is_codec_for(#[trigger] codecs@[i], listed_types()[i + 5]),
{
    let active_program = PacketCodec::new(
        &["H7180"],
        NotifyRiceCookerActiveProgram::encode,
        NotifyRiceCookerActiveProgram::decode,
    );
    let phase = PacketCodec::new(
        &["H7180"],
        NotifyRiceCookerProgramPhase::encode,
        NotifyRiceCookerProgramPhase::decode,
    );
    let params = PacketCodec::new(
        &["H7180"],
        NotifyRiceCookerProgramParams::encode,
        NotifyRiceCookerProgramParams::decode,
    );
    proof {
        lemma_codec_of::<NotifyRiceCookerActiveProgram>(active_program);
        lemma_codec_of::<NotifyRiceCookerProgramPhase>(phase);
        lemma_codec_of::<NotifyRiceCookerProgramParams>(params);
    }
    vec![active_program, phase, params]
}

fn light_codecs() -> (codecs: Vec<PacketCodec>)
    ensures
        codecs@.len() == 3,
        forall|i: int|
            0 <= i < 3 ==> is_codec_for(#[trigger] codecs@[i], listed_types()[i + 8]),
{
    let scene = PacketCodec::new(
        &["Generic:Light"],
        SetSceneCode::encode,
        SetSceneCode::decode,
    );
    let palette = PacketCodec::new(
        &["Generic:Light"],
        SetMusicPalette::encode,
        SetMusicPalette::decode,
    );
    let power = PacketCodec::new(
        &["Generic:Light"],
        SetDevicePower::encode,
        SetDevicePower::decode,
    );
    proof {
        lemma_codec_of::<SetSceneCode>(scene);
        lemma_codec_of::<SetMusicPalette>(palette);
        lemma_codec_of::<SetDevicePower>(power);
    }
    vec![scene, palette, power]
}

/// What [`codec_map`] gives for the codecs that a manager has.
spec fn lists_codecs(codecs: Seq<PacketCodec>, sku: Seq<char>) -> bool {
    let map = codec_map(codecs, sku);
    &&& codecs.len() == listed_types().len()
    &&& forall|i: int|
        0 <= i < listed_types().len() ==> is_codec_for(#[trigger] codecs[i], listed_types()[i])
    &&& forall|packet_type: PacketType| #[trigger]
        map.contains_key(packet_type.key_spec()) == registered(sku, packet_type)
    &&& forall|packet_type: PacketType|
        registered(sku, packet_type) ==> {
            let place = #[trigger] map[packet_type.key_spec()];
            &&& place < listed_types().len()
            &&& listed_types()[place as int] == packet_type
        }
    &&& forall|place: usize| #[trigger]
        map.values().contains(place) ==> place < listed_types().len() && registered(
            sku,
            listed_types()[place as int],
        )
}

proof fn lemma_listed_codecs(codecs: Seq<PacketCodec>, sku: Seq<char>)
    requires
        codecs.len() == listed_types().len(),
        forall|i: int|
            0 <= i < listed_types().len() ==> is_codec_for(#[trigger] codecs[i], listed_types()[i]),
    ensures
        lists_codecs(codecs, sku),
{
    reveal(is_codec_for);
    lemma_codec_map(codecs, sku);
    let map = codec_map(codecs, sku);
    assert forall|i: int| 0 <= i < codecs.len() implies (#[trigger] codecs[i]).supports(sku)
        == registered(sku, listed_types()[i]) by {
        assert(is_codec_for(codecs[i], listed_types()[i]));
        assert(codecs[i].skus()[0]@ == sku_of(listed_types()[i]));
    }
    assert forall|packet_type: PacketType| #[trigger]
        map.contains_key(packet_type.key_spec()) == registered(sku, packet_type) by {
        let i = packet_type.key_spec() as int;
        assert(listed_types()[i] == packet_type);
        assert(is_codec_for(codecs[i], listed_types()[i]));
        if map.contains_key(packet_type.key_spec()) {
            let j = map[packet_type.key_spec()] as int;
            assert(is_codec_for(codecs[j], listed_types()[j]));
        }
    }
    assert forall|packet_type: PacketType| registered(sku, packet_type) implies {
        let place = #[trigger] map[packet_type.key_spec()];
        &&& place < listed_types().len()
        &&& listed_types()[place as int] == packet_type
    } by {
        assert(map.contains_key(packet_type.key_spec()));
        let j = map[packet_type.key_spec()] as int;
        assert(is_codec_for(codecs[j], listed_types()[j]));
    }
    assert forall|place: usize| #[trigger] map.values().contains(place) implies place
        < listed_types().len() && registered(sku, listed_types()[place as int]) by {
        let key = choose|key: u8| #[trigger] map.contains_key(key) && map[key] == place;
        assert(map.contains_key(key));
    }
}

/// The types that a SKU understands are those that are registered for it.
pub proof fn law_registered_types(sku: Seq<char>)
    ensures
        forall|packet_type: PacketType| #[trigger]
            types_for_sku(sku).contains(packet_type) <==> registered(sku, packet_type),
{
    lemma_skus_differ();
}

/// Of the codecs that a manager has, those that are picked for a SKU are the ones
/// for the types that the SKU understands: five types of packets for a
/// humidifier, three for a rice cooker, three for a light, and none for any other
/// SKU.
pub proof fn law_map_lists_the_types_of_a_sku(codecs: Seq<PacketCodec>, sku: Seq<char>)
    requires
        codecs.len() == listed_types().len(),
        forall|i: int|
            0 <= i < listed_types().len() ==> is_codec_for(#[trigger] codecs[i], listed_types()[i]),
    ensures
        is_map_for_sku(codec_map(codecs, sku), codecs, sku),
{
    lemma_listed_codecs(codecs, sku);
    lemma_codec_map(codecs, sku);
    law_registered_types(sku);
    let map = codec_map(codecs, sku);
    let types = types_for_sku(sku);
    assert forall|key: u8| #[trigger] map.dom().contains(key) <==> keys_of(types).contains(key) by {
        if map.contains_key(key) {
            let packet_type = codecs[map[key] as int].packet_type();
            assert(map.contains_key(packet_type.key_spec()));
            assert(types.contains(packet_type));
        }
        if keys_of(types).contains(key) {
            let packet_type = choose|packet_type: PacketType| #[trigger]
                types.contains(packet_type) && packet_type.key_spec() == key;
            assert(map.contains_key(packet_type.key_spec()));
        }
    }
    assert(map.dom() =~= keys_of(types));
    assert forall|packet_type: PacketType| #[trigger] types.contains(packet_type) implies {
        let place = map[packet_type.key_spec()];
        &&& place < codecs.len()
        &&& is_codec_for(codecs[place as int], packet_type)
    } by {
        let place = map[packet_type.key_spec()] as int;
        assert(is_codec_for(codecs[place], listed_types()[place]));
    }
}

/// A packet of a SKU is understood by one of the SKU's codecs at most, so the
/// order in which they are tried does not matter.
pub proof fn law_at_most_one_codec_decodes(sku: Seq<char>, data: Seq<u8>)
    ensures
        forall|a: PacketType, b: PacketType|
            registered(sku, a) && registered(sku, b) && (#[trigger] packet::decoding(
                a,
                data,
            )) is Ok && (#[trigger] packet::decoding(b, data)) is Ok ==> a == b,
{
    lemma_skus_differ();
    reveal_with_fuel(layout::matched, 4);
}

/// No two codecs that a manager has are for the same type of packets, so none
/// ever takes the place of another.
pub proof fn law_no_codecs_conflict(codecs: Seq<PacketCodec>)
    requires
        codecs.len() == listed_types().len(),
        forall|i: int|
            0 <= i < listed_types().len() ==> is_codec_for(#[trigger] codecs[i], listed_types()[i]),
    ensures
        forall|i: int, j: int|
            0 <= i < j < codecs.len() ==> (#[trigger] codecs[i]).packet_type() != (
            #[trigger] codecs[j]).packet_type(),
{
    reveal(is_codec_for);
}

/// What a packet is decoded to is determined by the SKU and the bytes.
pub proof fn law_decoding_is_determined(
    sku: Seq<char>,
    data: Seq<u8>,
    one: GoveeBlePacket,
    other: GoveeBlePacket,
)
    requires
        decodes_to(sku, data, one),
        decodes_to(sku, data, other),
    ensures
        one == other || (one matches GoveeBlePacket::Generic(a) && (
        other matches GoveeBlePacket::Generic(b) && a@ == b@)),
{
}

/// The packet that one that was encoded is decoded to, for the types that are
/// both encoded and decoded.
pub open spec fn two_way(packet: AnyPacket<'_>) -> Option<GoveeBlePacket> {
    match packet {
        AnyPacket::SetHumidifierMode(value) => Some(GoveeBlePacket::SetHumidifierMode(*value)),
        AnyPacket::NotifyHumidifierMode(value) => {
            Some(GoveeBlePacket::NotifyHumidifierMode(*value))
        },
        AnyPacket::HumidifierAutoMode(value) => {
            Some(GoveeBlePacket::NotifyHumidifierAutoMode(*value))
        },
        AnyPacket::NotifyHumidifierNightlightParams(value) => {
            Some(GoveeBlePacket::NotifyHumidifierNightlight(*value))
        },
        AnyPacket::SetHumidifierNightlightParams(value) => {
            Some(GoveeBlePacket::SetHumidifierNightlight(*value))
        },
        AnyPacket::SetDevicePower(value) => Some(GoveeBlePacket::SetDevicePower(*value)),
        _ => None,
    }
}

/// What is encoded for a SKU is one sealed frame, and the SKU decodes it to the
/// same value, for every packet of a type that is both encoded and decoded.
pub proof fn law_encode_then_decode(sku: Seq<char>, packet: AnyPacket<'_>)
    requires
        registered(sku, packet.packet_type()),
        two_way(packet) is Some,
    ensures
        packet.encodable(),
        packet.encoding() matches Ok(bytes) && frame::is_sealed(bytes) && decodes_to(
            sku,
            bytes,
            two_way(packet)->0,
        ),
{
    let bytes = packet.encoding()->Ok_0;
    match packet {
        AnyPacket::SetHumidifierMode(value) => {
            humidifier::law_set_humidifier_mode_round_trip(*value);
            layout::lemma_formed_len(SetHumidifierMode::rules(), value.fields());
            frame::law_finish_seals(layout::formed(SetHumidifierMode::rules(), value.fields()));
        },
        AnyPacket::NotifyHumidifierMode(value) => {
            humidifier::law_notify_humidifier_mode_round_trip(*value);
            layout::lemma_formed_len(NotifyHumidifierMode::rules(), value.fields());
            frame::law_finish_seals(layout::formed(NotifyHumidifierMode::rules(), value.fields()));
        },
        AnyPacket::HumidifierAutoMode(value) => {
            humidifier::law_notify_humidifier_auto_mode_round_trip(*value);
            layout::lemma_formed_len(HumidifierAutoMode::rules(), value.fields());
            frame::law_finish_seals(layout::formed(HumidifierAutoMode::rules(), value.fields()));
        },
        AnyPacket::NotifyHumidifierNightlightParams(value) => {
            let rules = NotifyHumidifierNightlightParams::rules();
            humidifier::law_notify_humidifier_nightlight_round_trip(*value);
            layout::lemma_formed_len(rules, value.fields());
            frame::law_finish_seals(layout::formed(rules, value.fields()));
        },
        AnyPacket::SetHumidifierNightlightParams(value) => {
            let rules = SetHumidifierNightlightParams::rules();
            humidifier::law_set_humidifier_nightlight_round_trip(*value);
            layout::lemma_formed_len(rules, value.fields());
            frame::law_finish_seals(layout::formed(rules, value.fields()));
        },
        AnyPacket::SetDevicePower(value) => {
            power::law_power_round_trip(*value);
            layout::lemma_formed_len(SetDevicePower::rules(), value.fields());
            frame::law_finish_seals(layout::formed(SetDevicePower::rules(), value.fields()));
        },
        _ => {},
    }
    law_at_most_one_codec_decodes(sku, bytes);
    assert(packet::decoding(packet.packet_type(), bytes) is Ok);
}

/// A SKU that no codec supports decodes every packet to its bytes.
pub proof fn law_unknown_skus_stay_generic(sku: Seq<char>, data: Seq<u8>, packet: GoveeBlePacket)
    requires
        sku != "H7160"@,
        sku != "H7180"@,
        sku != "Generic:Light"@,
        decodes_to(sku, data, packet),
    ensures
        packet matches GoveeBlePacket::Generic(bytes) && bytes@ == data,
{
}

/// A report of a rice cooker in which one byte was changed is decoded to its
/// bytes.
pub proof fn law_corrupted_reports_stay_generic(
    data: Seq<u8>,
    i: int,
    byte: u8,
    packet: GoveeBlePacket,
)
    requires
        rice_cooker::report_body(data) is Ok,
        0 <= i < data.len(),
        byte != data[i],
        decodes_to("H7180"@, data.update(i, byte), packet),
    ensures
        packet matches GoveeBlePacket::Generic(bytes) && bytes@ == data.update(i, byte),
{
    rice_cooker::law_corrupted_reports_are_rejected(data, i, byte);
    lemma_skus_differ();
}

/// The command for a scene or a palette is decoded to its bytes: only the power
/// of lights is decoded.
pub proof fn law_fragments_stay_generic(packet: AnyPacket<'_>, decoded: GoveeBlePacket)
    requires
        packet is SetSceneCode || packet is SetMusicPalette,
        packet.encoding() is Ok,
        decodes_to("Generic:Light"@, packet.encoding()->Ok_0, decoded),
    ensures
        decoded matches GoveeBlePacket::Generic(bytes) && bytes@ == packet.encoding()->Ok_0,
{
    let bytes = packet.encoding()->Ok_0;
    lemma_skus_differ();
    reveal_with_fuel(layout::matched, 2);
    assert(bytes.len() > 1 && bytes[0] == 0xa3) by {
        match packet {
            AnyPacket::SetSceneCode(scene) => {
                let param = base64::base64_bytes(scene.param_text())->Ok_0;
                scene::lemma_scene_starts_with_a_fragment(scene.code(), param);
            },
            AnyPacket::SetMusicPalette(palette) => {},
            _ => {},
        }
    }
    assert(SetDevicePower::decoding(bytes) is Err);
}

proof fn lemma_skus_differ()
    ensures
        "H7160"@ != "H7180"@,
        "H7160"@ != "Generic:Light"@,
        "H7180"@ != "Generic:Light"@,
{
    reveal_strlit("H7160");
    reveal_strlit("H7180");
    reveal_strlit("Generic:Light");
    assert("H7160"@.len() == 5 && "H7160"@[3] == '6');
    assert("H7180"@.len() == 5 && "H7180"@[3] == '8');
    assert("Generic:Light"@.len() == 13);
}

/// Which SKU has which types: a humidifier its modes and night-light, a rice cooker
/// its reports, and a light its scene, palette and power.
pub proof fn law_types_by_sku(sku: Seq<char>, packet_type: PacketType)
    ensures
        registered(sku, packet_type) <==> {
            ||| sku == "H7160"@ && (packet_type is SetHumidifierMode || packet_type is NotifyHumidifierMode || packet_type is HumidifierAutoMode || packet_type is NotifyHumidifierNightlightParams || packet_type is SetHumidifierNightlightParams)
            ||| sku == "H7180"@ && (packet_type is NotifyRiceCookerActiveProgram || packet_type is NotifyRiceCookerProgramPhase || packet_type is NotifyRiceCookerProgramParams)
            ||| sku == "Generic:Light"@ && (packet_type is SetSceneCode || packet_type is SetMusicPalette || packet_type is SetDevicePower)
        },
{
    lemma_skus_differ();
}

/// What is decoded for a SKU is what the decoder of one of its types finds, and
/// where none finds anything, the bytes themselves.
pub proof fn law_decoded_by_sku(sku: Seq<char>, data: Seq<u8>, packet: GoveeBlePacket)
    requires
        decodes_to(sku, data, packet),
    ensures
        sku == "H7160"@ ==> {
            &&& SetHumidifierMode::decoding(data) matches Ok(found) ==> packet == found
            &&& NotifyHumidifierMode::decoding(data) matches Ok(found) ==> packet == found
            &&& HumidifierAutoMode::decoding(data) matches Ok(found) ==> packet == found
            &&& NotifyHumidifierNightlightParams::decoding(data) matches Ok(found) ==> packet == found
            &&& SetHumidifierNightlightParams::decoding(data) matches Ok(found) ==> packet == found
            &&& SetHumidifierMode::decoding(data) is Err && NotifyHumidifierMode::decoding(data) is Err && HumidifierAutoMode::decoding(data) is Err && NotifyHumidifierNightlightParams::decoding(data) is Err && SetHumidifierNightlightParams::decoding(data) is Err ==> (
            packet matches GoveeBlePacket::Generic(bytes) && bytes@ == data)
        },
        sku == "H7180"@ ==> {
            &&& NotifyRiceCookerActiveProgram::decoding(data) matches Ok(found) ==> packet == found
            &&& NotifyRiceCookerProgramPhase::decoding(data) matches Ok(found) ==> packet == found
            &&& NotifyRiceCookerProgramParams::decoding(data) matches Ok(found) ==> packet == found
            &&& NotifyRiceCookerActiveProgram::decoding(data) is Err && NotifyRiceCookerProgramPhase::decoding(data) is Err && NotifyRiceCookerProgramParams::decoding(data) is Err ==> (
            packet matches GoveeBlePacket::Generic(bytes) && bytes@ == data)
        },
        sku == "Generic:Light"@ ==> {
            &&& SetSceneCode::decoding(data) matches Ok(found) ==> packet == found
            &&& SetMusicPalette::decoding(data) matches Ok(found) ==> packet == found
            &&& SetDevicePower::decoding(data) matches Ok(found) ==> packet == found
            &&& SetSceneCode::decoding(data) is Err && SetMusicPalette::decoding(data) is Err && SetDevicePower::decoding(data) is Err ==> (
            packet matches GoveeBlePacket::Generic(bytes) && bytes@ == data)
        },
        sku != "H7160"@ && sku != "H7180"@ && sku != "Generic:Light"@ ==> (
        packet matches GoveeBlePacket::Generic(bytes) && bytes@ == data),
{
    lemma_skus_differ();
    packet::law_decoders(data);
    assert forall|t: PacketType| registered(sku, t) implies packet::decoding(t, data) matches Ok(
        found,
    ) ==> packet == found by {}
    if sku == "H7160"@ {
        assert(packet::decoding(PacketType::SetHumidifierMode, data) == SetHumidifierMode::decoding(data));
        assert(packet::decoding(PacketType::NotifyHumidifierMode, data) == NotifyHumidifierMode::decoding(data));
        assert(packet::decoding(PacketType::HumidifierAutoMode, data) == HumidifierAutoMode::decoding(data));
        assert(packet::decoding(PacketType::NotifyHumidifierNightlightParams, data) == NotifyHumidifierNightlightParams::decoding(data));
        assert(packet::decoding(PacketType::SetHumidifierNightlightParams, data) == SetHumidifierNightlightParams::decoding(data));
    }
    if sku == "H7180"@ {
        assert(packet::decoding(PacketType::NotifyRiceCookerActiveProgram, data) == NotifyRiceCookerActiveProgram::decoding(data));
        assert(packet::decoding(PacketType::NotifyRiceCookerProgramPhase, data) == NotifyRiceCookerProgramPhase::decoding(data));
        assert(packet::decoding(PacketType::NotifyRiceCookerProgramParams, data) == NotifyRiceCookerProgramParams::decoding(data));
    }
    if sku == "Generic:Light"@ {
        assert(packet::decoding(PacketType::SetSceneCode, data) == SetSceneCode::decoding(data));
        assert(packet::decoding(PacketType::SetMusicPalette, data) == SetMusicPalette::decoding(data));
        assert(packet::decoding(PacketType::SetDevicePower, data) == SetDevicePower::decoding(data));
    }
}

/// What is encoded for a SKU is the packet's own encoding where the SKU has the
/// type, and otherwise an error that names both.
pub proof fn law_encodes_to(
    sku: Seq<char>,
    packet: AnyPacket<'_>,
    bytes: Result<Vec<u8>, PacketError>,
)
    requires
        encodes_to(sku, packet, bytes),
    ensures
        registered(sku, packet.packet_type()) ==> match packet.encoding() {
            Ok(encoded) => bytes matches Ok(bytes) && bytes@ == encoded,
            Err(error) => bytes == Err::<Vec<u8>, PacketError>(error),
        },
        !registered(sku, packet.packet_type()) ==> (bytes matches Err(
            PacketError::NoCodec { sku: named, packet_type },
        ) && named@ == sku && packet_type == packet.packet_type()),
        encodable_for(sku, packet) <==> !registered(sku, packet.packet_type())
            || packet.encodable(),
{
}

/// A map that lists the codecs of a SKU has just the types that the SKU has, each
/// with a codec for that type.
pub proof fn law_maps_by_sku(
    map: Map<u8, usize>,
    codecs: Seq<PacketCodec>,
    sku: Seq<char>,
    packet_type: PacketType,
    key: u8,
)
    requires
        is_map_for_sku(map, codecs, sku),
    ensures
        map.contains_key(packet_type.key_spec()) <==> registered(sku, packet_type),
        map.contains_key(key) ==> exists|t: PacketType| #[trigger]
            registered(sku, t) && t.key_spec() == key,
        registered(sku, packet_type) ==> {
            let place = map[packet_type.key_spec()] as int;
            &&& place < codecs.len()
            &&& codecs[place].packet_type() == packet_type
            &&& codecs[place].supports(sku)
        },
{
    reveal(is_codec_for);
    law_registered_types(sku);
    if map.contains_key(packet_type.key_spec()) {
        assert(keys_of(types_for_sku(sku)).contains(packet_type.key_spec()));
        let t = choose|t: PacketType| #[trigger]
            types_for_sku(sku).contains(t) && t.key_spec() == packet_type.key_spec();
        packet::law_keys_differ(t, packet_type);
    }
    if registered(sku, packet_type) {
        assert(types_for_sku(sku).contains(packet_type));
        assert(keys_of(types_for_sku(sku)).contains(packet_type.key_spec()));
        let codec = codecs[map[packet_type.key_spec()] as int];
        assert(codec.skus()[0]@ == sku);
    }
    if map.contains_key(key) {
        assert(keys_of(types_for_sku(sku)).contains(key));
        let t = choose|t: PacketType| #[trigger]
            types_for_sku(sku).contains(t) && t.key_spec() == key;
        assert(registered(sku, t));
    }
}

/// Of several codecs for the same type that support a SKU, the last in the list is
/// used.
pub proof fn law_last_codec_is_used(codecs: Seq<PacketCodec>, sku: Seq<char>, i: int)
    requires
        codecs.len() <= usize::MAX,
        0 <= i < codecs.len(),
        codecs[i].supports(sku),
        forall|j: int|
            i < j < codecs.len() && (#[trigger] codecs[j]).supports(sku)
                ==> codecs[j].packet_type() != codecs[i].packet_type(),
    ensures
        codec_map(codecs, sku).contains_key(codecs[i].packet_type().key_spec()),
        codec_map(codecs, sku)[codecs[i].packet_type().key_spec()] == i,
    decreases codecs.len(),
{
    let front = codecs.drop_last();
    if i < codecs.len() - 1 {
        assert(front[i] == codecs[i]);
        assert forall|j: int| i < j < front.len() && (#[trigger] front[j]).supports(
            sku,
        ) implies front[j].packet_type() != front[i].packet_type() by {
            assert(front[j] == codecs[j]);
        }
        law_last_codec_is_used(front, sku, i);
        packet::law_keys_differ(codecs.last().packet_type(), codecs[i].packet_type());
    }
}

/// What a codec that a manager has does: it encodes and decodes packets of its type
/// as they are meant to be, for one SKU.
pub proof fn law_codecs(codec: PacketCodec, packet_type: PacketType)
    requires
        is_codec_for(codec, packet_type),
    ensures
        codec.packet_type() == packet_type,
        forall|sku: Seq<char>| #[trigger] codec.supports(sku) <==> registered(sku, packet_type),
        forall|packet: AnyPacket<'_>, bytes: Result<Vec<u8>, PacketError>|
            packet.packet_type() == packet_type && #[trigger] codec.encode_ensures(packet, bytes)
                ==> frame::bytes_of(bytes) == packet.encoding(),
        forall|data: &[u8], found: Result<GoveeBlePacket, PacketError>| #[trigger]
            codec.decode_ensures(data, found) ==> found == packet::decoding(packet_type, data@),
{
    reveal(is_codec_for);
    assert forall|sku: Seq<char>| #[trigger] codec.supports(sku) <==> registered(
        sku,
        packet_type,
    ) by {
        assert(codec.skus()[0]@ == sku_of(packet_type));
    }
}

} // verus!
