//! Typed parameter values, their wire codec, and the fixed 16-byte name
//! buffer.
//!
//! A parameter value is a tagged union over the ten wire types.  The two
//! `REAL` variants carry the bit pattern of their IEEE value (`u32` for
//! binary32, `u64` for binary64): the library holds no float, and the
//! transport code converts bits to floats at its boundary.

use crate::binary32::{
    b32_from_i32, b32_from_u32, b32_of_i32, b32_of_u32, b32_to_i16, b32_to_i16_cast, b32_to_i32,
    b32_to_i32_cast, b32_to_i8, b32_to_i8_cast, b32_to_u16, b32_to_u16_cast, b32_to_u32,
    b32_to_u32_cast, b32_to_u8, b32_to_u8_cast, lemma_round_trip_i16, lemma_round_trip_i32,
    lemma_round_trip_i8, lemma_round_trip_u16, lemma_round_trip_u32, lemma_round_trip_u8,
};
use crate::mavlink::{ParamEncodingType, ParamValueData};
use vstd::prelude::*;
use vstd::utf8::{
    decode_utf8, encode_utf8, encode_utf8_decode_utf8, encode_utf8_valid_utf8,
    is_ascii_chars_encode_utf8, valid_utf8,
};

verus! {

/// Protocol faults surfaced to callers; transport and framing faults are
/// retried below this layer and never reach it.
#[derive(Debug, Clone, Copy, PartialEq, Eq, Structural)]
pub enum ParamError {
    /// The negotiated mode forbids the requested conversion, or the value
    /// is a 64-bit type that no 32-bit float encoding can carry.
    EncodingUnsupported,
    /// The requested name is absent after a read attempt.
    ParameterNotFound,
}

/// The wire type code accompanying every parameter value.
#[allow(non_camel_case_types)]
#[derive(Debug, Clone, Copy, PartialEq, Eq, Structural)]
pub enum MavParamType {
    MAV_PARAM_TYPE_UINT8,
    MAV_PARAM_TYPE_INT8,
    MAV_PARAM_TYPE_UINT16,
    MAV_PARAM_TYPE_INT16,
    MAV_PARAM_TYPE_UINT32,
    MAV_PARAM_TYPE_INT32,
    MAV_PARAM_TYPE_UINT64,
    MAV_PARAM_TYPE_INT64,
    MAV_PARAM_TYPE_REAL32,
    MAV_PARAM_TYPE_REAL64,
}

/// A typed parameter value.  `REAL32` and `REAL64` carry IEEE bit patterns.
#[derive(Debug, Clone, Copy, PartialEq, Eq, Structural)]
pub enum ParamType {
    UINT8(u8),
    INT8(i8),
    UINT16(u16),
    INT16(i16),
    UINT32(u32),
    INT32(i32),
    UINT64(u64),
    INT64(i64),
    REAL32(u32),
    REAL64(u64),
}

impl ParamType {
    /// True for the variants that no 32-bit float encoding can carry.
    pub open spec fn is_64bit(self) -> bool {
        self is UINT64 || self is INT64 || self is REAL64
    }

    /// The wire type code of this value.
    pub open spec fn wire_type_spec(self) -> MavParamType {
        match self {
            ParamType::UINT8(_) => MavParamType::MAV_PARAM_TYPE_UINT8,
            ParamType::INT8(_) => MavParamType::MAV_PARAM_TYPE_INT8,
            ParamType::UINT16(_) => MavParamType::MAV_PARAM_TYPE_UINT16,
            ParamType::INT16(_) => MavParamType::MAV_PARAM_TYPE_INT16,
            ParamType::UINT32(_) => MavParamType::MAV_PARAM_TYPE_UINT32,
            ParamType::INT32(_) => MavParamType::MAV_PARAM_TYPE_INT32,
            ParamType::UINT64(_) => MavParamType::MAV_PARAM_TYPE_UINT64,
            ParamType::INT64(_) => MavParamType::MAV_PARAM_TYPE_INT64,
            ParamType::REAL32(_) => MavParamType::MAV_PARAM_TYPE_REAL32,
            ParamType::REAL64(_) => MavParamType::MAV_PARAM_TYPE_REAL64,
        }
    }

    /// What `encode` returns: the binary32 bit pattern carrying this value
    /// under the given mode, or the error.
    #[verifier::opaque]
    pub open spec fn encode_spec(self, encoding: ParamEncodingType) -> Result<u32, ParamError> {
        if encoding is Unsupported {
            Err(ParamError::EncodingUnsupported)
        } else if self.is_64bit() {
            Err(ParamError::EncodingUnsupported)
        } else if encoding is CCast {
            match self {
                ParamType::UINT8(v) => Ok(b32_from_u32(v as u32)),
                ParamType::INT8(v) => Ok(b32_from_i32(v as i32)),
                ParamType::UINT16(v) => Ok(b32_from_u32(v as u32)),
                ParamType::INT16(v) => Ok(b32_from_i32(v as i32)),
                ParamType::UINT32(v) => Ok(b32_from_u32(v)),
                ParamType::INT32(v) => Ok(b32_from_i32(v)),
                ParamType::REAL32(b) => Ok(b),
                _ => Err(ParamError::EncodingUnsupported),
            }
        } else {
            match self {
                ParamType::UINT8(v) => Ok(v as u32),
                ParamType::INT8(v) => Ok((v as u8) as u32),
                ParamType::UINT16(v) => Ok(v as u32),
                ParamType::INT16(v) => Ok((v as u16) as u32),
                ParamType::UINT32(v) => Ok(v),
                ParamType::INT32(v) => Ok(v as u32),
                ParamType::REAL32(b) => Ok(b),
                _ => Err(ParamError::EncodingUnsupported),
            }
        }
    }

    /// What `decode` returns for a wire type code and a binary32 bit
    /// pattern under the given mode.
    #[verifier::opaque]
    pub open spec fn decode_spec(
        param_type: MavParamType,
        bits: u32,
        encoding: ParamEncodingType,
    ) -> Result<ParamType, ParamError> {
        if encoding is Unsupported {
            Err(ParamError::EncodingUnsupported)
        } else if param_type is MAV_PARAM_TYPE_UINT64 || param_type is MAV_PARAM_TYPE_INT64
            || param_type is MAV_PARAM_TYPE_REAL64 {
            Err(ParamError::EncodingUnsupported)
        } else if encoding is CCast {
            match param_type {
                MavParamType::MAV_PARAM_TYPE_UINT8 => Ok(ParamType::UINT8(b32_to_u8_cast(bits))),
                MavParamType::MAV_PARAM_TYPE_INT8 => Ok(ParamType::INT8(b32_to_i8_cast(bits))),
                MavParamType::MAV_PARAM_TYPE_UINT16 => Ok(
                    ParamType::UINT16(b32_to_u16_cast(bits)),
                ),
                MavParamType::MAV_PARAM_TYPE_INT16 => Ok(ParamType::INT16(b32_to_i16_cast(bits))),
                MavParamType::MAV_PARAM_TYPE_UINT32 => Ok(
                    ParamType::UINT32(b32_to_u32_cast(bits)),
                ),
                MavParamType::MAV_PARAM_TYPE_INT32 => Ok(ParamType::INT32(b32_to_i32_cast(bits))),
                _ => Ok(ParamType::REAL32(bits)),
            }
        } else {
            match param_type {
                MavParamType::MAV_PARAM_TYPE_UINT8 => Ok(ParamType::UINT8(bits as u8)),
                MavParamType::MAV_PARAM_TYPE_INT8 => Ok(ParamType::INT8(bits as i8)),
                MavParamType::MAV_PARAM_TYPE_UINT16 => Ok(ParamType::UINT16(bits as u16)),
                MavParamType::MAV_PARAM_TYPE_INT16 => Ok(ParamType::INT16(bits as i16)),
                MavParamType::MAV_PARAM_TYPE_UINT32 => Ok(ParamType::UINT32(bits)),
                MavParamType::MAV_PARAM_TYPE_INT32 => Ok(ParamType::INT32(bits as i32)),
                _ => Ok(ParamType::REAL32(bits)),
            }
        }
    }

    /// Encodes this value into the binary32 bit pattern that carries it on
    /// the wire.
    ///
    /// A 64-bit or binary64 value is never encodable and fails with
    /// `EncodingUnsupported`, as does every call under the `Unsupported`
    /// mode.
    pub fn encode(&self, encoding: ParamEncodingType) -> (r: Result<u32, ParamError>)
        ensures
            r == self.encode_spec(encoding),
            self.is_64bit() ==> r == Err::<u32, ParamError>(ParamError::EncodingUnsupported),
            encoding is Unsupported ==> r == Err::<u32, ParamError>(
                ParamError::EncodingUnsupported,
            ),
            !self.is_64bit() && !(encoding is Unsupported) ==> r is Ok,
    {
        proof {
            reveal(ParamType::encode_spec);
        }
        match encoding {
            ParamEncodingType::Unsupported => Err(ParamError::EncodingUnsupported),
            ParamEncodingType::CCast => match self {
                ParamType::UINT8(v) => Ok(b32_of_u32(*v as u32)),
                ParamType::INT8(v) => Ok(b32_of_i32(*v as i32)),
                ParamType::UINT16(v) => Ok(b32_of_u32(*v as u32)),
                ParamType::INT16(v) => Ok(b32_of_i32(*v as i32)),
                ParamType::UINT32(v) => Ok(b32_of_u32(*v)),
                ParamType::INT32(v) => Ok(b32_of_i32(*v)),
                ParamType::REAL32(b) => Ok(*b),
                _ => Err(ParamError::EncodingUnsupported),
            },
            ParamEncodingType::ByteWise => match self {
                ParamType::UINT8(v) => Ok(*v as u32),
                ParamType::INT8(v) => Ok((*v as u8) as u32),
                ParamType::UINT16(v) => Ok(*v as u32),
                ParamType::INT16(v) => Ok((*v as u16) as u32),
                ParamType::UINT32(v) => Ok(*v),
                ParamType::INT32(v) => Ok(*v as u32),
                ParamType::REAL32(b) => Ok(*b),
                _ => Err(ParamError::EncodingUnsupported),
            },
        }
    }

    /// Decodes a binary32 bit pattern received for the given wire type.
    ///
    /// The exact inverse of `encode` for every 8-, 16- and 32-bit type
    /// under `ByteWise`, and for every exactly-representable value under
    /// `CCast`; a 64-bit wire type or the `Unsupported` mode fails with
    /// `EncodingUnsupported`.
    pub fn decode(
        param_type: MavParamType,
        param_value: u32,
        encoding: ParamEncodingType,
    ) -> (r: Result<ParamType, ParamError>)
        ensures
            r == Self::decode_spec(param_type, param_value, encoding),
    {
        proof {
            reveal(ParamType::decode_spec);
        }
        match encoding {
            ParamEncodingType::Unsupported => Err(ParamError::EncodingUnsupported),
            ParamEncodingType::CCast => match param_type {
                MavParamType::MAV_PARAM_TYPE_UINT8 => Ok(ParamType::UINT8(b32_to_u8(param_value))),
                MavParamType::MAV_PARAM_TYPE_INT8 => Ok(ParamType::INT8(b32_to_i8(param_value))),
                MavParamType::MAV_PARAM_TYPE_UINT16 => Ok(
                    ParamType::UINT16(b32_to_u16(param_value)),
                ),
                MavParamType::MAV_PARAM_TYPE_INT16 => Ok(
                    ParamType::INT16(b32_to_i16(param_value)),
                ),
                MavParamType::MAV_PARAM_TYPE_UINT32 => Ok(
                    ParamType::UINT32(b32_to_u32(param_value)),
                ),
                MavParamType::MAV_PARAM_TYPE_INT32 => Ok(
                    ParamType::INT32(b32_to_i32(param_value)),
                ),
                MavParamType::MAV_PARAM_TYPE_REAL32 => Ok(ParamType::REAL32(param_value)),
                _ => Err(ParamError::EncodingUnsupported),
            },
            ParamEncodingType::ByteWise => match param_type {
                MavParamType::MAV_PARAM_TYPE_UINT8 => Ok(ParamType::UINT8(param_value as u8)),
                MavParamType::MAV_PARAM_TYPE_INT8 => Ok(ParamType::INT8(param_value as i8)),
                MavParamType::MAV_PARAM_TYPE_UINT16 => Ok(ParamType::UINT16(param_value as u16)),
                MavParamType::MAV_PARAM_TYPE_INT16 => Ok(ParamType::INT16(param_value as i16)),
                MavParamType::MAV_PARAM_TYPE_UINT32 => Ok(ParamType::UINT32(param_value)),
                MavParamType::MAV_PARAM_TYPE_INT32 => Ok(ParamType::INT32(param_value as i32)),
                MavParamType::MAV_PARAM_TYPE_REAL32 => Ok(ParamType::REAL32(param_value)),
                _ => Err(ParamError::EncodingUnsupported),
            },
        }
    }
}

/// True when the numeric-cast mode represents this value exactly, so that
/// its codec round trip is lossless.  Every 8- and 16-bit value qualifies;
/// a 32-bit integer qualifies up to a magnitude of `2^24`.
pub open spec fn ccast_exact(v: ParamType) -> bool {
    match v {
        ParamType::UINT32(x) => x <= 0x100_0000,
        ParamType::INT32(x) => -0x100_0000 <= x <= 0x100_0000,
        _ => true,
    }
}

/// Codec round trip: for every value of width at most 32 bits and both
/// supported modes, decoding what encode produced gives the value back.
/// Under the numeric-cast mode this holds on the exactly-representable
/// range (a 32-bit integer of magnitude beyond `2^24` is rounded by the
/// cast itself).
pub proof fn lemma_codec_round_trip(v: ParamType, encoding: ParamEncodingType)
    requires
        !v.is_64bit(),
        !(encoding is Unsupported),
        encoding is CCast ==> ccast_exact(v),
    ensures
        v.encode_spec(encoding) is Ok,
        ParamType::decode_spec(v.wire_type_spec(), v.encode_spec(encoding)->Ok_0, encoding) == Ok::<
            ParamType,
            ParamError,
        >(v),
{
    reveal(ParamType::encode_spec);
    reveal(ParamType::decode_spec);
    if encoding is CCast {
        match v {
            ParamType::UINT8(x) => lemma_round_trip_u8(x),
            ParamType::INT8(x) => lemma_round_trip_i8(x),
            ParamType::UINT16(x) => lemma_round_trip_u16(x),
            ParamType::INT16(x) => lemma_round_trip_i16(x),
            ParamType::UINT32(x) => lemma_round_trip_u32(x),
            ParamType::INT32(x) => lemma_round_trip_i32(x),
            _ => (),
        }
    } else {
        match v {
            ParamType::INT8(x) => {
                assert(((x as u8) as u32) as i8 == x) by (bit_vector);
            },
            ParamType::INT16(x) => {
                assert(((x as u16) as u32) as i16 == x) by (bit_vector);
            },
            ParamType::INT32(x) => {
                assert((x as u32) as i32 == x) by (bit_vector);
            },
            _ => (),
        }
    }
}

/// The character sequence `String::from_utf8_lossy` produces for a byte
/// sequence; a function of the bytes alone.
pub uninterp spec fn lossy_utf8(bytes: Seq<u8>) -> Seq<char>;

/// Relies on `String::from_utf8_lossy`: valid UTF-8 input (the only kind
/// the protocol produces for names) decodes unchanged, and any input gives
/// some fixed character sequence.
#[verifier::external_body]
fn utf8_lossy(bytes: &[u8]) -> (s: String)
    ensures
        s@ == lossy_utf8(bytes@),
        valid_utf8(bytes@) ==> s@ == decode_utf8(bytes@),
{
    String::from_utf8_lossy(bytes).into_owned()
}

/// A usable parameter name: at most 16 characters, every one a nonzero
/// ASCII character, so that it survives the fixed 16-byte null-padded wire
/// buffer.
pub open spec fn valid_param_name(name: Seq<char>) -> bool {
    name.len() <= 16 && (forall|i: int|
        0 <= i < name.len() ==> '\u{1}' <= #[trigger] name[i] <= '\u{7f}')
}

/// The 16-byte null-padded wire buffer carrying an ASCII name.
pub open spec fn name_id_bytes(name: Seq<char>) -> Seq<u8> {
    Seq::new(
        16,
        |i: int|
            if i < name.len() {
                name[i] as u8
            } else {
                0
            },
    )
}

/// Index of the first zero byte, or the length when none occurs.
pub open spec fn first_nul(id: Seq<u8>) -> nat
    decreases id.len(),
{
    if id.len() == 0 {
        0
    } else if id[0] == 0 {
        0
    } else {
        (1 + first_nul(id.drop_first())) as nat
    }
}

/// The name decoded from a wire buffer: the bytes before the first zero,
/// as text.
pub open spec fn param_id_name(id: Seq<u8>) -> Seq<char> {
    let t = id.subrange(0, first_nul(id) as int);
    if valid_utf8(t) {
        decode_utf8(t)
    } else {
        lossy_utf8(t)
    }
}

/// Pins `first_nul` down from pointwise facts: if every byte before `i` is
/// nonzero and position `i` is the end or a zero, the first zero is at `i`.
pub proof fn lemma_first_nul_at(id: Seq<u8>, i: int)
    requires
        0 <= i <= id.len(),
        forall|j: int| 0 <= j < i ==> #[trigger] id[j] != 0,
        i < id.len() ==> id[i] == 0,
    ensures
        first_nul(id) == i,
    decreases id.len(),
{
    if id.len() == 0 {
    } else if i == 0 {
    } else {
        assert(id[0] != 0);
        let rest = id.drop_first();
        assert(forall|j: int| 0 <= j < i - 1 ==> #[trigger] rest[j] != 0);
        lemma_first_nul_at(rest, i - 1);
    }
}

/// Encodes a name into its fixed 16-byte null-padded wire buffer.
pub fn param_name_to_id(name: &str) -> (id: Vec<u8>)
    requires
        valid_param_name(name@),
    ensures
        id@ == name_id_bytes(name@),
{
    proof {
        assert(vstd::utf8::is_ascii_chars(name@));
        vstd::string::is_ascii_spec_bytes(name);
    }
    let bytes = name.as_bytes();
    let n = bytes.len();
    let mut id: Vec<u8> = Vec::new();
    let mut i: usize = 0;
    while i < n
        invariant
            n == name@.len(),
            bytes@ =~= Seq::new(name@.len(), |k: int| name@[k] as u8),
            i <= n <= 16,
            id@ =~= bytes@.subrange(0, i as int),
        decreases n - i,
    {
        id.push(bytes[i]);
        i = i + 1;
    }
    while id.len() < 16
        invariant
            n == name@.len() <= 16,
            bytes@ =~= Seq::new(name@.len(), |k: int| name@[k] as u8),
            n <= id@.len() <= 16,
            id@.subrange(0, n as int) =~= bytes@,
            forall|k: int| n <= k < id@.len() ==> #[trigger] id@[k] == 0,
        decreases 16 - id.len(),
    {
        id.push(0);
    }
    proof {
        assert forall|k: int| 0 <= k < 16 implies id@[k] == name_id_bytes(name@)[k] by {
            if k < n {
                assert(id@.subrange(0, n as int)[k] == id@[k]);
            }
        }
        assert(id@ =~= name_id_bytes(name@));
    }
    id
}

/// Decodes a fixed wire buffer back into a name, trimming at the first
/// zero byte.
pub fn param_id_to_name(id: &Vec<u8>) -> (name: String)
    ensures
        name@ == param_id_name(id@),
{
    let n = id.len();
    let mut prefix: Vec<u8> = Vec::new();
    let mut i: usize = 0;
    while i < n && id[i] != 0
        invariant
            n == id@.len(),
            i <= n,
            prefix@ =~= id@.subrange(0, i as int),
            forall|j: int| 0 <= j < i ==> #[trigger] id@[j] != 0,
        decreases n - i,
    {
        prefix.push(id[i]);
        i = i + 1;
    }
    proof {
        lemma_first_nul_at(id@, i as int);
        assert(prefix@ =~= id@.subrange(0, first_nul(id@) as int));
    }
    utf8_lossy(prefix.as_slice())
}

/// Name buffer round trip: a usable name (at most 16 nonzero ASCII
/// characters, a full 16-byte name included) survives the encode to the
/// fixed buffer and the decode back unchanged.
pub proof fn lemma_name_round_trip(name: Seq<char>)
    requires
        valid_param_name(name),
    ensures
        param_id_name(name_id_bytes(name)) == name,
{
    let id = name_id_bytes(name);
    assert forall|j: int| 0 <= j < name.len() implies #[trigger] id[j] != 0 by {
        assert('\u{1}' <= name[j] <= '\u{7f}');
        assert(name[j] as u8 != 0);
    }
    lemma_first_nul_at(id, name.len() as int);
    let t = id.subrange(0, name.len() as int);
    assert(vstd::utf8::is_ascii_chars(name));
    is_ascii_chars_encode_utf8(name);
    assert(t =~= encode_utf8(name));
    encode_utf8_valid_utf8(name);
    encode_utf8_decode_utf8(name);
}

/// A named parameter: the unit of the remote configuration table.
#[derive(Debug)]
pub struct Parameter {
    pub name: String,
    pub value: ParamType,
}

impl Parameter {
    /// Decodes a received parameter value message into a named parameter.
    pub fn try_new(data: &ParamValueData, encoding: ParamEncodingType) -> (r: Result<
        Parameter,
        ParamError,
    >)
        ensures
            r is Ok <==> ParamType::decode_spec(data.param_type, data.param_value, encoding)
                is Ok,
            r matches Ok(p) ==> p.value == ParamType::decode_spec(
                data.param_type,
                data.param_value,
                encoding,
            )->Ok_0 && p.name@ == param_id_name(data.param_id@),
            r matches Err(e) ==> Err::<ParamType, ParamError>(e) == ParamType::decode_spec(
                data.param_type,
                data.param_value,
                encoding,
            ),
    {
        match ParamType::decode(data.param_type, data.param_value, encoding) {
            Ok(value) => Ok(Parameter { name: Self::param_id_to_name(&data.param_id), value }),
            Err(e) => Err(e),
        }
    }

    /// An owned copy of this parameter.
    pub fn duplicate(&self) -> (r: Parameter)
        ensures
            r.name@ == self.name@,
            r.value == self.value,
    {
        Parameter { name: self.name.clone(), value: self.value }
    }

    /// The wire value of this parameter under the given encoding.
    pub fn param_value(&self, encoding: ParamEncodingType) -> (r: Result<u32, ParamError>)
        ensures
            r == self.value.encode_spec(encoding),
    {
        self.value.encode(encoding)
    }

    /// The wire type code of this parameter.
    pub fn param_type(&self) -> (r: MavParamType)
        ensures
            r == self.value.wire_type_spec(),
    {
        match self.value {
            ParamType::UINT8(_) => MavParamType::MAV_PARAM_TYPE_UINT8,
            ParamType::INT8(_) => MavParamType::MAV_PARAM_TYPE_INT8,
            ParamType::UINT16(_) => MavParamType::MAV_PARAM_TYPE_UINT16,
            ParamType::INT16(_) => MavParamType::MAV_PARAM_TYPE_INT16,
            ParamType::UINT32(_) => MavParamType::MAV_PARAM_TYPE_UINT32,
            ParamType::INT32(_) => MavParamType::MAV_PARAM_TYPE_INT32,
            ParamType::UINT64(_) => MavParamType::MAV_PARAM_TYPE_UINT64,
            ParamType::INT64(_) => MavParamType::MAV_PARAM_TYPE_INT64,
            ParamType::REAL32(_) => MavParamType::MAV_PARAM_TYPE_REAL32,
            ParamType::REAL64(_) => MavParamType::MAV_PARAM_TYPE_REAL64,
        }
    }

    /// The fixed 16-byte wire buffer of this parameter's name.
    pub fn param_id(&self) -> (r: Vec<u8>)
        requires
            valid_param_name(self.name@),
        ensures
            r@ == name_id_bytes(self.name@),
    {
        Self::param_name_to_id(self.name.as_str())
    }

    /// Encodes a name into its fixed 16-byte null-padded wire buffer.
    pub fn param_name_to_id(name: &str) -> (id: Vec<u8>)
        requires
            valid_param_name(name@),
        ensures
            id@ == name_id_bytes(name@),
    {
        param_name_to_id(name)
    }

    /// Decodes a fixed wire buffer back into a name, trimming at the
    /// first zero byte.
    pub fn param_id_to_name(id: &Vec<u8>) -> (name: String)
        ensures
            name@ == param_id_name(id@),
    {
        param_id_to_name(id)
    }
}

impl ParamType {
    /// Replaces this value with a new one, first checking that the new
    /// value is encodable under the given mode; an unencodable value
    /// leaves this one unchanged.
    pub fn set_value(&mut self, new_value: ParamType, encoding: ParamEncodingType) -> (r: Result<
        (),
        ParamError,
    >)
        ensures
            r is Ok <==> new_value.encode_spec(encoding) is Ok,
            r is Ok ==> *final(self) == new_value,
            r is Err ==> *final(self) == *old(self),
    {
        match new_value.encode(encoding) {
            Ok(_) => {
                *self = new_value;
                Ok(())
            },
            Err(e) => Err(e),
        }
    }
}

/// Sixty-four-bit rejection: encoding a 64-bit or binary64 value fails
/// with `EncodingUnsupported` under every mode, and so does decoding a
/// 64-bit wire type; neither ever panics.
pub proof fn lemma_64bit_rejected(v: ParamType, encoding: ParamEncodingType, bits: u32)
    requires
        v.is_64bit(),
    ensures
        v.encode_spec(encoding) == Err::<u32, ParamError>(ParamError::EncodingUnsupported),
        ParamType::decode_spec(v.wire_type_spec(), bits, encoding) == Err::<
            ParamType,
            ParamError,
        >(ParamError::EncodingUnsupported),
{
    reveal(ParamType::encode_spec);
    reveal(ParamType::decode_spec);
}

} // verus!
