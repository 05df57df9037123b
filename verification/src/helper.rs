//! Numbers as the bytes that write them.

use crate::error::WatError;
use crate::error::WatResult;
use crate::marker::SerializableWatType;
use vstd::prelude::*;

verus! {

/// A number stored as big-endian bytes: four bytes for a 32-bit type, and
/// four more, the low half, for a 64-bit type.
#[derive(Debug, Clone, Copy, PartialEq, Eq)]
pub struct SerializedNumber {
    first_bytes: [u8; 4],
    second_bytes: Option<[u8; 4]>,
    typ: SerializableWatType,
}

/// What a `SerializedNumber` holds.
pub struct SerializedNumberView {
    pub first_bytes: Seq<u8>,
    pub second_bytes: Option<Seq<u8>>,
    pub typ: SerializableWatType,
}

impl DeepView for SerializedNumber {
    type V = SerializedNumberView;

    closed spec fn deep_view(&self) -> SerializedNumberView {
        SerializedNumberView {
            first_bytes: self.first_bytes@,
            second_bytes: match self.second_bytes {
                Some(b) => Some(b@),
                None => None,
            },
            typ: self.typ,
        }
    }
}

/// The four big-endian bytes of a number below 2^32.
pub open spec fn be_bytes(v: nat) -> Seq<u8> {
    seq![
        (v / 0x100_0000 % 256) as u8,
        (v / 0x1_0000 % 256) as u8,
        (v / 0x100 % 256) as u8,
        (v % 256) as u8,
    ]
}

/// The number that four big-endian bytes write.
pub open spec fn be_value(bytes: Seq<u8>) -> nat {
    (bytes[0] as nat) * 0x100_0000 + (bytes[1] as nat) * 0x1_0000 + (bytes[2] as nat) * 0x100
        + bytes[3] as nat
}

/// The bit pattern of a signed 32-bit number, read as unsigned.
pub open spec fn bits_of_i32(v: i32) -> nat {
    if v >= 0 {
        v as nat
    } else {
        (v + 0x1_0000_0000) as nat
    }
}

/// The bit pattern of a signed 64-bit number, read as unsigned.
pub open spec fn bits_of_i64(v: i64) -> nat {
    if v >= 0 {
        v as nat
    } else {
        (v + 0x1_0000_0000_0000_0000) as nat
    }
}

/// A number of 32 bits with the given type tag.
pub open spec fn number_32(bits: nat, typ: SerializableWatType) -> SerializedNumberView {
    SerializedNumberView { first_bytes: be_bytes(bits), second_bytes: None, typ }
}

/// A number of 64 bits with the given type tag: high half, then low half.
pub open spec fn number_64(bits: nat, typ: SerializableWatType) -> SerializedNumberView {
    SerializedNumberView {
        first_bytes: be_bytes(bits / 0x1_0000_0000),
        second_bytes: Some(be_bytes(bits % 0x1_0000_0000)),
        typ,
    }
}

/// An optional signed 64-bit number: the number itself, or zero of 32 bits
/// where there is none.
pub open spec fn optional_number(value: Option<i64>) -> SerializedNumberView {
    match value {
        Some(v) => number_64(bits_of_i64(v), SerializableWatType::I64),
        None => number_32(0, SerializableWatType::I32),
    }
}

fn split_word(bits: u32) -> (r: [u8; 4])
    ensures
        r@ == be_bytes(bits as nat),
{
    let r = [
        (bits / 0x100_0000) as u8,
        (bits / 0x1_0000 % 256) as u8,
        (bits / 0x100 % 256) as u8,
        (bits % 256) as u8,
    ];
    assert(r@ =~= be_bytes(bits as nat));
    r
}

fn join_word(bytes: &[u8; 4]) -> (r: u32)
    ensures
        r == be_value(bytes@),
{
    (bytes[0] as u32) * 0x100_0000 + (bytes[1] as u32) * 0x1_0000 + (bytes[2] as u32) * 0x100
        + bytes[3] as u32
}

impl SerializedNumber {
    fn word(bits: u32, typ: SerializableWatType) -> (r: Self)
        ensures
            r.deep_view() == number_32(bits as nat, typ),
    {
        SerializedNumber { first_bytes: split_word(bits), second_bytes: None, typ }
    }

    fn double_word(bits: u64, typ: SerializableWatType) -> (r: Self)
        ensures
            r.deep_view() == number_64(bits as nat, typ),
    {
        SerializedNumber {
            first_bytes: split_word((bits / 0x1_0000_0000) as u32),
            second_bytes: Some(split_word((bits % 0x1_0000_0000) as u32)),
            typ,
        }
    }

    /// The number with the given bytes and type tag.
    pub fn from_parts(
        first_bytes: [u8; 4],
        second_bytes: Option<[u8; 4]>,
        typ: SerializableWatType,
    ) -> (r: Self)
        ensures
            r.deep_view() == (SerializedNumberView {
                first_bytes: first_bytes@,
                second_bytes: match second_bytes {
                    Some(b) => Some(b@),
                    None => None,
                },
                typ,
            }),
    {
        SerializedNumber { first_bytes, second_bytes, typ }
    }

    /// The bytes of a signed 32-bit integer, tagged `I32`.
    pub fn from_i32(value: i32) -> (r: Self)
        ensures
            r.deep_view() == number_32(bits_of_i32(value), SerializableWatType::I32),
    {
        let bits: u32 = if value >= 0 {
            value as u32
        } else {
            ((value + i32::MAX + 1) as u32) + 0x8000_0000
        };
        Self::word(bits, SerializableWatType::I32)
    }

    /// The bytes of a signed 64-bit integer, tagged `I64`.
    pub fn from_i64(value: i64) -> (r: Self)
        ensures
            r.deep_view() == number_64(bits_of_i64(value), SerializableWatType::I64),
    {
        let bits: u64 = if value >= 0 {
            value as u64
        } else {
            ((value + i64::MAX + 1) as u64) + 0x8000_0000_0000_0000
        };
        Self::double_word(bits, SerializableWatType::I64)
    }

    /// The bytes of a 32-bit float given by its bit pattern, tagged `F32`.
    pub fn from_f32_bits(bits: u32) -> (r: Self)
        ensures
            r.deep_view() == number_32(bits as nat, SerializableWatType::F32),
    {
        Self::word(bits, SerializableWatType::F32)
    }

    /// The bytes of a 64-bit float given by its bit pattern, tagged `F64`.
    pub fn from_f64_bits(bits: u64) -> (r: Self)
        ensures
            r.deep_view() == number_64(bits as nat, SerializableWatType::F64),
    {
        Self::double_word(bits, SerializableWatType::F64)
    }

    /// The page count of a memory limit: the number itself, or zero where
    /// the limit is absent.
    pub fn from_optional_i64(value: Option<i64>) -> (r: Self)
        ensures
            r.deep_view() == optional_number(value),
    {
        match value {
            Some(v) => Self::from_i64(v),
            None => Self::from_i32(0),
        }
    }

    /// The type tag.
    pub fn typ(&self) -> (r: SerializableWatType)
        ensures
            r == self.deep_view().typ,
    {
        self.typ
    }

    /// The first four bytes: the whole of a 32-bit number, the high half
    /// of a 64-bit one.
    pub fn first_bytes(&self) -> (r: [u8; 4])
        ensures
            r@ == self.deep_view().first_bytes,
    {
        self.first_bytes
    }

    /// The low half of a 64-bit number.
    pub fn second_bytes(&self) -> (r: Option<[u8; 4]>)
        ensures
            match r {
                Some(b) => self.deep_view().second_bytes == Some(b@),
                None => self.deep_view().second_bytes is None,
            },
    {
        self.second_bytes
    }

    /// The number as an unsigned 32-bit value, if it is one: a 32-bit
    /// number always, a 64-bit number whose high half is zero.
    pub open spec fn as_u32(n: SerializedNumberView) -> Option<u32> {
        match n.second_bytes {
            None => Some(be_value(n.first_bytes) as u32),
            Some(low) => if be_value(n.first_bytes) == 0 {
                Some(be_value(low) as u32)
            } else {
                None
            },
        }
    }

    /// Reads the number as an unsigned 32-bit value; one that needs more
    /// bits is refused.
    pub fn try_into_u32(self) -> (r: WatResult<u32>)
        ensures
            match r {
                Ok(v) => Self::as_u32(self.deep_view()) == Some(v),
                Err(e) => Self::as_u32(self.deep_view()) is None && e.deep_view()
                    == WatError::spec_number_to_large(),
            },
    {
        match self.second_bytes {
            None => Ok(join_word(&self.first_bytes)),
            Some(low) => {
                if join_word(&self.first_bytes) == 0 {
                    Ok(join_word(&low))
                } else {
                    Err(WatError::number_to_large())
                }
            },
        }
    }
}

/// Two numbers below 2^32 with the same bytes are the same number.
pub proof fn lemma_be_bytes_injective(x: nat, y: nat)
    requires
        x < 0x1_0000_0000,
        y < 0x1_0000_0000,
        be_bytes(x) == be_bytes(y),
    ensures
        x == y,
{
    assert(be_bytes(x)[0] == be_bytes(y)[0]);
    assert(be_bytes(x)[1] == be_bytes(y)[1]);
    assert(be_bytes(x)[2] == be_bytes(y)[2]);
    assert(be_bytes(x)[3] == be_bytes(y)[3]);
    assert(x / 0x100_0000 % 256 == y / 0x100_0000 % 256);
    assert(x / 0x1_0000 % 256 == y / 0x1_0000 % 256);
    assert(x / 0x100 % 256 == y / 0x100 % 256);
    assert(x % 256 == y % 256);
}

/// Two 32-bit numbers with the same view have the same bits.
pub proof fn lemma_number_32_injective(x: nat, y: nat, typ: SerializableWatType)
    requires
        x < 0x1_0000_0000,
        y < 0x1_0000_0000,
        number_32(x, typ) == number_32(y, typ),
    ensures
        x == y,
{
    lemma_be_bytes_injective(x, y);
}

/// Two 64-bit numbers with the same view have the same bits.
pub proof fn lemma_number_64_injective(x: nat, y: nat, typ: SerializableWatType)
    requires
        x < 0x1_0000_0000_0000_0000,
        y < 0x1_0000_0000_0000_0000,
        number_64(x, typ) == number_64(y, typ),
    ensures
        x == y,
{
    lemma_be_bytes_injective(x / 0x1_0000_0000, y / 0x1_0000_0000);
    lemma_be_bytes_injective(x % 0x1_0000_0000, y % 0x1_0000_0000);
}

} // verus!
