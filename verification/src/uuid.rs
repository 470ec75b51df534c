//! Identifiers of records, stored as 16 big-endian bytes.

use vstd::prelude::*;

verus! {

/// Unique identifier of a record.
#[derive(Clone, Copy, Debug, PartialEq, Eq, Hash, Structural)]
pub struct Uuid(u128);

impl View for Uuid {
    type V = u128;

    closed spec fn view(&self) -> u128 {
        self.0
    }
}

/// Stored bytes of an identifier, most significant first.
pub open spec fn spec_to_bytes(v: u128) -> Seq<u8> {
    seq![
        (v >> 120u128) as u8, (v >> 112u128) as u8, (v >> 104u128) as u8, (v >> 96u128) as u8,
        (v >> 88u128) as u8, (v >> 80u128) as u8, (v >> 72u128) as u8, (v >> 64u128) as u8,
        (v >> 56u128) as u8, (v >> 48u128) as u8, (v >> 40u128) as u8, (v >> 32u128) as u8,
        (v >> 24u128) as u8, (v >> 16u128) as u8, (v >> 8u128) as u8, v as u8,
    ]
}

/// Identifier value of 16 stored bytes, most significant first.
pub open spec fn spec_from_bytes(b: Seq<u8>) -> u128 {
    (b[0] as u128) << 120u128 | (b[1] as u128) << 112u128 | (b[2] as u128) << 104u128
        | (b[3] as u128) << 96u128 | (b[4] as u128) << 88u128 | (b[5] as u128) << 80u128
        | (b[6] as u128) << 72u128 | (b[7] as u128) << 64u128 | (b[8] as u128) << 56u128
        | (b[9] as u128) << 48u128 | (b[10] as u128) << 40u128 | (b[11] as u128) << 32u128
        | (b[12] as u128) << 24u128 | (b[13] as u128) << 16u128 | (b[14] as u128) << 8u128
        | (b[15] as u128)
}

/// A stored identifier whose length is not 16 bytes.
#[derive(Clone, Copy, Debug, PartialEq, Eq, Structural)]
pub struct InvalidLength {
    /// Number of bytes found.
    pub found: usize,
}

impl Uuid {
    /// Identifier with the given 128-bit value.
    pub fn from_u128(v: u128) -> (r: Uuid)
        ensures
            r@ == v,
    {
        Uuid(v)
    }

    /// The identifier's 128-bit value.
    pub fn as_u128(&self) -> (r: u128)
        ensures
            r == self@,
    {
        self.0
    }

    /// Bytes stored for this identifier in a binary column.
    pub fn to_sql(&self) -> (r: Vec<u8>)
        ensures
            r@ == spec_to_bytes(self@),
    {
        let v = self.0;
        let r = vec![
            (v >> 120u128) as u8, (v >> 112u128) as u8, (v >> 104u128) as u8, (v >> 96u128) as u8,
            (v >> 88u128) as u8, (v >> 80u128) as u8, (v >> 72u128) as u8, (v >> 64u128) as u8,
            (v >> 56u128) as u8, (v >> 48u128) as u8, (v >> 40u128) as u8, (v >> 32u128) as u8,
            (v >> 24u128) as u8, (v >> 16u128) as u8, (v >> 8u128) as u8, v as u8,
        ];
        assert(r@ =~= spec_to_bytes(v));
        r
    }

    /// Reads an identifier back from the bytes of a binary column.
    ///
    /// Fails unless exactly 16 bytes are given.
    pub fn from_sql(bytes: &[u8]) -> (r: Result<Uuid, InvalidLength>)
        ensures
            bytes@.len() == 16 ==> (r matches Ok(u) && u@ == spec_from_bytes(bytes@)),
            bytes@.len() != 16 ==> r == Err::<Uuid, InvalidLength>(InvalidLength { found: bytes@.len() as usize }),
    {
        if bytes.len() != 16 {
            return Err(InvalidLength { found: bytes.len() });
        }
        let v: u128 = (bytes[0] as u128) << 120u128 | (bytes[1] as u128) << 112u128
            | (bytes[2] as u128) << 104u128 | (bytes[3] as u128) << 96u128
            | (bytes[4] as u128) << 88u128 | (bytes[5] as u128) << 80u128
            | (bytes[6] as u128) << 72u128 | (bytes[7] as u128) << 64u128
            | (bytes[8] as u128) << 56u128 | (bytes[9] as u128) << 48u128
            | (bytes[10] as u128) << 40u128 | (bytes[11] as u128) << 32u128
            | (bytes[12] as u128) << 24u128 | (bytes[13] as u128) << 16u128
            | (bytes[14] as u128) << 8u128 | (bytes[15] as u128);
        Ok(Uuid(v))
    }
}

/// Reading back the bytes written for an identifier gives the identifier.
pub proof fn lemma_read_after_write(v: u128)
    ensures
        spec_to_bytes(v).len() == 16,
        spec_from_bytes(spec_to_bytes(v)) == v,
{
    let b = spec_to_bytes(v);
    assert((((v >> 120u128) as u8) as u128) << 120u128 | (((v >> 112u128) as u8) as u128) << 112u128
        | (((v >> 104u128) as u8) as u128) << 104u128 | (((v >> 96u128) as u8) as u128) << 96u128
        | (((v >> 88u128) as u8) as u128) << 88u128 | (((v >> 80u128) as u8) as u128) << 80u128
        | (((v >> 72u128) as u8) as u128) << 72u128 | (((v >> 64u128) as u8) as u128) << 64u128
        | (((v >> 56u128) as u8) as u128) << 56u128 | (((v >> 48u128) as u8) as u128) << 48u128
        | (((v >> 40u128) as u8) as u128) << 40u128 | (((v >> 32u128) as u8) as u128) << 32u128
        | (((v >> 24u128) as u8) as u128) << 24u128 | (((v >> 16u128) as u8) as u128) << 16u128
        | (((v >> 8u128) as u8) as u128) << 8u128 | ((v as u8) as u128) == v) by (bit_vector);
}

/// Writing back the identifier read from 16 stored bytes gives the same
/// bytes.
pub proof fn lemma_write_after_read(b: Seq<u8>)
    requires
        b.len() == 16,
    ensures
        spec_to_bytes(spec_from_bytes(b)) == b,
{
    let (b0, b1, b2, b3, b4, b5, b6, b7) = (b[0], b[1], b[2], b[3], b[4], b[5], b[6], b[7]);
    let (b8, b9, b10, b11, b12, b13, b14, b15) = (b[8], b[9], b[10], b[11], b[12], b[13], b[14], b[15]);
    let v = spec_from_bytes(b);
    assert(v == (b0 as u128) << 120u128 | (b1 as u128) << 112u128 | (b2 as u128) << 104u128
        | (b3 as u128) << 96u128 | (b4 as u128) << 88u128 | (b5 as u128) << 80u128
        | (b6 as u128) << 72u128 | (b7 as u128) << 64u128 | (b8 as u128) << 56u128
        | (b9 as u128) << 48u128 | (b10 as u128) << 40u128 | (b11 as u128) << 32u128
        | (b12 as u128) << 24u128 | (b13 as u128) << 16u128 | (b14 as u128) << 8u128
        | (b15 as u128));
    assert({
        let x = (b0 as u128) << 120u128 | (b1 as u128) << 112u128 | (b2 as u128) << 104u128
            | (b3 as u128) << 96u128 | (b4 as u128) << 88u128 | (b5 as u128) << 80u128
            | (b6 as u128) << 72u128 | (b7 as u128) << 64u128 | (b8 as u128) << 56u128
            | (b9 as u128) << 48u128 | (b10 as u128) << 40u128 | (b11 as u128) << 32u128
            | (b12 as u128) << 24u128 | (b13 as u128) << 16u128 | (b14 as u128) << 8u128
            | (b15 as u128);
        &&& (x >> 120u128) as u8 == b0 && (x >> 112u128) as u8 == b1
        &&& (x >> 104u128) as u8 == b2 && (x >> 96u128) as u8 == b3
        &&& (x >> 88u128) as u8 == b4 && (x >> 80u128) as u8 == b5
        &&& (x >> 72u128) as u8 == b6 && (x >> 64u128) as u8 == b7
        &&& (x >> 56u128) as u8 == b8 && (x >> 48u128) as u8 == b9
        &&& (x >> 40u128) as u8 == b10 && (x >> 32u128) as u8 == b11
        &&& (x >> 24u128) as u8 == b12 && (x >> 16u128) as u8 == b13
        &&& (x >> 8u128) as u8 == b14 && x as u8 == b15
    }) by (bit_vector);
    assert(spec_to_bytes(v) =~= b);
}

} // verus!
