use vstd::prelude::*;

verus! {

/// A 128-bit identifier in the native field layout: a 32-bit, two 16-bit
/// and an 8-byte field.
#[derive(Debug, Clone, Copy, PartialEq, Eq)]
pub struct Guid {
    pub data1: u32,
    pub data2: u16,
    pub data3: u16,
    pub data4: [u8; 8],
}

/// A 128-bit identifier as its 16 bytes in standard order.
#[derive(Debug, Clone, Copy, PartialEq, Eq)]
pub struct Uuid {
    pub bytes: [u8; 16],
}

/// The model of a [`Guid`]: its four fields, the last as a sequence of bytes.
pub type GuidFields = (u32, u16, u16, Seq<u8>);

impl View for Guid {
    type V = GuidFields;

    open spec fn view(&self) -> GuidFields {
        (self.data1, self.data2, self.data3, self.data4@)
    }
}

impl View for Uuid {
    type V = Seq<u8>;

    open spec fn view(&self) -> Seq<u8> {
        self.bytes@
    }
}

/// The four bytes of `x`, most significant first.
pub open spec fn u32_be_bytes(x: u32) -> Seq<u8> {
    seq![(x >> 24u32) as u8, (x >> 16u32) as u8, (x >> 8u32) as u8, x as u8]
}

/// The two bytes of `x`, most significant first.
pub open spec fn u16_be_bytes(x: u16) -> Seq<u8> {
    seq![(x >> 8u16) as u8, x as u8]
}

/// The 32-bit value whose bytes, most significant first, are `b0` to `b3`.
pub open spec fn u32_from_be(b0: u8, b1: u8, b2: u8, b3: u8) -> u32 {
    (b0 as u32) << 24u32 | (b1 as u32) << 16u32 | (b2 as u32) << 8u32 | (b3 as u32)
}

/// The 16-bit value whose bytes, most significant first, are `b0` and `b1`.
pub open spec fn u16_from_be(b0: u8, b1: u8) -> u16 {
    (b0 as u16) << 8u16 | (b1 as u16)
}

/// The standard byte order of an identifier given by its native fields:
/// each integer field big-endian, then the 8-byte tail as it stands.
pub open spec fn canonical_bytes(g: GuidFields) -> Seq<u8> {
    u32_be_bytes(g.0) + u16_be_bytes(g.1) + u16_be_bytes(g.2) + g.3
}

/// The native fields of the identifier whose standard bytes are `b`.
pub open spec fn native_fields(b: Seq<u8>) -> GuidFields {
    (
        u32_from_be(b[0], b[1], b[2], b[3]),
        u16_from_be(b[4], b[5]),
        u16_from_be(b[6], b[7]),
        b.subrange(8, 16),
    )
}

/// Relies on uuid's `Uuid::from_fields` and `Uuid::into_bytes`: the fields are
/// laid out big-endian, the tail as given.
#[verifier::external_body]
fn bytes_from_fields(d1: u32, d2: u16, d3: u16, d4: [u8; 8]) -> (r: [u8; 16])
    ensures
        r@ == canonical_bytes((d1, d2, d3, d4@)),
{
    ::uuid::Uuid::from_fields(d1, d2, d3, &d4).into_bytes()
}

/// Relies on uuid's `Uuid::from_bytes` and `Uuid::as_fields`: the integer
/// fields are read big-endian, the tail is the last eight bytes.
#[verifier::external_body]
fn fields_from_bytes(b: [u8; 16]) -> (r: (u32, u16, u16, [u8; 8]))
    ensures
        (r.0, r.1, r.2, r.3@) == native_fields(b@),
{
    let id = ::uuid::Uuid::from_bytes(b);
    let (d1, d2, d3, d4) = id.as_fields();
    (d1, d2, d3, *d4)
}

/// Converts a native identifier to the canonical one with the same bit pattern.
pub fn to_uuid(uuid: &Guid) -> (r: Uuid)
    ensures
        r@ == canonical_bytes(uuid@),
{
    Uuid { bytes: bytes_from_fields(uuid.data1, uuid.data2, uuid.data3, uuid.data4) }
}

/// Splits a canonical identifier into the native fields.
pub fn to_guid(uuid: &Uuid) -> (r: Guid)
    ensures
        r@ == native_fields(uuid@),
{
    let (data1, data2, data3, data4) = fields_from_bytes(uuid.bytes);
    Guid { data1, data2, data3, data4 }
}

/// Reading the native fields back from the standard bytes of a native
/// identifier gives that identifier again.
pub proof fn lemma_native_round_trip(g: Guid)
    ensures
        native_fields(canonical_bytes(g@)) == g@,
{
    let (d1, d2, d3) = (g.data1, g.data2, g.data3);
    assert(u32_from_be((d1 >> 24u32) as u8, (d1 >> 16u32) as u8, (d1 >> 8u32) as u8, d1 as u8)
        == d1) by (bit_vector);
    assert(u16_from_be((d2 >> 8u16) as u8, d2 as u8) == d2) by (bit_vector);
    assert(u16_from_be((d3 >> 8u16) as u8, d3 as u8) == d3) by (bit_vector);
    let b = canonical_bytes(g@);
    assert(b.subrange(8, 16) =~= g.data4@);
}

/// Laying out the native fields of a canonical identifier in standard order
/// gives its bytes again.
pub proof fn lemma_canonical_round_trip(u: Uuid)
    ensures
        canonical_bytes(native_fields(u@)) == u@,
{
    let b = u@;
    let (b0, b1, b2, b3, b4, b5, b6, b7) = (b[0], b[1], b[2], b[3], b[4], b[5], b[6], b[7]);
    let d1 = u32_from_be(b0, b1, b2, b3);
    let d2 = u16_from_be(b4, b5);
    let d3 = u16_from_be(b6, b7);
    assert((d1 >> 24u32) as u8 == b0 && (d1 >> 16u32) as u8 == b1 && (d1 >> 8u32) as u8 == b2
        && d1 as u8 == b3) by (bit_vector)
        requires
            d1 == (b0 as u32) << 24u32 | (b1 as u32) << 16u32 | (b2 as u32) << 8u32 | (b3 as u32),
    ;
    assert((d2 >> 8u16) as u8 == b4 && d2 as u8 == b5) by (bit_vector)
        requires
            d2 == (b4 as u16) << 8u16 | (b5 as u16),
    ;
    assert((d3 >> 8u16) as u8 == b6 && d3 as u8 == b7) by (bit_vector)
        requires
            d3 == (b6 as u16) << 8u16 | (b7 as u16),
    ;
    assert(canonical_bytes(native_fields(b)) =~= b);
}

} // verus!
