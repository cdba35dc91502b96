use vstd::prelude::*;

verus! {

// Native characteristic property bits.
pub const GATT_BROADCAST: u32 = 0x1;
pub const GATT_READ: u32 = 0x2;
pub const GATT_WRITE_WITHOUT_RESPONSE: u32 = 0x4;
pub const GATT_WRITE: u32 = 0x8;
pub const GATT_NOTIFY: u32 = 0x10;
pub const GATT_INDICATE: u32 = 0x20;
pub const GATT_AUTHENTICATED_SIGNED_WRITES: u32 = 0x40;
pub const GATT_EXTENDED_PROPERTIES: u32 = 0x80;
pub const GATT_RELIABLE_WRITES: u32 = 0x100;
pub const GATT_WRITABLE_AUXILIARIES: u32 = 0x200;

/// Every native property bit.
pub const GATT_ALL: u32 = 0x3ff;

// Canonical characteristic capability flags, at the same positions.
pub const BROADCAST: u8 = 0x1;
pub const READ: u8 = 0x2;
pub const WRITE_WITHOUT_RESPONSE: u8 = 0x4;
pub const WRITE: u8 = 0x8;
pub const NOTIFY: u8 = 0x10;
pub const INDICATE: u8 = 0x20;
pub const AUTHENTICATED_SIGNED_WRITES: u8 = 0x40;
pub const EXTENDED_PROPERTIES: u8 = 0x80;

/// Every canonical capability flag.
pub const ALL_FLAGS: u8 = 0xff;

/// A native bitmask of characteristic properties.
#[derive(Debug, Clone, Copy, PartialEq, Eq, Structural)]
pub struct GattCharacteristicProperties {
    pub bits: u32,
}

/// A set of canonical characteristic capabilities, one bit per capability.
#[derive(Debug, Clone, Copy, PartialEq, Eq, Structural)]
pub struct CharPropFlags {
    pub bits: u8,
}

impl CharPropFlags {
    /// Whether every flag of `flag` is in this set.
    pub fn contains(&self, flag: u8) -> (r: bool)
        ensures
            r == (self.bits & flag == flag),
    {
        self.bits & flag == flag
    }
}

/// The canonical flags of a native bitmask. The eight canonical flags share
/// their bit positions with the first eight native properties; the native
/// properties above them have no canonical counterpart.
pub open spec fn flags_of(native: u32) -> u8 {
    (native & 0xffu32) as u8
}

/// `flag` when `native` has the property bit `property`, and no flag otherwise.
fn flag_if(native: u32, property: u32, flag: u8) -> (r: u8)
    ensures
        r == (if native & property != 0 { flag } else { 0u8 }),
{
    if native & property != 0 {
        flag
    } else {
        0
    }
}

/// Translates a native property bitmask into canonical capability flags,
/// testing each native property in turn.
pub fn to_char_props(props: &GattCharacteristicProperties) -> (r: CharPropFlags)
    ensures
        r.bits == flags_of(props.bits),
{
    let p = props.bits;
    let f0 = flag_if(p, GATT_BROADCAST, BROADCAST);
    let f1 = flag_if(p, GATT_READ, READ);
    let f2 = flag_if(p, GATT_WRITE_WITHOUT_RESPONSE, WRITE_WITHOUT_RESPONSE);
    let f3 = flag_if(p, GATT_WRITE, WRITE);
    let f4 = flag_if(p, GATT_NOTIFY, NOTIFY);
    let f5 = flag_if(p, GATT_INDICATE, INDICATE);
    let f6 = flag_if(p, GATT_AUTHENTICATED_SIGNED_WRITES, AUTHENTICATED_SIGNED_WRITES);
    let f7 = flag_if(p, GATT_EXTENDED_PROPERTIES, EXTENDED_PROPERTIES);
    let bits = f0 | f1 | f2 | f3 | f4 | f5 | f6 | f7;
    assert(bits == (p & 0xffu32) as u8) by (bit_vector)
        requires
            f0 == (if p & 0x1u32 != 0 { 0x1u8 } else { 0u8 }),
            f1 == (if p & 0x2u32 != 0 { 0x2u8 } else { 0u8 }),
            f2 == (if p & 0x4u32 != 0 { 0x4u8 } else { 0u8 }),
            f3 == (if p & 0x8u32 != 0 { 0x8u8 } else { 0u8 }),
            f4 == (if p & 0x10u32 != 0 { 0x10u8 } else { 0u8 }),
            f5 == (if p & 0x20u32 != 0 { 0x20u8 } else { 0u8 }),
            f6 == (if p & 0x40u32 != 0 { 0x40u8 } else { 0u8 }),
            f7 == (if p & 0x80u32 != 0 { 0x80u8 } else { 0u8 }),
            bits == f0 | f1 | f2 | f3 | f4 | f5 | f6 | f7,
    ;
    CharPropFlags { bits }
}

/// Each of the first eight native property bits, alone, gives exactly the
/// canonical flag at its position; each native bit above them gives no flag.
pub proof fn lemma_single_property(k: u32)
    requires
        k < 32,
    ensures
        k < 8 ==> flags_of(1u32 << k) == 1u8 << (k as u8),
        k >= 8 ==> flags_of(1u32 << k) == 0,
{
    let kb = k as u8;
    assert(k < 8 ==> ((1u32 << k) & 0xffu32) as u8 == 1u8 << kb) by (bit_vector)
        requires
            k < 32,
            kb == k as u8,
    ;
    assert(k >= 8 ==> ((1u32 << k) & 0xffu32) as u8 == 0) by (bit_vector)
        requires
            k < 32,
    ;
}

/// Every native property together gives every canonical flag.
pub proof fn lemma_all_properties()
    ensures
        flags_of(GATT_ALL) == ALL_FLAGS,
{
    assert((0x3ffu32 & 0xffu32) as u8 == 0xffu8) by (bit_vector);
}

} // verus!
