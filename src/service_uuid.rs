//! Service and characteristic UUIDs, and their short Bluetooth forms.
use vstd::prelude::*;

verus! {

/// A 128-bit UUID, held as its big-endian integer value.
#[derive(Clone, Copy, Debug, PartialEq, Eq, Structural, Hash)]
pub struct Uuid {
    pub value: u128,
}

/// The Bluetooth base UUID `00000000-0000-1000-8000-00805f9b34fb`, into which
/// 16- and 32-bit UUIDs are expanded.
pub const BLUETOOTH_BASE_UUID: u128 = 0x0000_0000_0000_1000_8000_0080_5f9b_34fb;

/// The distance between two consecutive short UUIDs: `2^96`.
pub const SHORT_UUID_STEP: u128 = 0x1_0000_0000_0000_0000_0000_0000;

/// The 128-bit value of the short (16- or 32-bit) UUID `v`.
pub open spec fn short_uuid_value(v: nat) -> nat {
    BLUETOOTH_BASE_UUID as nat + v * SHORT_UUID_STEP as nat
}

/// The lower-case hyphenated text of the UUID with value `v`.
pub uninterp spec fn hyphenated_text(v: u128) -> Seq<char>;

/// Relies on `uuid::Uuid::hyphenated` and its `Display`: the text depends on
/// the value alone.
#[verifier::external_body]
fn hyphenated(v: u128) -> (r: String)
    ensures
        r@ == hyphenated_text(v),
{
    ::uuid::Uuid::from_u128(v).hyphenated().to_string()
}

impl Uuid {
    pub fn from_u128(v: u128) -> (r: Uuid)
        ensures
            r.value == v,
    {
        Uuid { value: v }
    }

    pub fn as_u128(&self) -> (r: u128)
        ensures
            r == self.value,
    {
        self.value
    }

    /// Expands a 16-bit Bluetooth UUID with the base UUID.
    pub fn from_u16(v: u16) -> (r: Uuid)
        ensures
            r.value as nat == short_uuid_value(v as nat),
    {
        Uuid::from_u32(v as u32)
    }

    /// Expands a 32-bit Bluetooth UUID with the base UUID.
    pub fn from_u32(v: u32) -> (r: Uuid)
        ensures
            r.value as nat == short_uuid_value(v as nat),
    {
        proof {
            assert((v as nat) * (SHORT_UUID_STEP as nat) <= 0xffff_ffff * (SHORT_UUID_STEP as nat))
                by (nonlinear_arith)
                requires
                    v as nat <= 0xffff_ffff,
            ;
        }
        Uuid { value: BLUETOOTH_BASE_UUID + (v as u128) * SHORT_UUID_STEP }
    }

    /// The lower-case hyphenated form, `xxxxxxxx-xxxx-xxxx-xxxx-xxxxxxxxxxxx`.
    pub fn to_hyphenated_string(&self) -> (r: String)
        ensures
            r@ == hyphenated_text(self.value),
    {
        hyphenated(self.value)
    }
}

} // verus!
