//! The token ledger's binary record layouts, as mathematical functions on the
//! raw account bytes. A holding record occupies exactly 165 bytes and a mint
//! record exactly 82; multi-byte integers are little-endian, and an optional
//! key is a 4-byte tag (0 or 1, little-endian) followed by the 32 key bytes.

use vstd::prelude::*;

verus! {

/// The little-endian unsigned integer held by eight bytes.
pub open spec fn le_u64(b: Seq<u8>) -> u64
    recommends
        b.len() == 8,
{
    ((b[0] as int) + (b[1] as int) * 0x100 + (b[2] as int) * 0x1_0000 + (b[3] as int) * 0x100_0000
        + (b[4] as int) * 0x1_0000_0000 + (b[5] as int) * 0x100_0000_0000 + (b[6] as int)
        * 0x1_0000_0000_0000 + (b[7] as int) * 0x100_0000_0000_0000) as u64
}

/// Whether 36 bytes are a well-formed optional key: the tag must be 0
/// (absent) or 1 (present), with its three high bytes zero.
pub open spec fn coption_key_ok(b: Seq<u8>) -> bool
    recommends
        b.len() == 36,
{
    (b[0] == 0 || b[0] == 1) && b[1] == 0 && b[2] == 0 && b[3] == 0
}

/// The optional key held by 36 well-formed bytes.
pub open spec fn coption_key_of(b: Seq<u8>) -> Option<Seq<u8>>
    recommends
        b.len() == 36,
        coption_key_ok(b),
{
    if b[0] == 1 {
        Option::Some(b.subrange(4, 36))
    } else {
        Option::None
    }
}

/// Whether 12 bytes are a well-formed optional 64-bit integer (same tag rule
/// as an optional key, followed by eight value bytes).
pub open spec fn coption_u64_ok(b: Seq<u8>) -> bool
    recommends
        b.len() == 12,
{
    (b[0] == 0 || b[0] == 1) && b[1] == 0 && b[2] == 0 && b[3] == 0
}

/// Whether raw account bytes deserialize as an initialized token holding
/// record: 165 bytes, well-formed optional fields, and a state byte that is a
/// known state (1 initialized, 2 frozen) other than uninitialized (0).
pub open spec fn token_account_valid(b: Seq<u8>) -> bool {
    &&& b.len() == 165
    &&& coption_key_ok(b.subrange(72, 108))
    &&& (b[108] == 1 || b[108] == 2)
    &&& coption_u64_ok(b.subrange(109, 121))
    &&& coption_key_ok(b.subrange(129, 165))
}

/// The mint reference recorded by a token holding record.
pub open spec fn token_account_mint(b: Seq<u8>) -> Seq<u8> {
    b.subrange(0, 32)
}

/// The owner recorded by a token holding record.
pub open spec fn token_account_owner(b: Seq<u8>) -> Seq<u8> {
    b.subrange(32, 64)
}

/// The held amount recorded by a token holding record.
pub open spec fn token_account_amount(b: Seq<u8>) -> u64 {
    le_u64(b.subrange(64, 72))
}

/// Whether raw account bytes deserialize as an initialized mint record: 82
/// bytes, well-formed optional authorities, and the initialized byte set to 1.
pub open spec fn mint_account_valid(b: Seq<u8>) -> bool {
    &&& b.len() == 82
    &&& coption_key_ok(b.subrange(0, 36))
    &&& b[45] == 1
    &&& coption_key_ok(b.subrange(46, 82))
}

/// The minting authority recorded by a mint record, if one is still set.
pub open spec fn mint_account_mint_authority(b: Seq<u8>) -> Option<Seq<u8>> {
    coption_key_of(b.subrange(0, 36))
}

/// The total supply recorded by a mint record.
pub open spec fn mint_account_supply(b: Seq<u8>) -> u64 {
    le_u64(b.subrange(36, 44))
}

/// The divisibility (decimal places) recorded by a mint record.
pub open spec fn mint_account_decimals(b: Seq<u8>) -> u8 {
    b[44]
}

/// The freeze authority recorded by a mint record, if one is set.
pub open spec fn mint_account_freeze_authority(b: Seq<u8>) -> Option<Seq<u8>> {
    coption_key_of(b.subrange(46, 82))
}

} // verus!
