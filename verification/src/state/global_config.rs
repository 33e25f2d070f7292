use vstd::prelude::*;

use crate::constants::ANCHOR_DISCRIMINATOR;
use crate::error::ErrorCode;

verus! {

/// The launchpad's global settings: how many tokens a launch mints and
/// offers for sale, and the virtual reserves a new curve starts from.
#[derive(Clone, Copy, Debug, PartialEq, Eq, Structural)]
pub struct GlobalConfig {
    pub token_to_sell: u64,
    pub token_to_mint: u64,
    pub virtual_token_reserve: u64,
    pub virtual_sol_reserve: u64,
    pub bump: u8,
}

impl GlobalConfig {
    /// Sets the launchpad's default settings and records the account's bump.
    pub fn init_global_config(&mut self, bump: &u8) -> (r: Result<(), ErrorCode>)
        ensures
            r is Ok,
            *final(self) == (GlobalConfig {
                token_to_sell: 800_000_000,
                token_to_mint: 1_000_000_000,
                virtual_token_reserve: 800_000_000,
                virtual_sol_reserve: 30_000_000_000,
                bump: *bump,
            }),
    {
        self.token_to_sell = 800_000_000;
        self.token_to_mint = 1_000_000_000;
        self.virtual_token_reserve = 800_000_000;
        self.virtual_sol_reserve = 30_000_000_000;
        self.bump = *bump;
        Ok(())
    }

    pub fn virtual_token_reserve(&self) -> (r: u64)
        ensures
            r == self.virtual_token_reserve,
    {
        self.virtual_token_reserve
    }

    pub fn virtual_sol_reserve(&self) -> (r: u64)
        ensures
            r == self.virtual_sol_reserve,
    {
        self.virtual_sol_reserve
    }

    pub fn token_to_mint(&self) -> (r: u64)
        ensures
            r == self.token_to_mint,
    {
        self.token_to_mint
    }

    pub fn token_to_sell(&self) -> (r: u64)
        ensures
            r == self.token_to_sell,
    {
        self.token_to_sell
    }

    pub fn bump(&self) -> (r: u8)
        ensures
            r == self.bump,
    {
        self.bump
    }
}

/// The number whose little-endian encoding is the eight bytes `b`.
pub open spec fn le_u64(b: Seq<u8>) -> int {
    b[0] + 0x100 * b[1] + 0x1_0000 * b[2] + 0x100_0000 * b[3] + 0x1_0000_0000 * b[4]
        + 0x100_0000_0000 * b[5] + 0x1_0000_0000_0000 * b[6] + 0x100_0000_0000_0000 * b[7]
}

/// The eight-byte little-endian encoding of `x`.
pub open spec fn le_bytes(x: u64) -> Seq<u8> {
    seq![
        (x & 0xff) as u8,
        ((x >> 8) & 0xff) as u8,
        ((x >> 16) & 0xff) as u8,
        ((x >> 24) & 0xff) as u8,
        ((x >> 32) & 0xff) as u8,
        ((x >> 40) & 0xff) as u8,
        ((x >> 48) & 0xff) as u8,
        ((x >> 56) & 0xff) as u8,
    ]
}

/// Offset of `virtual_token_reserve` in a global-config account: the
/// discriminator, then `token_to_sell` and `token_to_mint`.
pub open spec fn virtual_token_reserve_offset() -> int {
    ANCHOR_DISCRIMINATOR + 16
}

/// Offset of `virtual_sol_reserve` in a global-config account.
pub open spec fn virtual_sol_reserve_offset() -> int {
    ANCHOR_DISCRIMINATOR + 24
}

/// The bytes of a global-config account: the discriminator, then each
/// field in declaration order, integers little-endian.
pub open spec fn config_account_data(discriminator: Seq<u8>, c: GlobalConfig) -> Seq<u8> {
    discriminator + le_bytes(c.token_to_sell) + le_bytes(c.token_to_mint) + le_bytes(
        c.virtual_token_reserve,
    ) + le_bytes(c.virtual_sol_reserve) + seq![c.bump]
}

/// Decodes the little-endian `u64` stored at `data[offset..offset + 8]`.
fn read_u64_le(data: &[u8], offset: usize) -> (r: u64)
    requires
        offset + 8 <= data@.len(),
    ensures
        r == le_u64(data@.subrange(offset as int, offset + 8)),
{
    let b0 = data[offset] as u64;
    let b1 = data[offset + 1] as u64;
    let b2 = data[offset + 2] as u64;
    let b3 = data[offset + 3] as u64;
    let b4 = data[offset + 4] as u64;
    let b5 = data[offset + 5] as u64;
    let b6 = data[offset + 6] as u64;
    let b7 = data[offset + 7] as u64;
    let r = b0 | (b1 << 8) | (b2 << 16) | (b3 << 24) | (b4 << 32) | (b5 << 40) | (b6 << 48) | (b7
        << 56);
    assert(r == b0 + 0x100 * b1 + 0x1_0000 * b2 + 0x100_0000 * b3 + 0x1_0000_0000 * b4
        + 0x100_0000_0000 * b5 + 0x1_0000_0000_0000 * b6 + 0x100_0000_0000_0000 * b7)
        by (bit_vector)
        requires
            b0 < 256,
            b1 < 256,
            b2 < 256,
            b3 < 256,
            b4 < 256,
            b5 < 256,
            b6 < 256,
            b7 < 256,
            r == b0 | (b1 << 8) | (b2 << 16) | (b3 << 24) | (b4 << 32) | (b5 << 40) | (b6 << 48)
                | (b7 << 56),
    ;
    r
}

/// Reads `virtual_token_reserve` straight from a global-config account's
/// bytes, without decoding the rest of the account.
pub fn get_virtual_token_reserve(data: &[u8]) -> (r: u64)
    requires
        data@.len() >= virtual_token_reserve_offset() + 8,
    ensures
        r == le_u64(data@.subrange(virtual_token_reserve_offset(), virtual_token_reserve_offset() + 8)),
{
    read_u64_le(data, ANCHOR_DISCRIMINATOR + 16)
}

/// Reads `virtual_sol_reserve` straight from a global-config account's
/// bytes, without decoding the rest of the account.
pub fn get_virtual_sol_reserve(data: &[u8]) -> (r: u64)
    requires
        data@.len() >= virtual_sol_reserve_offset() + 8,
    ensures
        r == le_u64(data@.subrange(virtual_sol_reserve_offset(), virtual_sol_reserve_offset() + 8)),
{
    read_u64_le(data, ANCHOR_DISCRIMINATOR + 24)
}

/// Decoding an encoded `u64` gives it back.
pub proof fn lemma_le_roundtrip(x: u64)
    ensures
        le_u64(le_bytes(x)) == x,
{
    let b = le_bytes(x);
    let b0 = (x & 0xff) as u8;
    let b1 = ((x >> 8) & 0xff) as u8;
    let b2 = ((x >> 16) & 0xff) as u8;
    let b3 = ((x >> 24) & 0xff) as u8;
    let b4 = ((x >> 32) & 0xff) as u8;
    let b5 = ((x >> 40) & 0xff) as u8;
    let b6 = ((x >> 48) & 0xff) as u8;
    let b7 = ((x >> 56) & 0xff) as u8;
    assert(x == b0 + 0x100 * b1 + 0x1_0000 * b2 + 0x100_0000 * b3 + 0x1_0000_0000 * b4
        + 0x100_0000_0000 * b5 + 0x1_0000_0000_0000 * b6 + 0x100_0000_0000_0000 * b7)
        by (bit_vector)
        requires
            b0 == (x & 0xff) as u8,
            b1 == ((x >> 8) & 0xff) as u8,
            b2 == ((x >> 16) & 0xff) as u8,
            b3 == ((x >> 24) & 0xff) as u8,
            b4 == ((x >> 32) & 0xff) as u8,
            b5 == ((x >> 40) & 0xff) as u8,
            b6 == ((x >> 48) & 0xff) as u8,
            b7 == ((x >> 56) & 0xff) as u8,
    ;
}

/// The two raw readers find the reserves where a global-config account
/// stores them: on the bytes of an account holding `c`, behind a
/// discriminator of the standard length, they return `c`'s reserves.
pub proof fn law_readers_find_stored_reserves(discriminator: Seq<u8>, c: GlobalConfig)
    requires
        discriminator.len() == ANCHOR_DISCRIMINATOR,
    ensures
        config_account_data(discriminator, c).len() >= virtual_sol_reserve_offset() + 8,
        le_u64(config_account_data(discriminator, c).subrange(virtual_token_reserve_offset(), virtual_token_reserve_offset() + 8))
            == c.virtual_token_reserve,
        le_u64(config_account_data(discriminator, c).subrange(virtual_sol_reserve_offset(), virtual_sol_reserve_offset() + 8))
            == c.virtual_sol_reserve,
{
    let d = config_account_data(discriminator, c);
    assert(d.subrange(24, 32) =~= le_bytes(c.virtual_token_reserve));
    assert(d.subrange(32, 40) =~= le_bytes(c.virtual_sol_reserve));
    lemma_le_roundtrip(c.virtual_token_reserve);
    lemma_le_roundtrip(c.virtual_sol_reserve);
}

} // verus!
