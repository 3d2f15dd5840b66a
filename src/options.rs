use vstd::prelude::*;

use crate::address::Address;
use crate::error::SolTradeError;

verus! {

/// The unsigned integer that `b` spells with its least significant byte first.
pub open spec fn le_value(b: Seq<u8>) -> nat
    decreases b.len(),
{
    if b.len() == 0 {
        0
    } else {
        b[0] as nat + 256 * le_value(b.drop_first())
    }
}

pub proof fn lemma_le_value_bound(b: Seq<u8>)
    ensures
        le_value(b) < pow256(b.len()),
    decreases b.len(),
{
    if b.len() > 0 {
        lemma_le_value_bound(b.drop_first());
        assert(pow256(b.len()) == 256 * pow256((b.len() - 1) as nat));
    }
}

/// 256 raised to `n`.
pub open spec fn pow256(n: nat) -> nat
    decreases n,
{
    if n == 0 {
        1
    } else {
        256 * pow256((n - 1) as nat)
    }
}

/// The two strings that a borsh encoding of a pair of strings holds, or
/// `None` where the bytes are no such encoding.
pub uninterp spec fn borsh_string_pair(b: Seq<u8>) -> Option<(Seq<char>, Seq<char>)>;

/// The 32 key bytes that base58 text decodes to, or `None` where it does not
/// decode to exactly 32 bytes.
pub uninterp spec fn base58_key(s: Seq<char>) -> Option<Seq<u8>>;

/// Relies on borsh's `u64::try_from_slice`: eight bytes read little-endian,
/// and an error on input of any other length.
#[verifier::external_body]
fn borsh_u64(bytes: &[u8]) -> (r: Option<u64>)
    ensures
        r == (if bytes@.len() == 8 {
            Some(le_value(bytes@) as u64)
        } else {
            None
        }),
{
    <u64 as borsh::BorshDeserialize>::try_from_slice(bytes).ok()
}

/// Relies on borsh's `<(String, String)>::try_from_slice`: two strings, each
/// a little-endian `u32` length and that many UTF-8 bytes, filling the input.
#[verifier::external_body]
fn borsh_strings(bytes: &[u8]) -> (r: Option<(String, String)>)
    ensures
        match r {
            Some(p) => borsh_string_pair(bytes@) == Some((p.0@, p.1@)),
            None => borsh_string_pair(bytes@).is_none(),
        },
        bytes@.len() < 8 ==> r.is_none(),
{
    <(String, String) as borsh::BorshDeserialize>::try_from_slice(bytes).ok()
}

/// Relies on solana_program's `Pubkey::from_str`: base58 text of a 32-byte key.
#[verifier::external_body]
fn parse_key(s: &str) -> (r: Option<Address>)
    ensures
        match r {
            Some(a) => base58_key(s@) == Some(a.bytes@),
            None => base58_key(s@).is_none(),
        },
{
    <solana_program::pubkey::Pubkey as std::str::FromStr>::from_str(s).ok().map(
        |k| Address::new(k.to_bytes()),
    )
}

/// The options of a native-currency deposit.
#[derive(Clone, Copy, Debug)]
pub struct OptionsAssetItemSOL {
    pub amount: u64,
}

impl OptionsAssetItemSOL {
    /// Decodes the eight-byte little-endian amount.
    pub fn try_from_slice(bytes: &[u8]) -> (r: Result<OptionsAssetItemSOL, SolTradeError>)
        ensures
            match r {
                Ok(o) => bytes@.len() == 8 && o.amount == le_value(bytes@),
                Err(e) => bytes@.len() != 8 && e == SolTradeError::AddAssetItemInvalidOptions,
            },
    {
        proof {
            lemma_le_value_bound(bytes@);
            reveal_with_fuel(pow256, 9);
            assert(pow256(8) == 0x1_0000_0000_0000_0000);
        }
        match borsh_u64(bytes) {
            Some(amount) => Ok(OptionsAssetItemSOL { amount }),
            None => Err(SolTradeError::AddAssetItemInvalidOptions),
        }
    }
}

/// The options of a token deposit: the token account and the mint, as text.
#[derive(Clone, Debug)]
pub struct OptionsAssetItemSPL {
    pub token: String,
    pub mint: String,
}

impl OptionsAssetItemSPL {
    /// Decodes the pair of strings.
    pub fn try_from_slice(bytes: &[u8]) -> (r: Result<OptionsAssetItemSPL, SolTradeError>)
        ensures
            match r {
                Ok(o) => borsh_string_pair(bytes@) == Some((o.token@, o.mint@)),
                Err(e) => borsh_string_pair(bytes@).is_none()
                    && e == SolTradeError::AddAssetItemInvalidOptions,
            },
            bytes@.len() < 8 ==> r.is_err(),
    {
        match borsh_strings(bytes) {
            Some(p) => Ok(OptionsAssetItemSPL { token: p.0, mint: p.1 }),
            None => Err(SolTradeError::AddAssetItemInvalidOptions),
        }
    }

    /// The token account and the mint as keys.
    pub fn keys(&self) -> (r: Result<(Address, Address), SolTradeError>)
        ensures
            match r {
                Ok(k) => base58_key(self.token@) == Some(k.0.bytes@)
                    && base58_key(self.mint@) == Some(k.1.bytes@),
                Err(e) => (base58_key(self.token@).is_none() || base58_key(self.mint@).is_none())
                    && e == SolTradeError::AddAssetItemInvalidDataAssetItemSerialization,
            },
    {
        let token = parse_key(self.token.as_str());
        let mint = parse_key(self.mint.as_str());
        match (token, mint) {
            (Some(t), Some(m)) => Ok((t, m)),
            _ => Err(SolTradeError::AddAssetItemInvalidDataAssetItemSerialization),
        }
    }
}

} // verus!
