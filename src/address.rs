use vstd::prelude::*;
use crate::chain::Chain;

verus! {

/// `bitcoin::Address`, carried through unread.
#[verifier::external_type_specification]
#[verifier::external_body]
pub struct ExAddress(bitcoin::Address);

/// `bitcoin::util::address::Error`, carried through unread.
#[verifier::external_type_specification]
#[verifier::external_body]
pub struct ExAddressError(bitcoin::util::address::Error);

/// Whether `s` pays to a public key hash: `OP_DUP OP_HASH160 <20 bytes>
/// OP_EQUALVERIFY OP_CHECKSIG`.
pub open spec fn is_p2pkh(s: Seq<u8>) -> bool {
    s.len() == 25 && s[0] == 0x76 && s[1] == 0xa9 && s[2] == 0x14 && s[23] == 0x88 && s[24] == 0xac
}

/// Whether `s` pays to a script hash: `OP_HASH160 <20 bytes> OP_EQUAL`.
pub open spec fn is_p2sh(s: Seq<u8>) -> bool {
    s.len() == 23 && s[0] == 0xa9 && s[1] == 0x14 && s[22] == 0x87
}

/// Whether `s` is a witness program: a version opcode (`OP_0` or `OP_1` to
/// `OP_16`) and one push of 2 to 40 bytes that ends the script.
pub open spec fn is_witness_program(s: Seq<u8>) -> bool {
    4 <= s.len() <= 42 && (s[0] == 0 || (0x51 <= s[0] && s[0] <= 0x60)) && 2 <= s[1] <= 40
        && s.len() - 2 == s[1]
}

/// Whether `s` is a version 0 witness program whose length fits neither a key
/// hash nor a script hash.
pub open spec fn is_bad_v0_program(s: Seq<u8>) -> bool {
    is_witness_program(s) && s[0] == 0 && s.len() != 22 && s.len() != 34
}

/// Whether the locking script `s` has an address.
pub open spec fn has_address(s: Seq<u8>) -> bool {
    is_p2pkh(s) || is_p2sh(s) || (is_witness_program(s) && !is_bad_v0_program(s))
}

/// Why a locking script has no address.
#[derive(Clone, Copy, Debug, PartialEq, Eq, Structural)]
pub enum AddressError {
    /// A version 0 witness program whose program has this length, which is
    /// neither 20 nor 32.
    InvalidSegwitV0ProgramLength(usize),
    /// A script of no pattern that an address can stand for.
    UnrecognizedScript,
}

/// Relies on `bitcoin::Address::from_script`: it succeeds on a pay to key
/// hash or script hash script and on a witness program, but for a version 0
/// one of a length other than 22 or 34 bytes.
#[verifier::external_body]
fn address_of_script(script: &[u8], network: bitcoin::Network) -> (r: Result<
    bitcoin::Address,
    bitcoin::util::address::Error,
>)
    ensures
        r is Ok <==> has_address(script@),
{
    bitcoin::Address::from_script(&bitcoin::Script::from(script.to_vec()), network)
}

fn p2pkh(s: &[u8]) -> (r: bool)
    ensures
        r == is_p2pkh(s@),
{
    s.len() == 25 && s[0] == 0x76 && s[1] == 0xa9 && s[2] == 0x14 && s[23] == 0x88 && s[24] == 0xac
}

fn p2sh(s: &[u8]) -> (r: bool)
    ensures
        r == is_p2sh(s@),
{
    s.len() == 23 && s[0] == 0xa9 && s[1] == 0x14 && s[22] == 0x87
}

fn witness_program(s: &[u8]) -> (r: bool)
    ensures
        r == is_witness_program(s@),
{
    4 <= s.len() && s.len() <= 42 && (s[0] == 0 || (0x51 <= s[0] && s[0] <= 0x60)) && 2 <= s[1]
        && s[1] <= 40 && s.len() - 2 == s[1] as usize
}

impl Chain {
    /// The address that the locking script `script` pays to on this chain.
    pub fn address_from_script(self, script: &[u8]) -> (r: Result<bitcoin::Address, AddressError>)
        ensures
            r is Ok <==> has_address(script@),
            is_bad_v0_program(script@) ==> r == Err::<bitcoin::Address, AddressError>(
                AddressError::InvalidSegwitV0ProgramLength((script@.len() - 2) as usize),
            ),
            !has_address(script@) && !is_bad_v0_program(script@) ==> r == Err::<
                bitcoin::Address,
                AddressError,
            >(AddressError::UnrecognizedScript),
    {
        match address_of_script(script, self.network()) {
            Ok(address) => Ok(address),
            Err(_) => {
                if !p2pkh(script) && !p2sh(script) && witness_program(script) && script[0] == 0 {
                    Err(AddressError::InvalidSegwitV0ProgramLength(script.len() - 2))
                } else {
                    Err(AddressError::UnrecognizedScript)
                }
            },
        }
    }
}

} // verus!
