use vstd::prelude::*;
use crate::chain::Chain;
use crate::encoding::{decode_hex, hex_decoded, is_hex_text};

verus! {

/// `bitcoin::Block`, carried through unread.
#[verifier::external_type_specification]
#[verifier::external_body]
pub struct ExBlock(bitcoin::Block);

/// `bitcoin::consensus::encode::Error`, carried through unread.
#[verifier::external_type_specification]
#[verifier::external_body]
pub struct ExEncodeError(bitcoin::consensus::encode::Error);

/// The main network's genesis block in wire format, as hexadecimal text.
pub const MAINNET_GENESIS_HEX: &'static str = "0100000000000000000000000000000000000000000000000000000000000000000000006159e26e6bcfbb78b4308944c811ef090579427d0fc0a3788a70e241974546d677e15167f0ff0f1e089b00000101000000010000000000000000000000000000000000000000000000000000000000000000ffffffff2604ffff001d01041e30352f31322f32303234202d205468697320697320466c6f70636f696e2effffffff010058850c02000000434104a5c56a22caf4b1c8917f8a261a83efe5885526d05ad0cb7e9fc7d000d04085e225e578d8f899d3d9811f39f2e7c2c7322c8a070fd757e0c935dd6c35fc8c66ccac00000000";

/// The regression test network's genesis block in wire format, as hexadecimal text.
pub const REGTEST_GENESIS_HEX: &'static str = "0100000000000000000000000000000000000000000000000000000000000000000000006159e26e6bcfbb78b4308944c811ef090579427d0fc0a3788a70e241974546d677e15167f0ff0f1e089b00000101000000010000000000000000000000000000000000000000000000000000000000000000ffffffff2604ffff001d01041e30352f31322f32303234202d205468697320697320466c6f70636f696e2effffffff010058850c02000000434104a5c56a22caf4b1c8917f8a261a83efe5885526d05ad0cb7e9fc7d000d04085e225e578d8f899d3d9811f39f2e7c2c7322c8a070fd757e0c935dd6c35fc8c66ccac00000000";

/// The signet's genesis block in wire format, as hexadecimal text.
pub const SIGNET_GENESIS_HEX: &'static str = "010000000000000000000000000000000000000000000000000000000000000000000000696ad20e2dd4365c7459b4a4a5af743d5e92c6da3229e6532cd605f6533f2a5bb9a7f052f0ff0f1ef7390f000101000000010000000000000000000000000000000000000000000000000000000000000000ffffffff1004ffff001d0104084e696e746f6e646fffffffff010058850c020000004341040184710fa689ad5023690c80f3a49c8f13f8d45b8c857fbcbc8bc4a8e4d3eb4b10f4d4604fa08dce601aaf0f470216fe1b51850b4acf21b179c45070ac7b03a9ac00000000";

/// The test network's genesis block in wire format, as hexadecimal text.
pub const TESTNET_GENESIS_HEX: &'static str = "0100000000000000000000000000000000000000000000000000000000000000000000006159e26e6bcfbb78b4308944c811ef090579427d0fc0a3788a70e241974546d677e15167f0ff0f1e089b00000101000000010000000000000000000000000000000000000000000000000000000000000000ffffffff2604ffff001d01041e30352f31322f32303234202d205468697320697320466c6f70636f696e2effffffff010058850c02000000434104a5c56a22caf4b1c8917f8a261a83efe5885526d05ad0cb7e9fc7d000d04085e225e578d8f899d3d9811f39f2e7c2c7322c8a070fd757e0c935dd6c35fc8c66ccac00000000";

/// Whether `bytes` are exactly one block in the chain's wire format.
pub uninterp spec fn block_decodes(bytes: Seq<u8>) -> bool;

/// Relies on `bitcoin::consensus::deserialize` for `Block`: it succeeds exactly
/// when the bytes hold one block and nothing after it, which depends on the
/// bytes alone.
#[verifier::external_body]
fn deserialize_block(bytes: &[u8]) -> (r: Result<bitcoin::Block, bitcoin::consensus::encode::Error>)
    ensures
        r is Ok <==> block_decodes(bytes@),
{
    bitcoin::consensus::deserialize(bytes)
}

/// Why an embedded genesis block could not be read.
#[derive(Clone, Copy, Debug, PartialEq, Eq, Structural)]
pub enum GenesisError {
    /// The text is not a whole number of hexadecimal digit pairs.
    MalformedHex,
    /// The bytes are not one block in the wire format.
    MalformedBlock,
}

/// Whether the hexadecimal text `hex` spells one block.
pub open spec fn genesis_decodes(hex: Seq<char>) -> bool {
    is_hex_text(hex) && block_decodes(hex_decoded(hex))
}

/// Reads a block from its wire format written as hexadecimal text.
pub fn decode_genesis(hex: &str) -> (r: Result<bitcoin::Block, GenesisError>)
    ensures
        r is Ok <==> genesis_decodes(hex@),
        r == Err::<bitcoin::Block, GenesisError>(GenesisError::MalformedHex) <==> !is_hex_text(hex@),
        r == Err::<bitcoin::Block, GenesisError>(GenesisError::MalformedBlock) <==> is_hex_text(hex@)
            && !block_decodes(hex_decoded(hex@)),
{
    match decode_hex(hex) {
        Err(_) => Err(GenesisError::MalformedHex),
        Ok(bytes) => match deserialize_block(bytes.as_slice()) {
            Ok(block) => Ok(block),
            Err(_) => Err(GenesisError::MalformedBlock),
        },
    }
}

impl Chain {
    /// The chain's genesis block in wire format, as hexadecimal text. Each
    /// chain has its own constant, even where two of them agree.
    pub fn genesis_hex(self) -> (r: &'static str)
        ensures
            r@ == self.spec_genesis_hex(),
    {
        match self {
            Chain::Mainnet => MAINNET_GENESIS_HEX,
            Chain::Regtest => REGTEST_GENESIS_HEX,
            Chain::Signet => SIGNET_GENESIS_HEX,
            Chain::Testnet => TESTNET_GENESIS_HEX,
        }
    }

    pub open spec fn spec_genesis_hex(self) -> Seq<char> {
        match self {
            Chain::Mainnet => MAINNET_GENESIS_HEX@,
            Chain::Regtest => REGTEST_GENESIS_HEX@,
            Chain::Signet => SIGNET_GENESIS_HEX@,
            Chain::Testnet => TESTNET_GENESIS_HEX@,
        }
    }

    /// The chain's genesis block, read from its embedded constant. An error
    /// here means that the constant itself is broken.
    pub fn genesis_block(self) -> (r: Result<bitcoin::Block, GenesisError>)
        ensures
            r is Ok <==> genesis_decodes(self.spec_genesis_hex()),
            r == Err::<bitcoin::Block, GenesisError>(GenesisError::MalformedHex) <==> !is_hex_text(
                self.spec_genesis_hex(),
            ),
    {
        decode_genesis(self.genesis_hex())
    }
}

} // verus!
