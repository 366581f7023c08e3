use vstd::prelude::*;
use crate::encoding::{decimal, decimal_text, encode_hex, hex_encoded};

verus! {

/// One output of one transaction: the transaction's id in its internal byte
/// order, and the output's index.
#[derive(Clone, Copy, Debug)]
pub struct OutPoint {
    pub txid: [u8; 32],
    pub vout: u32,
}

/// The place of one inscribed unit: an output and an offset into its value.
#[derive(Clone, Copy, Debug)]
pub struct SatPoint {
    pub outpoint: OutPoint,
    pub offset: u64,
}

/// An inscription, named by the transaction that made it and its index there.
#[derive(Clone, Copy, Debug)]
pub struct InscriptionId {
    pub txid: [u8; 32],
    pub index: u32,
}

/// Whether `a` and `b` name the same output.
pub open spec fn same_outpoint(a: OutPoint, b: OutPoint) -> bool {
    a.txid@ == b.txid@ && a.vout == b.vout
}

/// A transaction id as it is shown: the bytes in reverse order, in lower-case
/// hexadecimal.
pub open spec fn txid_text(txid: Seq<u8>) -> Seq<char> {
    hex_encoded(txid.reverse())
}

/// The canonical text of an inscription id: `<txid>i<index>`.
pub open spec fn inscription_text(id: InscriptionId) -> Seq<char> {
    txid_text(id.txid@) + "i"@ + decimal(id.index as nat)
}

impl OutPoint {
    /// Whether `self` and `other` name the same output.
    pub fn same_as(&self, other: &OutPoint) -> (r: bool)
        ensures
            r == same_outpoint(*self, *other),
    {
        if self.vout != other.vout {
            return false;
        }
        let mut i: usize = 0;
        while i < 32
            invariant
                i <= 32,
                forall|j: int| 0 <= j < i ==> self.txid@[j] == other.txid@[j],
            decreases 32 - i,
        {
            if self.txid[i] != other.txid[i] {
                return false;
            }
            i = i + 1;
        }
        assert(self.txid@ =~= other.txid@);
        true
    }
}

impl InscriptionId {
    /// The canonical text of the id: `<txid>i<index>`.
    pub fn to_string(&self) -> (r: String)
        ensures
            r@ == inscription_text(*self),
    {
        let mut shown: Vec<u8> = Vec::new();
        let mut i: usize = 0;
        while i < 32
            invariant
                i <= 32,
                shown@.len() == i,
                forall|j: int| 0 <= j < i ==> shown@[j] == self.txid@[31 - j],
            decreases 32 - i,
        {
            shown.push(self.txid[31 - i]);
            i = i + 1;
        }
        assert(shown@ =~= self.txid@.reverse());
        let mut text: String = encode_hex(shown.as_slice());
        text.append("i");
        let index: String = decimal_text(self.index);
        text.append(index.as_str());
        text
    }
}

} // verus!
