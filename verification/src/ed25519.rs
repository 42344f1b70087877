//! The wire format of the signature-verification program's instruction data,
//! and a verified unpacker for it.
//!
//! The data starts with a one-byte record count and one byte of padding,
//! followed by one 14-byte offsets entry per record: seven little-endian
//! 16-bit fields giving the signature offset and instruction index, the
//! public-key offset and instruction index, and the message offset, size and
//! instruction index. An instruction index of 0xFFFF refers to the carrying
//! instruction itself; only then can the component be read out of this data,
//! and a record is verifiable on its own exactly when all three components
//! are embedded here.

use vstd::prelude::*;

use crate::bytes::{bytes_range, read_u16_le, u16_le_at};
use crate::error::DiceError;

verus! {

/// The instruction index that refers to the carrying instruction itself.
pub const CURRENT_INSTRUCTION: u16 = 0xFFFF;

/// Bytes of one offsets entry.
pub const OFFSETS_ENTRY_LEN: usize = 14;

/// Bytes before the first offsets entry: the count and one byte of padding.
pub const OFFSETS_START: usize = 2;

/// Bytes of an embedded public key.
pub const PUBKEY_SERIALIZED_LEN: usize = 32;

/// Bytes of an embedded signature.
pub const SIGNATURE_SERIALIZED_LEN: usize = 64;

/// One signature record as unpacked from the instruction data.
#[derive(Debug)]
pub struct Ed25519SignatureRecord {
    /// Whether every component of the record is embedded in the carrying
    /// instruction, so the record can be checked on its own.
    pub is_verifiable: bool,
    /// The signer's public key, when embedded here.
    pub public_key: Option<Vec<u8>>,
    /// The signature bytes, when embedded here.
    pub signature: Option<Vec<u8>>,
    /// The signed message bytes, when embedded here.
    pub message: Option<Vec<u8>>,
}

/// The mathematical form of one unpacked signature record.
pub struct Ed25519RecordView {
    pub is_verifiable: bool,
    pub public_key: Option<Seq<u8>>,
    pub signature: Option<Seq<u8>>,
    pub message: Option<Seq<u8>>,
}

impl View for Ed25519SignatureRecord {
    type V = Ed25519RecordView;

    open spec fn view(&self) -> Ed25519RecordView {
        Ed25519RecordView {
            is_verifiable: self.is_verifiable,
            public_key: match self.public_key {
                Some(pk) => Some(pk@),
                None => None,
            },
            signature: match self.signature {
                Some(sg) => Some(sg@),
                None => None,
            },
            message: match self.message {
                Some(m) => Some(m@),
                None => None,
            },
        }
    }
}

/// How many records the data declares.
pub open spec fn sig_count(data: Seq<u8>) -> int {
    data[0] as int
}

/// Whether the data is long enough for its count and all offsets entries.
pub open spec fn unpack_wf(data: Seq<u8>) -> bool {
    &&& data.len() >= OFFSETS_START
    &&& data.len() >= OFFSETS_START + OFFSETS_ENTRY_LEN * sig_count(data)
}

/// The public key of entry `i`, when its offsets place it inside this data.
pub open spec fn record_public_key_at(data: Seq<u8>, i: int) -> Option<Seq<u8>> {
    let base = OFFSETS_START + OFFSETS_ENTRY_LEN * i;
    let off = u16_le_at(data, base + 4);
    if u16_le_at(data, base + 6) == CURRENT_INSTRUCTION && off + PUBKEY_SERIALIZED_LEN
        <= data.len() {
        Some(data.subrange(off, off + PUBKEY_SERIALIZED_LEN))
    } else {
        None
    }
}

/// The signature of entry `i`, when its offsets place it inside this data.
pub open spec fn record_signature_at(data: Seq<u8>, i: int) -> Option<Seq<u8>> {
    let base = OFFSETS_START + OFFSETS_ENTRY_LEN * i;
    let off = u16_le_at(data, base);
    if u16_le_at(data, base + 2) == CURRENT_INSTRUCTION && off + SIGNATURE_SERIALIZED_LEN
        <= data.len() {
        Some(data.subrange(off, off + SIGNATURE_SERIALIZED_LEN))
    } else {
        None
    }
}

/// The message of entry `i`, when its offsets place it inside this data.
pub open spec fn record_message_at(data: Seq<u8>, i: int) -> Option<Seq<u8>> {
    let base = OFFSETS_START + OFFSETS_ENTRY_LEN * i;
    let off = u16_le_at(data, base + 8);
    let size = u16_le_at(data, base + 10);
    if u16_le_at(data, base + 12) == CURRENT_INSTRUCTION && off + size <= data.len() {
        Some(data.subrange(off, off + size))
    } else {
        None
    }
}

/// Entry `i` of the data, unpacked.
pub open spec fn record_at(data: Seq<u8>, i: int) -> Ed25519RecordView {
    let pk = record_public_key_at(data, i);
    let sg = record_signature_at(data, i);
    let mg = record_message_at(data, i);
    Ed25519RecordView {
        is_verifiable: pk is Some && sg is Some && mg is Some,
        public_key: pk,
        signature: sg,
        message: mg,
    }
}

/// What unpacking the data yields: its records, or nothing when the data is
/// undersized for its own count.
pub open spec fn unpack_spec(data: Seq<u8>) -> Option<Seq<Ed25519RecordView>> {
    if unpack_wf(data) {
        Some(Seq::new(sig_count(data) as nat, |i: int| record_at(data, i)))
    } else {
        None
    }
}

/// Unpacks the signature records carried in the instruction data.
pub fn unpack(data: &Vec<u8>) -> (r: Result<Vec<Ed25519SignatureRecord>, DiceError>)
    ensures
        r is Ok <==> unpack_wf(data@),
        r matches Ok(v) ==> {
            &&& v@.len() == sig_count(data@)
            &&& forall|i: int| 0 <= i < v@.len() ==> #[trigger] v@[i]@ == record_at(data@, i)
        },
        r matches Err(e) ==> e == DiceError::Ed25519DataLength,
{
    let n = data.len();
    if n < OFFSETS_START {
        return Err(DiceError::Ed25519DataLength);
    }
    let count = data[0] as usize;
    if (n - OFFSETS_START) / OFFSETS_ENTRY_LEN < count {
        proof {
            assert(!unpack_wf(data@)) by (nonlinear_arith)
                requires
                    n == data@.len(),
                    n >= OFFSETS_START,
                    count == sig_count(data@),
                    (n - OFFSETS_START) / (OFFSETS_ENTRY_LEN as int) < count,
            {}
        }
        return Err(DiceError::Ed25519DataLength);
    }
    proof {
        assert(OFFSETS_START + OFFSETS_ENTRY_LEN * count <= n) by (nonlinear_arith)
            requires
                n >= OFFSETS_START,
                (n - OFFSETS_START) / (OFFSETS_ENTRY_LEN as int) >= count,
                count >= 0,
            {}
    }
    let mut out: Vec<Ed25519SignatureRecord> = Vec::new();
    let mut i: usize = 0;
    while i < count
        invariant
            n == data@.len(),
            count == sig_count(data@),
            OFFSETS_START + OFFSETS_ENTRY_LEN * count <= n,
            unpack_wf(data@),
            i <= count,
            out@.len() == i,
            forall|j: int| 0 <= j < i ==> #[trigger] out@[j]@ == record_at(data@, j),
        decreases count - i,
    {
        proof {
            assert(OFFSETS_START + OFFSETS_ENTRY_LEN * i + OFFSETS_ENTRY_LEN <= n)
                by (nonlinear_arith)
                requires
                    OFFSETS_START + OFFSETS_ENTRY_LEN * count <= n,
                    0 <= i < count,
            {}
        }
        let base = OFFSETS_START + OFFSETS_ENTRY_LEN * i;
        let sig_off = read_u16_le(data, base) as usize;
        let sig_ix = read_u16_le(data, base + 2);
        let pk_off = read_u16_le(data, base + 4) as usize;
        let pk_ix = read_u16_le(data, base + 6);
        let msg_off = read_u16_le(data, base + 8) as usize;
        let msg_size = read_u16_le(data, base + 10) as usize;
        let msg_ix = read_u16_le(data, base + 12);

        let public_key: Option<Vec<u8>> = if pk_ix == CURRENT_INSTRUCTION && pk_off
            + PUBKEY_SERIALIZED_LEN <= n {
            Some(bytes_range(data, pk_off, PUBKEY_SERIALIZED_LEN))
        } else {
            None
        };
        let signature: Option<Vec<u8>> = if sig_ix == CURRENT_INSTRUCTION && sig_off
            + SIGNATURE_SERIALIZED_LEN <= n {
            Some(bytes_range(data, sig_off, SIGNATURE_SERIALIZED_LEN))
        } else {
            None
        };
        let message: Option<Vec<u8>> = if msg_ix == CURRENT_INSTRUCTION && msg_off + msg_size
            <= n {
            Some(bytes_range(data, msg_off, msg_size))
        } else {
            None
        };
        let is_verifiable = public_key.is_some() && signature.is_some() && message.is_some();
        let record = Ed25519SignatureRecord { is_verifiable, public_key, signature, message };
        proof {
            assert(record@ == record_at(data@, i as int));
        }
        out.push(record);
        i = i + 1;
    }
    Ok(out)
}

} // verus!
