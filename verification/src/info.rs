//! Marshalling of the native device-list records: fixed-size NUL-terminated
//! text buffers, the packed vendor/product ID field, and the bounded device
//! list snapshot.

use vstd::prelude::*;
use vstd::slice::slice_index_get;
use vstd::utf8::{decode_utf8, valid_utf8};

use crate::error::D3xxError;

verus! {

/// The native device list is retrieved up to this many entries; entries
/// beyond it are not fetched.
pub const MAX_DEVICES: usize = 32;

/// The number of bytes before the first NUL of a C-style text buffer, or
/// the whole length where no NUL occurs.
pub open spec fn nul_len(bytes: Seq<u8>) -> int
    decreases bytes.len(),
{
    if bytes.len() == 0 {
        0
    } else if bytes[0] == 0 {
        0
    } else {
        1 + nul_len(bytes.drop_first())
    }
}

/// The text content of a C-style buffer: its bytes up to the first NUL.
pub open spec fn text_prefix(bytes: Seq<u8>) -> Seq<u8> {
    bytes.subrange(0, nul_len(bytes))
}

/// `nul_len` is the index of the first NUL: every byte before it is
/// non-zero, and the byte at it, when inside the buffer, is zero.
pub proof fn lemma_nul_len(bytes: Seq<u8>)
    ensures
        0 <= nul_len(bytes) <= bytes.len(),
        forall|j: int| 0 <= j < nul_len(bytes) ==> bytes[j] != 0,
        nul_len(bytes) < bytes.len() ==> bytes[nul_len(bytes)] == 0,
    decreases bytes.len(),
{
    if bytes.len() == 0 {
    } else if bytes[0] == 0 {
    } else {
        let rest = bytes.drop_first();
        lemma_nul_len(rest);
        assert forall|j: int| 0 <= j < nul_len(bytes) implies bytes[j] != 0 by {
            if j > 0 {
                assert(bytes[j] == rest[j - 1]);
            }
        }
        if nul_len(bytes) < bytes.len() {
            assert(bytes[nul_len(bytes)] == rest[nul_len(rest)]);
        }
    }
}

/// Relies on `String::from_utf8`: it succeeds exactly when the bytes are
/// valid UTF-8, and the returned string is their decoding.
#[verifier::external_body]
fn utf8_to_string(bytes: Vec<u8>) -> (r: Option<String>)
    ensures
        match r {
            Some(s) => valid_utf8(bytes@) && s@ == decode_utf8(bytes@),
            None => !valid_utf8(bytes@),
        },
{
    String::from_utf8(bytes).ok()
}

/// Decode a fixed-size C-style buffer as NUL-terminated text.
///
/// The bytes up to the first NUL (or the whole buffer, where no NUL occurs)
/// must form valid UTF-8; otherwise the generic decode error is returned.
pub fn c_str_to_string(buf: &[u8]) -> (r: Result<String, D3xxError>)
    ensures
        match r {
            Ok(s) => valid_utf8(text_prefix(buf@)) && s@ == decode_utf8(text_prefix(buf@)),
            Err(e) => e == D3xxError::OtherError && !valid_utf8(text_prefix(buf@)),
        },
{
    let len = buf.len();
    let mut i: usize = 0;
    while i < len && *slice_index_get(buf, i) != 0
        invariant
            i <= len,
            len == buf@.len(),
            forall|j: int| 0 <= j < i ==> buf@[j] != 0,
        decreases len - i,
    {
        i = i + 1;
    }
    proof {
        lemma_nul_len(buf@);
        let n = nul_len(buf@);
        if i < n {
            assert(buf@[i as int] != 0);
            assert(false);
        }
        if n < i {
            assert(buf@[n] != 0);
            assert(false);
        }
    }
    let mut prefix: Vec<u8> = Vec::new();
    let mut k: usize = 0;
    while k < i
        invariant
            k <= i,
            i <= buf@.len(),
            prefix@ == buf@.subrange(0, k as int),
        decreases i - k,
    {
        let b = *slice_index_get(buf, k);
        prefix.push(b);
        proof {
            assert(prefix@ =~= buf@.subrange(0, k + 1));
        }
        k = k + 1;
    }
    proof {
        assert(prefix@ =~= text_prefix(buf@));
    }
    match utf8_to_string(prefix) {
        Some(s) => Ok(s),
        None => Err(D3xxError::OtherError),
    }
}

/// One entry of the native device list, as plain values: the packed flag,
/// type, identifier and location fields, the two fixed-size text buffers,
/// and the native handle (zero while the device is closed).
#[derive(Debug, Clone, Copy)]
pub struct DeviceRecord {
    /// Bit flags: USB3 or USB2 connection, open state, and the like.
    pub flags: u32,
    /// Device type code.
    pub device_type: u32,
    /// Combined identifier: vendor ID in the high 16 bits, product ID in
    /// the low 16 bits.
    pub id: u32,
    /// Location identifier.
    pub loc_id: u32,
    /// Serial number as a NUL-terminated buffer of at most 16 bytes.
    pub serial_number: [u8; 16],
    /// Description as a NUL-terminated buffer of at most 32 bytes.
    pub description: [u8; 32],
    /// Native handle of the device, or zero where it is not open.
    pub handle: u64,
}

/// A snapshot of one enumerated device.
///
/// The index is valid only against the enumeration snapshot it came from;
/// rebuilding the device list invalidates it.
#[derive(Debug, Clone, Copy)]
pub struct DeviceInfo {
    index: usize,
    record: DeviceRecord,
}

impl DeviceInfo {
    /// The position of this entry in its enumeration snapshot.
    pub closed spec fn spec_index(self) -> usize {
        self.index
    }

    /// The raw record of this entry.
    pub closed spec fn spec_record(self) -> DeviceRecord {
        self.record
    }

    /// Pair a raw device record with its position in the enumeration
    /// snapshot it was taken from.
    pub fn new(index: usize, record: DeviceRecord) -> (r: DeviceInfo)
        ensures
            r.spec_index() == index,
            r.spec_record() == record,
    {
        DeviceInfo { index, record }
    }

    /// The index of this device in the enumeration snapshot.
    pub fn index(&self) -> (r: usize)
        ensures
            r == self.spec_index(),
    {
        self.index
    }

    /// Bit flags: USB3 or USB2 connection, open state, and the like.
    pub fn flags(&self) -> (r: u32)
        ensures
            r == self.spec_record().flags,
    {
        self.record.flags
    }

    /// Device type code.
    pub fn type_(&self) -> (r: u32)
        ensures
            r == self.spec_record().device_type,
    {
        self.record.device_type
    }

    /// Vendor ID: the high 16 bits of the combined identifier.
    pub fn vendor_id(&self) -> (r: u16)
        ensures
            r == (self.spec_record().id >> 16) & 0xFFFF,
    {
        proof {
            let id = self.spec_record().id;
            assert((id >> 16) & 0xFFFF <= 0xFFFF) by (bit_vector);
        }
        ((self.record.id >> 16) & 0xFFFF) as u16
    }

    /// Product ID: the low 16 bits of the combined identifier.
    pub fn product_id(&self) -> (r: u16)
        ensures
            r == self.spec_record().id & 0xFFFF,
    {
        proof {
            let id = self.spec_record().id;
            assert(id & 0xFFFF <= 0xFFFF) by (bit_vector);
        }
        (self.record.id & 0xFFFF) as u16
    }

    /// Location identifier.
    pub fn location_identifier(&self) -> (r: u32)
        ensures
            r == self.spec_record().loc_id,
    {
        self.record.loc_id
    }

    /// Device description, decoded from its NUL-terminated buffer.
    pub fn description(&self) -> (r: Result<String, D3xxError>)
        ensures
            match r {
                Ok(s) => valid_utf8(text_prefix(self.spec_record().description@)) && s@
                    == decode_utf8(text_prefix(self.spec_record().description@)),
                Err(e) => e == D3xxError::OtherError && !valid_utf8(
                    text_prefix(self.spec_record().description@),
                ),
            },
    {
        c_str_to_string(self.record.description.as_slice())
    }

    /// Device serial number, decoded from its NUL-terminated buffer.
    pub fn serial_number(&self) -> (r: Result<String, D3xxError>)
        ensures
            match r {
                Ok(s) => valid_utf8(text_prefix(self.spec_record().serial_number@)) && s@
                    == decode_utf8(text_prefix(self.spec_record().serial_number@)),
                Err(e) => e == D3xxError::OtherError && !valid_utf8(
                    text_prefix(self.spec_record().serial_number@),
                ),
            },
    {
        c_str_to_string(self.record.serial_number.as_slice())
    }

    /// Raw handle of the device: `None` while it is not open.
    pub fn raw_handle(&self) -> (r: Option<u64>)
        ensures
            self.spec_record().handle == 0 ==> r is None,
            self.spec_record().handle != 0 ==> r == Some(self.spec_record().handle),
    {
        if self.record.handle == 0 {
            None
        } else {
            Some(self.record.handle)
        }
    }

    /// Checks if the device is currently in use.
    pub fn is_open(&self) -> (r: bool)
        ensures
            r == (self.spec_record().handle != 0),
    {
        self.record.handle != 0
    }
}

/// Turn a fetched batch of raw device records into an enumeration
/// snapshot. At most [`MAX_DEVICES`] entries are taken, in order, each
/// paired with its position.
pub fn list_devices(records: &Vec<DeviceRecord>) -> (r: Vec<DeviceInfo>)
    ensures
        r@.len() <= MAX_DEVICES,
        r@.len() == if records@.len() <= MAX_DEVICES {
            records@.len() as int
        } else {
            MAX_DEVICES as int
        },
        forall|i: int|
            0 <= i < r@.len() ==> (#[trigger] r@[i]).spec_index() == i && r@[i].spec_record()
                == records@[i],
{
    let n = if records.len() <= MAX_DEVICES {
        records.len()
    } else {
        MAX_DEVICES
    };
    let mut out: Vec<DeviceInfo> = Vec::new();
    let mut i: usize = 0;
    while i < n
        invariant
            i <= n,
            n <= records@.len(),
            n <= MAX_DEVICES,
            out@.len() == i,
            forall|j: int|
                0 <= j < i ==> (#[trigger] out@[j]).spec_index() == j && out@[j].spec_record()
                    == records@[j],
        decreases n - i,
    {
        out.push(DeviceInfo::new(i, records[i]));
        i = i + 1;
    }
    out
}

} // verus!
