//! SchemaCodec: fixed-layout binary encode/decode for the four instruction
//! variants and the two record payloads.
//!
//! The wire format is tag-prefixed and fixed-width: one tag byte followed by
//! a payload whose length is fully determined by the tag. Decoding is
//! all-or-nothing: a byte string of the wrong length for its tag, or with an
//! unrecognized tag, is rejected with `DecodeError`.

use vstd::prelude::*;
use vstd::bytes::{
    lemma_auto_spec_u32_to_from_le_bytes, spec_u32_from_le_bytes, spec_u32_to_le_bytes,
    u32_from_le_bytes, u32_to_le_bytes,
};
use vstd::slice::{slice_subrange, slice_to_vec};
use crate::errors::CoreError;

verus! {

/// Wire tag of the update-address-record instruction.
pub const UPDATE_ADDRESS_TAG: u8 = 0;

/// Wire tag of the provision-address-record instruction.
pub const PROVISION_ADDRESS_TAG: u8 = 1;

/// Wire tag of the provision-profile-record instruction.
pub const PROVISION_PROFILE_TAG: u8 = 2;

/// Wire tag of the update-profile-record instruction.
pub const UPDATE_PROFILE_TAG: u8 = 3;

/// Width in bytes of the opaque address field of an address record.
pub const ADDRESS_FIELD_LEN: usize = 512;

/// Width in bytes of the name field of a profile record.
pub const NAME_FIELD_LEN: usize = 64;

/// Storage size in bytes of a provisioned address record.
pub const ADDRESS_RECORD_SIZE: u64 = 512;

/// Storage size in bytes of a provisioned profile record:
/// 64-byte name plus three 4-byte little-endian numeric fields.
pub const PROFILE_RECORD_SIZE: u64 = 76;

/// The instruction set of the coordinator, one variant per operation.
/// Immutable once decoded; consumed exactly once per invocation.
#[derive(Clone, Debug, PartialEq)]
pub enum InstructionData {
    /// Forward a new 512-byte address payload to the address-record program.
    UpdateAddressRecord { address: Vec<u8> },
    /// Provision the backing storage of the caller's address record.
    ProvisionAddressRecord,
    /// Provision the backing storage of the caller's profile record.
    ProvisionProfileRecord,
    /// Forward new profile field values to the profile-record program.
    UpdateProfileRecord { name: Vec<u8>, day: u32, month: u32, year: u32 },
}

/// Mathematical model of an instruction: the same variants over byte
/// sequences instead of vectors.
pub ghost enum InstructionView {
    UpdateAddressRecord { address: Seq<u8> },
    ProvisionAddressRecord,
    ProvisionProfileRecord,
    UpdateProfileRecord { name: Seq<u8>, day: u32, month: u32, year: u32 },
}

impl View for InstructionData {
    type V = InstructionView;

    open spec fn view(&self) -> InstructionView {
        match self {
            InstructionData::UpdateAddressRecord { address } => {
                InstructionView::UpdateAddressRecord { address: address@ }
            },
            InstructionData::ProvisionAddressRecord => InstructionView::ProvisionAddressRecord,
            InstructionData::ProvisionProfileRecord => InstructionView::ProvisionProfileRecord,
            InstructionData::UpdateProfileRecord { name, day, month, year } => {
                InstructionView::UpdateProfileRecord {
                    name: name@,
                    day: *day,
                    month: *month,
                    year: *year,
                }
            },
        }
    }
}

impl InstructionView {
    /// Every byte field has exactly its schema's width.
    pub open spec fn wf(self) -> bool {
        match self {
            InstructionView::UpdateAddressRecord { address } => {
                address.len() == ADDRESS_FIELD_LEN
            },
            InstructionView::ProvisionAddressRecord => true,
            InstructionView::ProvisionProfileRecord => true,
            InstructionView::UpdateProfileRecord { name, .. } => name.len() == NAME_FIELD_LEN,
        }
    }
}

/// The unique wire encoding of an instruction.
pub open spec fn spec_encode(v: InstructionView) -> Seq<u8> {
    match v {
        InstructionView::UpdateAddressRecord { address } => seq![UPDATE_ADDRESS_TAG] + address,
        InstructionView::ProvisionAddressRecord => seq![PROVISION_ADDRESS_TAG],
        InstructionView::ProvisionProfileRecord => seq![PROVISION_PROFILE_TAG],
        InstructionView::UpdateProfileRecord { name, day, month, year } => {
            seq![UPDATE_PROFILE_TAG] + name + spec_u32_to_le_bytes(day)
                + spec_u32_to_le_bytes(month) + spec_u32_to_le_bytes(year)
        },
    }
}

/// The instruction a byte string stands for, if any: the tag byte selects
/// the variant and fixes the expected total length.
pub open spec fn spec_decode(b: Seq<u8>) -> Option<InstructionView> {
    if b.len() == 0 {
        None
    } else if b[0] == UPDATE_ADDRESS_TAG {
        if b.len() == 1 + ADDRESS_FIELD_LEN {
            Some(InstructionView::UpdateAddressRecord { address: b.subrange(1, 513) })
        } else {
            None
        }
    } else if b[0] == PROVISION_ADDRESS_TAG {
        if b.len() == 1 {
            Some(InstructionView::ProvisionAddressRecord)
        } else {
            None
        }
    } else if b[0] == PROVISION_PROFILE_TAG {
        if b.len() == 1 {
            Some(InstructionView::ProvisionProfileRecord)
        } else {
            None
        }
    } else if b[0] == UPDATE_PROFILE_TAG {
        if b.len() == 77 {
            Some(
                InstructionView::UpdateProfileRecord {
                    name: b.subrange(1, 65),
                    day: spec_u32_from_le_bytes(b.subrange(65, 69)),
                    month: spec_u32_from_le_bytes(b.subrange(69, 73)),
                    year: spec_u32_from_le_bytes(b.subrange(73, 77)),
                },
            )
        } else {
            None
        }
    } else {
        None
    }
}

/// Appends every byte of `src` to `out`, in order.
fn push_bytes(out: &mut Vec<u8>, src: &[u8])
    ensures
        final(out)@ == old(out)@ + src@,
{
    let mut i: usize = 0;
    while i < src.len()
        invariant
            i <= src@.len(),
            out@ == old(out)@ + src@.subrange(0, i as int),
        decreases src@.len() - i,
    {
        let b = *vstd::slice::slice_index_get(src, i);
        out.push(b);
        i = i + 1;
        assert(src@.subrange(0, i as int) =~= src@.subrange(0, i - 1) + seq![src@[i - 1]]);
    }
    assert(src@.subrange(0, src@.len() as int) =~= src@);
}

/// Encodes an instruction into its unique wire form.
pub fn encode(instruction: &InstructionData) -> (r: Vec<u8>)
    requires
        instruction@.wf(),
    ensures
        r@ == spec_encode(instruction@),
{
    let mut out: Vec<u8> = Vec::new();
    match instruction {
        InstructionData::UpdateAddressRecord { address } => {
            out.push(UPDATE_ADDRESS_TAG);
            push_bytes(&mut out, address.as_slice());
            assert(out@ =~= spec_encode(instruction@));
        },
        InstructionData::ProvisionAddressRecord => {
            out.push(PROVISION_ADDRESS_TAG);
            assert(out@ =~= spec_encode(instruction@));
        },
        InstructionData::ProvisionProfileRecord => {
            out.push(PROVISION_PROFILE_TAG);
            assert(out@ =~= spec_encode(instruction@));
        },
        InstructionData::UpdateProfileRecord { name, day, month, year } => {
            out.push(UPDATE_PROFILE_TAG);
            push_bytes(&mut out, name.as_slice());
            let day_bytes = u32_to_le_bytes(*day);
            push_bytes(&mut out, day_bytes.as_slice());
            let month_bytes = u32_to_le_bytes(*month);
            push_bytes(&mut out, month_bytes.as_slice());
            let year_bytes = u32_to_le_bytes(*year);
            push_bytes(&mut out, year_bytes.as_slice());
            assert(out@ =~= spec_encode(instruction@));
        },
    }
    out
}

/// Decodes a wire byte string, all-or-nothing: exactly the valid encodings
/// are accepted, and everything else fails with `DecodeError`.
pub fn decode(data: &[u8]) -> (r: Result<InstructionData, CoreError>)
    ensures
        r matches Ok(i) ==> i@.wf() && spec_decode(data@) == Some(i@),
        r is Err <==> spec_decode(data@) is None,
        r matches Err(e) ==> e == CoreError::DecodeError,
{
    if data.len() == 0 {
        return Err(CoreError::DecodeError);
    }
    let tag = *vstd::slice::slice_index_get(data, 0);
    if tag == UPDATE_ADDRESS_TAG {
        if data.len() != 1 + ADDRESS_FIELD_LEN {
            return Err(CoreError::DecodeError);
        }
        let address = slice_to_vec(slice_subrange(data, 1, 513));
        Ok(InstructionData::UpdateAddressRecord { address })
    } else if tag == PROVISION_ADDRESS_TAG {
        if data.len() != 1 {
            return Err(CoreError::DecodeError);
        }
        Ok(InstructionData::ProvisionAddressRecord)
    } else if tag == PROVISION_PROFILE_TAG {
        if data.len() != 1 {
            return Err(CoreError::DecodeError);
        }
        Ok(InstructionData::ProvisionProfileRecord)
    } else if tag == UPDATE_PROFILE_TAG {
        if data.len() != 77 {
            return Err(CoreError::DecodeError);
        }
        let name = slice_to_vec(slice_subrange(data, 1, 65));
        let day = u32_from_le_bytes(slice_subrange(data, 65, 69));
        let month = u32_from_le_bytes(slice_subrange(data, 69, 73));
        let year = u32_from_le_bytes(slice_subrange(data, 73, 77));
        Ok(InstructionData::UpdateProfileRecord { name, day, month, year })
    } else {
        Err(CoreError::DecodeError)
    }
}

/// Round-trip law: decoding the encoding of any well-formed instruction
/// yields that instruction back, exactly.
pub proof fn lemma_codec_round_trip(v: InstructionView)
    requires
        v.wf(),
    ensures
        spec_decode(spec_encode(v)) == Some(v),
{
    lemma_auto_spec_u32_to_from_le_bytes();
    let b = spec_encode(v);
    match v {
        InstructionView::UpdateAddressRecord { address } => {
            assert(b.subrange(1, 513) =~= address);
        },
        InstructionView::ProvisionAddressRecord => {
        },
        InstructionView::ProvisionProfileRecord => {
        },
        InstructionView::UpdateProfileRecord { name, day, month, year } => {
            assert(b.len() == 77);
            assert(b.subrange(1, 65) =~= name);
            assert(b.subrange(65, 69) =~= spec_u32_to_le_bytes(day));
            assert(b.subrange(69, 73) =~= spec_u32_to_le_bytes(month));
            assert(b.subrange(73, 77) =~= spec_u32_to_le_bytes(year));
        },
    }
}

/// The fixed 76-byte layout shared by the profile instruction payload and
/// the profile record: the name bytes followed by day, month and year, each
/// as four little-endian bytes.
pub open spec fn spec_profile_payload(name: Seq<u8>, day: u32, month: u32, year: u32) -> Seq<u8> {
    name + spec_u32_to_le_bytes(day) + spec_u32_to_le_bytes(month) + spec_u32_to_le_bytes(year)
}

/// Payload forwarded to the address-record program by an update: the bare
/// 512-byte address field, with no tag.
#[derive(Clone, Debug, PartialEq)]
pub struct AddressInstructionData {
    pub address: Vec<u8>,
}

impl AddressInstructionData {
    /// The address field has exactly its schema's width.
    pub open spec fn wf(&self) -> bool {
        self.address@.len() == ADDRESS_FIELD_LEN
    }

    /// Encodes the payload: exactly the 512 address bytes.
    pub fn encode(&self) -> (r: Vec<u8>)
        requires
            self.wf(),
        ensures
            r@ == self.address@,
            r@.len() == ADDRESS_RECORD_SIZE,
    {
        slice_to_vec(self.address.as_slice())
    }
}

/// Payload forwarded to the profile-record program by an update.
#[derive(Clone, Debug, PartialEq)]
pub struct UserProfileInstructionData {
    pub name: Vec<u8>,
    pub day: u32,
    pub month: u32,
    pub year: u32,
}

impl UserProfileInstructionData {
    /// The name field has exactly its schema's width.
    pub open spec fn wf(&self) -> bool {
        self.name@.len() == NAME_FIELD_LEN
    }

    /// Encodes the payload into its fixed 76-byte layout.
    pub fn encode(&self) -> (r: Vec<u8>)
        requires
            self.wf(),
        ensures
            r@ == spec_profile_payload(self.name@, self.day, self.month, self.year),
            r@.len() == PROFILE_RECORD_SIZE,
    {
        proof {
            lemma_auto_spec_u32_to_from_le_bytes();
        }
        let mut out: Vec<u8> = Vec::new();
        push_bytes(&mut out, self.name.as_slice());
        let day_bytes = u32_to_le_bytes(self.day);
        push_bytes(&mut out, day_bytes.as_slice());
        let month_bytes = u32_to_le_bytes(self.month);
        push_bytes(&mut out, month_bytes.as_slice());
        let year_bytes = u32_to_le_bytes(self.year);
        push_bytes(&mut out, year_bytes.as_slice());
        assert(out@ =~= spec_profile_payload(self.name@, self.day, self.month, self.year));
        out
    }
}

/// The data stored in a provisioned address record.
#[derive(Debug)]
pub struct AddressSchema {
    pub address: Vec<u8>,
}

impl AddressSchema {
    /// The address field has exactly its schema's width.
    pub open spec fn wf(&self) -> bool {
        self.address@.len() == ADDRESS_FIELD_LEN
    }

    /// Encodes the record into its fixed 512-byte storage layout.
    pub fn encode(&self) -> (r: Vec<u8>)
        requires
            self.wf(),
        ensures
            r@ == self.address@,
            r@.len() == ADDRESS_RECORD_SIZE,
    {
        slice_to_vec(self.address.as_slice())
    }

    /// Decodes a stored address record, all-or-nothing: exactly the byte
    /// strings of the record's storage size are accepted.
    pub fn decode(data: &[u8]) -> (r: Result<AddressSchema, CoreError>)
        ensures
            r is Ok <==> data@.len() == ADDRESS_RECORD_SIZE,
            r matches Ok(s) ==> s.wf() && s.address@ == data@,
            r matches Err(e) ==> e == CoreError::DecodeError,
    {
        if data.len() != ADDRESS_FIELD_LEN {
            return Err(CoreError::DecodeError);
        }
        Ok(AddressSchema { address: slice_to_vec(data) })
    }
}

/// The data stored in a provisioned profile record.
#[derive(Debug)]
pub struct UserProfileSchema {
    pub name: Vec<u8>,
    pub day: u32,
    pub month: u32,
    pub year: u32,
}

impl UserProfileSchema {
    /// The name field has exactly its schema's width.
    pub open spec fn wf(&self) -> bool {
        self.name@.len() == NAME_FIELD_LEN
    }

    /// Encodes the record into its fixed 76-byte storage layout.
    pub fn encode(&self) -> (r: Vec<u8>)
        requires
            self.wf(),
        ensures
            r@ == spec_profile_payload(self.name@, self.day, self.month, self.year),
            r@.len() == PROFILE_RECORD_SIZE,
    {
        proof {
            lemma_auto_spec_u32_to_from_le_bytes();
        }
        let mut out: Vec<u8> = Vec::new();
        push_bytes(&mut out, self.name.as_slice());
        let day_bytes = u32_to_le_bytes(self.day);
        push_bytes(&mut out, day_bytes.as_slice());
        let month_bytes = u32_to_le_bytes(self.month);
        push_bytes(&mut out, month_bytes.as_slice());
        let year_bytes = u32_to_le_bytes(self.year);
        push_bytes(&mut out, year_bytes.as_slice());
        assert(out@ =~= spec_profile_payload(self.name@, self.day, self.month, self.year));
        out
    }

    /// Decodes a stored profile record, all-or-nothing: exactly the byte
    /// strings of the record's storage size are accepted, and the fields are
    /// read back from their fixed offsets.
    pub fn decode(data: &[u8]) -> (r: Result<UserProfileSchema, CoreError>)
        ensures
            r is Ok <==> data@.len() == PROFILE_RECORD_SIZE,
            r matches Ok(s) ==> s.wf() && s.name@ == data@.subrange(0, 64) && s.day
                == spec_u32_from_le_bytes(data@.subrange(64, 68)) && s.month
                == spec_u32_from_le_bytes(data@.subrange(68, 72)) && s.year
                == spec_u32_from_le_bytes(data@.subrange(72, 76)),
            r matches Ok(s) ==> spec_profile_payload(s.name@, s.day, s.month, s.year) == data@,
            r matches Err(e) ==> e == CoreError::DecodeError,
    {
        if data.len() != 76 {
            return Err(CoreError::DecodeError);
        }
        let name = slice_to_vec(slice_subrange(data, 0, 64));
        let day = u32_from_le_bytes(slice_subrange(data, 64, 68));
        let month = u32_from_le_bytes(slice_subrange(data, 68, 72));
        let year = u32_from_le_bytes(slice_subrange(data, 72, 76));
        let s = UserProfileSchema { name, day, month, year };
        proof {
            lemma_auto_spec_u32_to_from_le_bytes();
            assert(spec_profile_payload(s.name@, s.day, s.month, s.year) =~= data@);
        }
        Ok(s)
    }
}

/// Rejection law: a byte string that is empty, carries an unrecognized tag,
/// or has the wrong length for its tag decodes to nothing.
pub proof fn lemma_decode_rejects(b: Seq<u8>)
    requires
        b.len() == 0 || b[0] > 3 || (b[0] == UPDATE_ADDRESS_TAG && b.len() != 513) || ((b[0]
            == PROVISION_ADDRESS_TAG || b[0] == PROVISION_PROFILE_TAG) && b.len() != 1) || (b[0]
            == UPDATE_PROFILE_TAG && b.len() != 77),
    ensures
        spec_decode(b) is None,
{
}

} // verus!
