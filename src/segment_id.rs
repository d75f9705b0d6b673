//! The identity of a segment, shared by every version of its metadata.
use vstd::prelude::*;

use crate::text::{hex_digits, push_hex};

verus! {

/// Number of hexadecimal digits in the text form of a segment id.
pub const UUID_TEXT_LEN: u32 = 32;

/// Opaque unique identifier of a segment: a 128-bit uuid.
#[derive(Clone, Copy, Debug, PartialEq, Eq, Structural, Hash)]
pub struct SegmentId {
    uuid: u128,
}

impl SegmentId {
    /// The uuid that this id stands for.
    pub closed spec fn spec_uuid(self) -> u128 {
        self.uuid
    }

    /// The text form of the id: its uuid as 32 lower-case hexadecimal digits.
    pub open spec fn spec_uuid_string(self) -> Seq<char> {
        hex_digits(self.spec_uuid() as nat, UUID_TEXT_LEN as nat)
    }

    /// The id of the segment whose uuid is `uuid`.
    pub fn from_uuid_u128(uuid: u128) -> (r: SegmentId)
        ensures
            r.spec_uuid() == uuid,
    {
        SegmentId { uuid }
    }

    /// The uuid that this id stands for.
    pub fn uuid_u128(&self) -> (r: u128)
        ensures
            r == self.spec_uuid(),
    {
        self.uuid
    }

    /// The uuid in its simple text form, 32 lower-case hexadecimal digits.
    pub fn uuid_string(&self) -> (r: String)
        ensures
            r@ == self.spec_uuid_string(),
    {
        let mut s = String::new();
        push_hex(&mut s, self.uuid, UUID_TEXT_LEN);
        assert(s@ =~= self.spec_uuid_string());
        s
    }
}

} // verus!
