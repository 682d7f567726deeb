//! 802.11 management frames and their tagged parameters.

pub mod kinds;
pub mod records;
pub mod rsn;
pub mod tag_name;
pub mod tagged_parameters;

use crate::frame::FrameTrait;
use vstd::prelude::*;

verus! {

/// The kind of a management frame, as its subtype field selects it. A
/// subtype without a kind of its own is kept as the number read.
#[derive(Debug, Clone, Copy, PartialEq, Eq)]
pub enum ManagementSubtype {
    AssociationRequest,
    AssociationResponse,
    ProbeRequest,
    ProbeResponse,
    Beacon,
    Authentication,
    Other(u8),
}

impl ManagementSubtype {
    /// The kind that the four-bit subtype `code` selects.
    pub open spec fn of(code: u8) -> ManagementSubtype {
        match code {
            0 => ManagementSubtype::AssociationRequest,
            1 => ManagementSubtype::AssociationResponse,
            4 => ManagementSubtype::ProbeRequest,
            5 => ManagementSubtype::ProbeResponse,
            8 => ManagementSubtype::Beacon,
            11 => ManagementSubtype::Authentication,
            other => ManagementSubtype::Other(other),
        }
    }

    pub fn from(code: u8) -> (subtype: Self)
        ensures
            subtype == Self::of(code),
    {
        match code {
            0 => ManagementSubtype::AssociationRequest,
            1 => ManagementSubtype::AssociationResponse,
            4 => ManagementSubtype::ProbeRequest,
            5 => ManagementSubtype::ProbeResponse,
            8 => ManagementSubtype::Beacon,
            11 => ManagementSubtype::Authentication,
            other => ManagementSubtype::Other(other),
        }
    }
}

/// The type and subtype of an 802.11 frame. Outside management frames the
/// subtype is kept as the number read.
#[derive(Debug, Clone, Copy, PartialEq, Eq)]
pub enum FrameSubtype {
    Management(ManagementSubtype),
    Control(u8),
    Data(u8),
    Reserved(u8),
}

/// The two-bit frame type in the first byte of the frame control field.
pub open spec fn frame_type_bits(frame_control: u8) -> int {
    (frame_control as int / 4) % 4
}

/// The four-bit subtype in the first byte of the frame control field.
pub open spec fn subtype_bits(frame_control: u8) -> int {
    frame_control as int / 16
}

/// The type and subtype that the first byte of the frame control field
/// selects.
pub open spec fn frame_subtype_of(frame_control: u8) -> FrameSubtype {
    let kind = frame_type_bits(frame_control);
    let subtype = subtype_bits(frame_control) as u8;
    if kind == 0 {
        FrameSubtype::Management(ManagementSubtype::of(subtype))
    } else if kind == 1 {
        FrameSubtype::Control(subtype)
    } else if kind == 2 {
        FrameSubtype::Data(subtype)
    } else {
        FrameSubtype::Reserved(subtype)
    }
}

/// Reads the type and subtype from the first byte of the frame control
/// field.
pub fn frame_subtype(frame_control: u8) -> (subtype: FrameSubtype)
    ensures
        subtype == frame_subtype_of(frame_control),
{
    assert((frame_control >> 2) & 3 == frame_control / 4 % 4) by (bit_vector);
    assert(frame_control >> 4 == frame_control / 16) by (bit_vector);
    let subtype = frame_control >> 4;
    match (frame_control >> 2) & 3 {
        0 => FrameSubtype::Management(ManagementSubtype::from(subtype)),
        1 => FrameSubtype::Control(subtype),
        2 => FrameSubtype::Data(subtype),
        _ => FrameSubtype::Reserved(subtype),
    }
}

/// A frame that begins with an 802.11 frame control field.
pub trait ManagementFrameTrait: FrameTrait {
    /// The frame's type and subtype; none where the frame is empty.
    fn subtype(&self) -> (subtype: Option<FrameSubtype>)
        ensures
            subtype == (if self.raw().len() > 0 {
                Some(frame_subtype_of(self.raw()[0]))
            } else {
                None
            }),
    {
        let bytes = self.bytes();
        if bytes.len() > 0 {
            Some(frame_subtype(bytes[0]))
        } else {
            None
        }
    }
}

/// A management frame whose kind is not yet told.
pub struct ManagementFrame<'a> {
    bytes: &'a [u8],
}

impl<'a> ManagementFrame<'a> {
    pub fn new(bytes: &'a [u8]) -> (frame: Self)
        ensures
            frame.raw() == bytes@,
    {
        ManagementFrame { bytes }
    }
}

impl<'a> FrameTrait for ManagementFrame<'a> {
    closed spec fn raw(&self) -> Seq<u8> {
        self.bytes@
    }

    fn bytes(&self) -> (bytes: &[u8]) {
        self.bytes
    }
}

impl<'a> ManagementFrameTrait for ManagementFrame<'a> {

}

} // verus!
