//! The kinds of management frame that carry tagged parameters. Each kind
//! has a fixed header of its own length: the 24 bytes of the management
//! header, and behind them the fixed fields of the kind.

use crate::frame::FrameTrait;
use crate::management::tagged_parameters::{tagged_region_of, TaggedParametersTrait};
use crate::management::{
    frame_subtype_of, FrameSubtype, ManagementFrame, ManagementFrameTrait, ManagementSubtype,
};
use vstd::prelude::*;

verus! {

/// An association request: capability and listen interval, then tags.
pub struct AssociationRequestFrame<'a> {
    bytes: &'a [u8],
}

impl<'a> AssociationRequestFrame<'a> {
    /// A view over `bytes`, where they hold the kind's fixed header whole.
    pub fn new(bytes: &'a [u8]) -> (frame: Option<Self>)
        ensures
            match frame {
                Some(frame) => frame.raw() == bytes@ && bytes@.len()
                    >= Self::TAGGED_PARAMETERS_START,
                None => bytes@.len() < Self::TAGGED_PARAMETERS_START,
            },
    {
        if bytes.len() >= Self::TAGGED_PARAMETERS_START {
            Some(AssociationRequestFrame { bytes })
        } else {
            None
        }
    }
}

impl<'a> FrameTrait for AssociationRequestFrame<'a> {
    closed spec fn raw(&self) -> Seq<u8> {
        self.bytes@
    }

    fn bytes(&self) -> (bytes: &[u8]) {
        self.bytes
    }
}

impl<'a> ManagementFrameTrait for AssociationRequestFrame<'a> {

}

impl<'a> TaggedParametersTrait for AssociationRequestFrame<'a> {
    const TAGGED_PARAMETERS_START: usize = 28;
}

/// An association response: capability, status and association id, then tags.
pub struct AssociationResponseFrame<'a> {
    bytes: &'a [u8],
}

impl<'a> AssociationResponseFrame<'a> {
    /// A view over `bytes`, where they hold the kind's fixed header whole.
    pub fn new(bytes: &'a [u8]) -> (frame: Option<Self>)
        ensures
            match frame {
                Some(frame) => frame.raw() == bytes@ && bytes@.len()
                    >= Self::TAGGED_PARAMETERS_START,
                None => bytes@.len() < Self::TAGGED_PARAMETERS_START,
            },
    {
        if bytes.len() >= Self::TAGGED_PARAMETERS_START {
            Some(AssociationResponseFrame { bytes })
        } else {
            None
        }
    }
}

impl<'a> FrameTrait for AssociationResponseFrame<'a> {
    closed spec fn raw(&self) -> Seq<u8> {
        self.bytes@
    }

    fn bytes(&self) -> (bytes: &[u8]) {
        self.bytes
    }
}

impl<'a> ManagementFrameTrait for AssociationResponseFrame<'a> {

}

impl<'a> TaggedParametersTrait for AssociationResponseFrame<'a> {
    const TAGGED_PARAMETERS_START: usize = 30;
}

/// An authentication frame: algorithm, sequence and status, then tags.
pub struct AuthenticationFrame<'a> {
    bytes: &'a [u8],
}

impl<'a> AuthenticationFrame<'a> {
    /// A view over `bytes`, where they hold the kind's fixed header whole.
    pub fn new(bytes: &'a [u8]) -> (frame: Option<Self>)
        ensures
            match frame {
                Some(frame) => frame.raw() == bytes@ && bytes@.len()
                    >= Self::TAGGED_PARAMETERS_START,
                None => bytes@.len() < Self::TAGGED_PARAMETERS_START,
            },
    {
        if bytes.len() >= Self::TAGGED_PARAMETERS_START {
            Some(AuthenticationFrame { bytes })
        } else {
            None
        }
    }
}

impl<'a> FrameTrait for AuthenticationFrame<'a> {
    closed spec fn raw(&self) -> Seq<u8> {
        self.bytes@
    }

    fn bytes(&self) -> (bytes: &[u8]) {
        self.bytes
    }
}

impl<'a> ManagementFrameTrait for AuthenticationFrame<'a> {

}

impl<'a> TaggedParametersTrait for AuthenticationFrame<'a> {
    const TAGGED_PARAMETERS_START: usize = 30;
}

/// A beacon: timestamp, interval and capability, then tags.
pub struct BeaconFrame<'a> {
    bytes: &'a [u8],
}

impl<'a> BeaconFrame<'a> {
    /// A view over `bytes`, where they hold the kind's fixed header whole.
    pub fn new(bytes: &'a [u8]) -> (frame: Option<Self>)
        ensures
            match frame {
                Some(frame) => frame.raw() == bytes@ && bytes@.len()
                    >= Self::TAGGED_PARAMETERS_START,
                None => bytes@.len() < Self::TAGGED_PARAMETERS_START,
            },
    {
        if bytes.len() >= Self::TAGGED_PARAMETERS_START {
            Some(BeaconFrame { bytes })
        } else {
            None
        }
    }
}

impl<'a> FrameTrait for BeaconFrame<'a> {
    closed spec fn raw(&self) -> Seq<u8> {
        self.bytes@
    }

    fn bytes(&self) -> (bytes: &[u8]) {
        self.bytes
    }
}

impl<'a> ManagementFrameTrait for BeaconFrame<'a> {

}

impl<'a> TaggedParametersTrait for BeaconFrame<'a> {
    const TAGGED_PARAMETERS_START: usize = 36;
}

/// A probe request: tags directly behind the management header.
pub struct ProbeRequestFrame<'a> {
    bytes: &'a [u8],
}

impl<'a> ProbeRequestFrame<'a> {
    /// A view over `bytes`, where they hold the kind's fixed header whole.
    pub fn new(bytes: &'a [u8]) -> (frame: Option<Self>)
        ensures
            match frame {
                Some(frame) => frame.raw() == bytes@ && bytes@.len()
                    >= Self::TAGGED_PARAMETERS_START,
                None => bytes@.len() < Self::TAGGED_PARAMETERS_START,
            },
    {
        if bytes.len() >= Self::TAGGED_PARAMETERS_START {
            Some(ProbeRequestFrame { bytes })
        } else {
            None
        }
    }
}

impl<'a> FrameTrait for ProbeRequestFrame<'a> {
    closed spec fn raw(&self) -> Seq<u8> {
        self.bytes@
    }

    fn bytes(&self) -> (bytes: &[u8]) {
        self.bytes
    }
}

impl<'a> ManagementFrameTrait for ProbeRequestFrame<'a> {

}

impl<'a> TaggedParametersTrait for ProbeRequestFrame<'a> {
    const TAGGED_PARAMETERS_START: usize = 24;
}

/// A probe response: timestamp, interval and capability, then tags.
pub struct ProbeResponseFrame<'a> {
    bytes: &'a [u8],
}

impl<'a> ProbeResponseFrame<'a> {
    /// A view over `bytes`, where they hold the kind's fixed header whole.
    pub fn new(bytes: &'a [u8]) -> (frame: Option<Self>)
        ensures
            match frame {
                Some(frame) => frame.raw() == bytes@ && bytes@.len()
                    >= Self::TAGGED_PARAMETERS_START,
                None => bytes@.len() < Self::TAGGED_PARAMETERS_START,
            },
    {
        if bytes.len() >= Self::TAGGED_PARAMETERS_START {
            Some(ProbeResponseFrame { bytes })
        } else {
            None
        }
    }
}

impl<'a> FrameTrait for ProbeResponseFrame<'a> {
    closed spec fn raw(&self) -> Seq<u8> {
        self.bytes@
    }

    fn bytes(&self) -> (bytes: &[u8]) {
        self.bytes
    }
}

impl<'a> ManagementFrameTrait for ProbeResponseFrame<'a> {

}

impl<'a> TaggedParametersTrait for ProbeResponseFrame<'a> {
    const TAGGED_PARAMETERS_START: usize = 36;
}

/// A management frame by its kind.
pub enum ManagementFrameLayer<'a> {
    AssociationRequest(AssociationRequestFrame<'a>),
    AssociationResponse(AssociationResponseFrame<'a>),
    Authentication(AuthenticationFrame<'a>),
    Beacon(BeaconFrame<'a>),
    ProbeRequest(ProbeRequestFrame<'a>),
    ProbeResponse(ProbeResponseFrame<'a>),
}

impl<'a> ManagementFrameLayer<'a> {
    /// The bytes of the whole frame.
    pub open spec fn raw(&self) -> Seq<u8> {
        match self {
            ManagementFrameLayer::AssociationRequest(frame) => frame.raw(),
            ManagementFrameLayer::AssociationResponse(frame) => frame.raw(),
            ManagementFrameLayer::Authentication(frame) => frame.raw(),
            ManagementFrameLayer::Beacon(frame) => frame.raw(),
            ManagementFrameLayer::ProbeRequest(frame) => frame.raw(),
            ManagementFrameLayer::ProbeResponse(frame) => frame.raw(),
        }
    }

    /// The subtype that stands for the frame's kind.
    pub open spec fn kind(&self) -> ManagementSubtype {
        match self {
            ManagementFrameLayer::AssociationRequest(_) => ManagementSubtype::AssociationRequest,
            ManagementFrameLayer::AssociationResponse(_) => ManagementSubtype::AssociationResponse,
            ManagementFrameLayer::Authentication(_) => ManagementSubtype::Authentication,
            ManagementFrameLayer::Beacon(_) => ManagementSubtype::Beacon,
            ManagementFrameLayer::ProbeRequest(_) => ManagementSubtype::ProbeRequest,
            ManagementFrameLayer::ProbeResponse(_) => ManagementSubtype::ProbeResponse,
        }
    }
}

impl<'a> ManagementFrame<'a> {
    /// The frame as a view of its kind, over the same bytes. There is none
    /// where the frame has no region of tagged parameters: it is no
    /// management frame, its kind is not one of these, or it ends within
    /// the fixed header of its kind.
    pub fn next_layer(&self) -> (layer: Option<ManagementFrameLayer<'a>>)
        ensures
            match tagged_region_of(self.raw()) {
                Some(_) => layer matches Some(frame) && frame.raw() == self.raw()
                    && frame_subtype_of(self.raw()[0]) == FrameSubtype::Management(frame.kind()),
                None => layer is None,
            },
    {
        let subtype = match self.subtype() {
            Some(FrameSubtype::Management(subtype)) => subtype,
            _ => return None,
        };
        match subtype {
            ManagementSubtype::AssociationRequest => match AssociationRequestFrame::new(
                self.bytes,
            ) {
                Some(frame) => Some(ManagementFrameLayer::AssociationRequest(frame)),
                None => None,
            },
            ManagementSubtype::AssociationResponse => match AssociationResponseFrame::new(
                self.bytes,
            ) {
                Some(frame) => Some(ManagementFrameLayer::AssociationResponse(frame)),
                None => None,
            },
            ManagementSubtype::Authentication => match AuthenticationFrame::new(self.bytes) {
                Some(frame) => Some(ManagementFrameLayer::Authentication(frame)),
                None => None,
            },
            ManagementSubtype::Beacon => match BeaconFrame::new(self.bytes) {
                Some(frame) => Some(ManagementFrameLayer::Beacon(frame)),
                None => None,
            },
            ManagementSubtype::ProbeRequest => match ProbeRequestFrame::new(self.bytes) {
                Some(frame) => Some(ManagementFrameLayer::ProbeRequest(frame)),
                None => None,
            },
            ManagementSubtype::ProbeResponse => match ProbeResponseFrame::new(self.bytes) {
                Some(frame) => Some(ManagementFrameLayer::ProbeResponse(frame)),
                None => None,
            },
            ManagementSubtype::Other(_) => None,
        }
    }
}

} // verus!
