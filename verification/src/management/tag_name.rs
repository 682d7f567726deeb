//! The names of the tagged parameters of a management frame.

use vstd::prelude::*;

verus! {

/// The name of a tagged parameter: one of the well-known tags, or any other
/// tag as its wire number.
#[derive(Debug, Copy, Clone, PartialEq, Hash, Eq)]
pub enum TagName {
    Other(u8),
    SSID,
    SupportedRates,
    DSParameter,
    TrafficIndicationMap,
    CountryInformation,
    ERPInformation,
    ExtendedSupportedRates,
    RSNInformation,
    QBSSLoadElement,
    HTCapabilities,
    HTInformation,
    ExtendedCapabilities,
    VHTCapabilities,
    PowerCapabilities,
}

/// Whether the wire number `tag_number` has a name of its own.
pub open spec fn is_well_known(tag_number: u8) -> bool {
    tag_number == 0 || tag_number == 1 || tag_number == 3 || tag_number == 5 || tag_number == 7
        || tag_number == 11 || tag_number == 33 || tag_number == 42 || tag_number == 45
        || tag_number == 48 || tag_number == 50 || tag_number == 61 || tag_number == 127
        || tag_number == 191
}

/// The name that the wire number `tag_number` resolves to.
pub open spec fn tag_name_of(tag_number: u8) -> TagName {
    match tag_number {
        0 => TagName::SSID,
        1 => TagName::SupportedRates,
        3 => TagName::DSParameter,
        5 => TagName::TrafficIndicationMap,
        7 => TagName::CountryInformation,
        11 => TagName::QBSSLoadElement,
        33 => TagName::PowerCapabilities,
        42 => TagName::ERPInformation,
        45 => TagName::HTCapabilities,
        48 => TagName::RSNInformation,
        50 => TagName::ExtendedSupportedRates,
        61 => TagName::HTInformation,
        127 => TagName::ExtendedCapabilities,
        191 => TagName::VHTCapabilities,
        n => TagName::Other(n),
    }
}

impl From<u8> for TagName {
    fn from(tag_number: u8) -> (name: Self) {
        TagName::resolve(tag_number)
    }
}

impl vstd::std_specs::convert::FromSpecImpl<u8> for TagName {
    open spec fn obeys_from_spec() -> bool {
        true
    }

    open spec fn from_spec(tag_number: u8) -> TagName {
        tag_name_of(tag_number)
    }
}

impl TagName {
    /// The wire number that a tag of this name carries.
    pub open spec fn wire_number(self) -> u8 {
        match self {
            TagName::Other(n) => n,
            TagName::SSID => 0,
            TagName::SupportedRates => 1,
            TagName::DSParameter => 3,
            TagName::TrafficIndicationMap => 5,
            TagName::CountryInformation => 7,
            TagName::QBSSLoadElement => 11,
            TagName::PowerCapabilities => 33,
            TagName::ERPInformation => 42,
            TagName::HTCapabilities => 45,
            TagName::RSNInformation => 48,
            TagName::ExtendedSupportedRates => 50,
            TagName::HTInformation => 61,
            TagName::ExtendedCapabilities => 127,
            TagName::VHTCapabilities => 191,
        }
    }

    /// The key under which a collection files this name: the wire number of
    /// a well-known name, and 256 plus the carried number of `Other`, so
    /// that `Other(0)` and `SSID` keep apart.
    pub open spec fn key(self) -> u16 {
        match self {
            TagName::Other(n) => (256 + n) as u16,
            named => named.wire_number() as u16,
        }
    }

    /// The name filed under `key`, if there is one.
    pub open spec fn of_key(key: u16) -> Option<TagName> {
        if key < 256 {
            if is_well_known(key as u8) {
                Some(tag_name_of(key as u8))
            } else {
                None
            }
        } else if key < 512 {
            Some(TagName::Other((key - 256) as u8))
        } else {
            None
        }
    }

    /// The name that the wire number `tag_number` resolves to.
    pub fn resolve(tag_number: u8) -> (name: Self)
        ensures
            name == tag_name_of(tag_number),
    {
        match tag_number {
            0 => TagName::SSID,
            1 => TagName::SupportedRates,
            3 => TagName::DSParameter,
            5 => TagName::TrafficIndicationMap,
            7 => TagName::CountryInformation,
            33 => TagName::PowerCapabilities,
            42 => TagName::ERPInformation,
            50 => TagName::ExtendedSupportedRates,
            48 => TagName::RSNInformation,
            11 => TagName::QBSSLoadElement,
            45 => TagName::HTCapabilities,
            61 => TagName::HTInformation,
            127 => TagName::ExtendedCapabilities,
            191 => TagName::VHTCapabilities,
            n => TagName::Other(n),
        }
    }

    /// The key under which a collection files this name.
    pub fn code(self) -> (key: u16)
        ensures
            key == self.key(),
    {
        match self {
            TagName::Other(n) => 256 + n as u16,
            TagName::SSID => 0,
            TagName::SupportedRates => 1,
            TagName::DSParameter => 3,
            TagName::TrafficIndicationMap => 5,
            TagName::CountryInformation => 7,
            TagName::QBSSLoadElement => 11,
            TagName::PowerCapabilities => 33,
            TagName::ERPInformation => 42,
            TagName::HTCapabilities => 45,
            TagName::RSNInformation => 48,
            TagName::ExtendedSupportedRates => 50,
            TagName::HTInformation => 61,
            TagName::ExtendedCapabilities => 127,
            TagName::VHTCapabilities => 191,
        }
    }

    /// The name filed under `key`, if there is one.
    pub fn from_code(key: u16) -> (name: Option<TagName>)
        ensures
            name == Self::of_key(key),
    {
        if key >= 512 {
            None
        } else if key >= 256 {
            Some(TagName::Other((key - 256) as u8))
        } else {
            let name: TagName = TagName::resolve(key as u8);
            match name {
                TagName::Other(_) => None,
                named => Some(named),
            }
        }
    }

    /// Resolution is total and loses nothing: every wire number resolves to
    /// a well-known name or to `Other` carrying that very number, and the
    /// name it resolves to carries it back.
    pub proof fn lemma_resolution_is_total(tag_number: u8)
        ensures
            is_well_known(tag_number) ==> !(tag_name_of(tag_number) is Other),
            !is_well_known(tag_number) ==> tag_name_of(tag_number) == TagName::Other(tag_number),
            tag_name_of(tag_number).wire_number() == tag_number,
    {
    }

    /// Resolution is injective: two wire numbers with one name are one
    /// number.
    pub proof fn lemma_resolution_is_injective(a: u8, b: u8)
        requires
            tag_name_of(a) == tag_name_of(b),
        ensures
            a == b,
    {
        Self::lemma_resolution_is_total(a);
        Self::lemma_resolution_is_total(b);
    }

    /// Keys tell names apart: a name is found again under its key, so two
    /// names with one key are one name.
    pub proof fn lemma_key_names_one(a: TagName, b: TagName)
        ensures
            Self::of_key(a.key()) == Some(a),
            a.key() == b.key() ==> a == b,
    {
    }
}

} // verus!
