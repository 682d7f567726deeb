//! The tagged parameters of a management frame: a walk over the
//! (tag, length, value) records of a byte region, and the collection that
//! files them by name.

use crate::frame::FrameTrait;
use crate::management::kinds::{
    AssociationRequestFrame, AssociationResponseFrame, AuthenticationFrame, BeaconFrame,
    ProbeRequestFrame, ProbeResponseFrame,
};
use crate::management::rsn::{decode_rsn, rsn_element, RSNVersion};
use crate::management::tag_name::{tag_name_of, TagName};
use crate::management::{
    frame_subtype_of, FrameSubtype, ManagementFrame, ManagementFrameTrait, ManagementSubtype,
};
use std::collections::HashMap;
use vstd::prelude::*;
use vstd::slice::{slice_subrange, slice_to_vec};

verus! {

/// A tag declares more value bytes than its region holds behind its header.
#[derive(Debug, Clone, Copy, PartialEq, Eq)]
pub struct OverflowError {
    /// The length that the tag declares.
    pub required_length: usize,
    /// The bytes that the region holds behind the tag's header.
    pub remaining_length: usize,
}

impl OverflowError {
    #[must_use]
    pub fn new(required_length: usize, remaining_length: usize) -> (error: Self)
        ensures
            error == (OverflowError { required_length, remaining_length }),
    {
        Self { required_length, remaining_length }
    }
}

/// Whether `s` begins with a whole record: a tag number, a length, and as
/// many value bytes as the length declares.
pub open spec fn tag_fits(s: Seq<u8>) -> bool {
    s.len() >= 2 && 2 + s[1] <= s.len()
}

/// Whether `s` begins with the header of a record whose declared length
/// reaches beyond the end of `s`.
pub open spec fn tag_overflows(s: Seq<u8>) -> bool {
    s.len() >= 2 && 2 + s[1] > s.len()
}

/// The value bytes of the record that `s` begins with.
pub open spec fn tag_value(s: Seq<u8>) -> Seq<u8>
    recommends
        tag_fits(s),
{
    s.subrange(2, 2 + s[1])
}

/// What lies in `s` behind the record that it begins with.
pub open spec fn behind_tag(s: Seq<u8>) -> Seq<u8>
    recommends
        tag_fits(s),
{
    s.subrange(2 + s[1], s.len() as int)
}

/// The error for the record that `s` begins with: its declared length, and
/// the bytes that `s` holds behind its header.
pub open spec fn overflow_of(s: Seq<u8>) -> OverflowError
    recommends
        tag_overflows(s),
{
    OverflowError { required_length: s[1] as usize, remaining_length: (s.len() - 2) as usize }
}

/// A walk over the tagged parameters of a byte region, one record at a
/// time. Its view is the part of the region that is still to be read.
pub struct TaggedParameterIterator<'a> {
    bytes: &'a [u8],
}

impl<'a> View for TaggedParameterIterator<'a> {
    type V = Seq<u8>;

    closed spec fn view(&self) -> Seq<u8> {
        self.bytes@
    }
}

impl<'a> TaggedParameterIterator<'a> {
    /// A walk over `bytes`, a region that starts at a tag.
    pub fn new(bytes: &'a [u8]) -> (walk: Self)
        ensures
            walk@ == bytes@,
    {
        TaggedParameterIterator { bytes }
    }

    /// Reads the next record. With fewer than two bytes left the walk has
    /// ended. A record that fits is handed out by name and value, and the
    /// walk moves behind it. A record whose declared length overflows the
    /// region is reported once, and nothing is left to read.
    pub fn next(&mut self) -> (item: Option<Result<(TagName, &'a [u8]), OverflowError>>)
        ensures
            old(self)@.len() < 2 ==> item is None && final(self)@ == old(self)@,
            tag_overflows(old(self)@) ==> item == Some(
                Err::<(TagName, &'a [u8]), OverflowError>(overflow_of(old(self)@)),
            ) && final(self)@ == Seq::<u8>::empty(),
            tag_fits(old(self)@) ==> final(self)@ == behind_tag(old(self)@) && (item matches Some(
                Ok((name, value)),
            ) && name == tag_name_of(old(self)@[0]) && value@ == tag_value(old(self)@)),
    {
        let len = self.bytes.len();
        if len < 2 {
            return None;
        }
        let tag_number = self.bytes[0];
        let tag_length = self.bytes[1] as usize;
        if len - 2 < tag_length {
            self.bytes = slice_subrange(self.bytes, len, len);
            return Some(Err(OverflowError::new(tag_length, len - 2)));
        }
        let tag_buffer = slice_subrange(self.bytes, 2, 2 + tag_length);
        self.bytes = slice_subrange(self.bytes, 2 + tag_length, len);

        Some(Ok((TagName::resolve(tag_number), tag_buffer)))
    }
}

/// The first byte of `s`, if it has one.
pub open spec fn first_byte(s: Seq<u8>) -> Option<u8> {
    if s.len() > 0 {
        Some(s[0])
    } else {
        None
    }
}

/// The low seven bits of a rate byte: the rate in units of 500 kbit/s. The
/// top bit, which marks a basic rate, is left out.
pub open spec fn rate_units_of(rate: u8) -> int {
    rate as int % 128
}

/// The rates, in kbit/s, that the value bytes `s` of a rates tag list.
pub open spec fn rates_kbps_of(s: Seq<u8>) -> Seq<u32> {
    Seq::new(s.len(), |k: int| (rate_units_of(s[k]) * 500) as u32)
}

/// The rate that a rate byte encodes, in units of 500 kbit/s.
pub fn rate_units(rate: u8) -> (units: u8)
    ensures
        units == rate_units_of(rate),
{
    assert(rate & 0x7f == rate % 128) by (bit_vector);
    rate & 0x7f
}

/// The tagged parameters of one frame, filed by name. Its view maps each
/// name that was filed to the value bytes filed last under it.
pub struct TaggedParameters<'a> {
    tags: HashMap<u16, &'a [u8]>,
}

impl<'a> View for TaggedParameters<'a> {
    type V = Map<TagName, Seq<u8>>;

    closed spec fn view(&self) -> Map<TagName, Seq<u8>> {
        Map::new(
            |name: TagName| self.tags@.contains_key(name.key()),
            |name: TagName| self.tags@[name.key()]@,
        )
    }
}

impl<'a> Default for TaggedParameters<'a> {
    fn default() -> (parameters: Self)
        ensures
            parameters@ == Map::<TagName, Seq<u8>>::empty(),
    {
        TaggedParameters::new()
    }
}

impl<'a> TaggedParameters<'a> {
    #[must_use]
    pub fn new() -> (parameters: Self)
        ensures
            parameters@ == Map::<TagName, Seq<u8>>::empty(),
    {
        let parameters = Self { tags: HashMap::new() };
        assert(parameters@ =~= Map::<TagName, Seq<u8>>::empty());
        parameters
    }

    /// Files `tag_data` under `tag_name`, in place of what was filed under
    /// that name before.
    pub fn add(&mut self, tag_name: TagName, tag_data: &'a [u8])
        ensures
            final(self)@ == old(self)@.insert(tag_name, tag_data@),
    {
        proof {
            assert forall|other: TagName| other.key() == tag_name.key() implies other
                == tag_name by {
                TagName::lemma_key_names_one(other, tag_name);
            }
        }
        self.tags.insert(tag_name.code(), tag_data);
        assert(self@ =~= old(self)@.insert(tag_name, tag_data@));
    }

    /// The underlying table, keyed by [`TagName::code`]: under the key of
    /// each name that was filed it holds the bytes filed last, and under
    /// the key of any other name nothing.
    #[must_use]
    pub fn get_all(&self) -> (table: &HashMap<u16, &'a [u8]>)
        ensures
            forall|name: TagName| #[trigger]
                table@.contains_key(name.key()) <==> self@.contains_key(name),
            forall|name: TagName|
                self@.contains_key(name) ==> (#[trigger] table@[name.key()])@ == self@[name],
    {
        &self.tags
    }

    /// The value bytes filed under `tag_name`, if any were.
    #[must_use]
    pub fn get_bytes(&self, tag_name: TagName) -> (bytes: Option<&'a [u8]>)
        ensures
            match bytes {
                Some(bytes) => self@.contains_key(tag_name) && bytes@ == self@[tag_name],
                None => !self@.contains_key(tag_name),
            },
    {
        let key = tag_name.code();
        match self.tags.get(&key) {
            Some(bytes) => Some(*bytes),
            None => None,
        }
    }

    /// The network name: the value bytes of the SSID tag as they are. An
    /// empty name is a hidden network.
    #[must_use]
    pub fn ssid(&self) -> (bytes: Option<&'a [u8]>)
        ensures
            match bytes {
                Some(bytes) => self@.contains_key(TagName::SSID) && bytes@ == self@[TagName::SSID],
                None => !self@.contains_key(TagName::SSID),
            },
    {
        self.get_bytes(TagName::SSID)
    }

    /// The supported rates in kbit/s, one for each value byte of the
    /// supported rates tag.
    #[must_use]
    pub fn supported_rates_kbps(&self) -> (rates: Option<Vec<u32>>)
        ensures
            match rates {
                Some(rates) => self@.contains_key(TagName::SupportedRates) && rates@
                    == rates_kbps_of(self@[TagName::SupportedRates]),
                None => !self@.contains_key(TagName::SupportedRates),
            },
    {
        match self.get_bytes(TagName::SupportedRates) {
            Some(supported_rates) => {
                let mut rates: Vec<u32> = Vec::new();
                let mut k: usize = 0;
                while k < supported_rates.len()
                    invariant
                        k <= supported_rates@.len(),
                        rates@ == rates_kbps_of(supported_rates@.take(k as int)),
                    decreases supported_rates@.len() - k,
                {
                    let units = rate_units(supported_rates[k]);
                    rates.push(units as u32 * 500);
                    k += 1;
                    assert(rates@ =~= rates_kbps_of(supported_rates@.take(k as int)));
                }
                assert(supported_rates@.take(k as int) =~= supported_rates@);
                Some(rates)
            },
            None => None,
        }
    }

    /// The channel: the first byte of the DS parameter tag where that tag
    /// was filed, else the first byte of the HT information tag. A tag
    /// that decides and has no first byte gives no channel.
    #[must_use]
    pub fn channel(&self) -> (channel: Option<u8>)
        ensures
            channel == (if self@.contains_key(TagName::DSParameter) {
                first_byte(self@[TagName::DSParameter])
            } else if self@.contains_key(TagName::HTInformation) {
                first_byte(self@[TagName::HTInformation])
            } else {
                None
            }),
    {
        match self.get_bytes(TagName::DSParameter) {
            Some(bytes) => Self::first(bytes),
            None => match self.get_bytes(TagName::HTInformation) {
                Some(bytes) => Self::first(bytes),
                None => None,
            },
        }
    }

    fn first(bytes: &[u8]) -> (byte: Option<u8>)
        ensures
            byte == first_byte(bytes@),
    {
        if bytes.len() > 0 {
            Some(bytes[0])
        } else {
            None
        }
    }

    /// The RSN element, decoded from the value bytes of the RSN information
    /// tag. There is none where the tag was not filed or is too short to
    /// hold a version.
    #[must_use]
    pub fn rsn(&self) -> (element: Option<RSNVersion>)
        ensures
            match element {
                Some(version) => self@.contains_key(TagName::RSNInformation) && rsn_element(
                    self@[TagName::RSNInformation],
                ) == Some(version@),
                None => !self@.contains_key(TagName::RSNInformation) || rsn_element(
                    self@[TagName::RSNInformation],
                ) is None,
            },
    {
        match self.get_bytes(TagName::RSNInformation) {
            Some(bytes) => decode_rsn(bytes),
            None => None,
        }
    }
}

/// The records that a walk over `s` hands out, by name and value, until it
/// ends or meets a record that overflows.
pub open spec fn tags_in(s: Seq<u8>) -> Seq<(TagName, Seq<u8>)>
    decreases s.len(),
{
    if tag_fits(s) {
        seq![(tag_name_of(s[0]), tag_value(s))] + tags_in(behind_tag(s))
    } else {
        Seq::empty()
    }
}

/// The error in which a walk over `s` ends, if it ends in one.
pub open spec fn overflow_in(s: Seq<u8>) -> Option<OverflowError>
    decreases s.len(),
{
    if tag_fits(s) {
        overflow_in(behind_tag(s))
    } else if tag_overflows(s) {
        Some(overflow_of(s))
    } else {
        None
    }
}

/// The table that filing `tags` in their order gives: under each name the
/// value filed last.
pub open spec fn filed(tags: Seq<(TagName, Seq<u8>)>) -> Map<TagName, Seq<u8>>
    decreases tags.len(),
{
    if tags.len() == 0 {
        Map::empty()
    } else {
        filed(tags.drop_last()).insert(tags.last().0, tags.last().1)
    }
}

/// What collecting the region `s` gives: the error in which the walk ends,
/// or else the table of all its records.
pub open spec fn collected(s: Seq<u8>) -> Result<Map<TagName, Seq<u8>>, OverflowError> {
    match overflow_in(s) {
        Some(error) => Err(error),
        None => Ok(filed(tags_in(s))),
    }
}

/// The part of the frame `raw` from the offset `start` on.
pub open spec fn region_from(raw: Seq<u8>, start: int) -> Seq<u8> {
    raw.subrange(start, raw.len() as int)
}

/// A kind of frame whose tagged parameters begin at a fixed offset, behind
/// the fixed header of its kind.
pub trait TaggedParametersTrait: FrameTrait {
    /// The length of the kind's fixed header.
    const TAGGED_PARAMETERS_START: usize;

    /// A walk over the frame's tagged parameters. The frame must hold its
    /// fixed header whole.
    fn iter_tagged_parameters(&self) -> (walk: TaggedParameterIterator)
        requires
            Self::TAGGED_PARAMETERS_START <= self.raw().len(),
        ensures
            walk@ == region_from(self.raw(), Self::TAGGED_PARAMETERS_START as int),
    {
        let bytes = self.bytes();
        TaggedParameterIterator::new(
            slice_subrange(bytes, Self::TAGGED_PARAMETERS_START, bytes.len()),
        )
    }

    /// All tagged parameters of the frame, or the error in which the walk
    /// over them ends; what was read before the error is then dropped.
    fn tagged_parameters(&self) -> (parameters: Result<TaggedParameters, OverflowError>)
        requires
            Self::TAGGED_PARAMETERS_START <= self.raw().len(),
        ensures
            match collected(region_from(self.raw(), Self::TAGGED_PARAMETERS_START as int)) {
                Ok(table) => parameters matches Ok(filed) && filed@ == table,
                Err(error) => parameters matches Err(met) && met == error,
            },
    {
        let mut tagged_parameters = TaggedParameters::new();
        let mut walk = self.iter_tagged_parameters();
        let ghost region = walk@;
        let ghost mut seen: Seq<(TagName, Seq<u8>)> = Seq::empty();
        loop
            invariant
                tagged_parameters@ == filed(seen),
                tags_in(region) == seen + tags_in(walk@),
                overflow_in(region) == overflow_in(walk@),
                region == region_from(self.raw(), Self::TAGGED_PARAMETERS_START as int),
            decreases walk@.len(),
        {
            let ghost before = walk@;
            match walk.next() {
                None => {
                    assert(seen + tags_in(before) =~= seen);
                    return Ok(tagged_parameters);
                },
                Some(Err(error)) => {
                    return Err(error);
                },
                Some(Ok((tag_name, tag))) => {
                    tagged_parameters.add(tag_name, tag);
                    proof {
                        let read = (tag_name, tag@);
                        assert(seen.push(read).drop_last() =~= seen);
                        assert(seen + tags_in(before) =~= seen.push(read) + tags_in(walk@));
                        seen = seen.push(read);
                    }
                },
            }
        }
    }

    /// The network name of the frame, copied out; none where the frame
    /// carries no SSID tag or its tagged parameters cannot be collected.
    fn ssid(&self) -> (name: Option<Vec<u8>>)
        requires
            Self::TAGGED_PARAMETERS_START <= self.raw().len(),
        ensures
            match collected(region_from(self.raw(), Self::TAGGED_PARAMETERS_START as int)) {
                Ok(table) => if table.contains_key(TagName::SSID) {
                    name matches Some(bytes) && bytes@ == table[TagName::SSID]
                } else {
                    name is None
                },
                Err(_) => name is None,
            },
    {
        match self.tagged_parameters() {
            Ok(parameters) => match parameters.ssid() {
                Some(bytes) => Some(slice_to_vec(bytes)),
                None => None,
            },
            Err(_) => None,
        }
    }
}

/// The offset at which the tagged parameters of a management frame of the
/// kind `subtype` begin, for the kinds that carry any.
pub open spec fn tagged_parameters_start_of(subtype: ManagementSubtype) -> Option<usize> {
    match subtype {
        ManagementSubtype::AssociationRequest => Some(
            AssociationRequestFrame::TAGGED_PARAMETERS_START,
        ),
        ManagementSubtype::AssociationResponse => Some(
            AssociationResponseFrame::TAGGED_PARAMETERS_START,
        ),
        ManagementSubtype::Authentication => Some(AuthenticationFrame::TAGGED_PARAMETERS_START),
        ManagementSubtype::Beacon => Some(BeaconFrame::TAGGED_PARAMETERS_START),
        ManagementSubtype::ProbeRequest => Some(ProbeRequestFrame::TAGGED_PARAMETERS_START),
        ManagementSubtype::ProbeResponse => Some(ProbeResponseFrame::TAGGED_PARAMETERS_START),
        _ => None,
    }
}

/// The region of tagged parameters of the management frame `raw`: behind
/// the fixed header of the kind that its subtype selects. There is none
/// where the frame is no management frame, its kind carries no tagged
/// parameters, or the frame ends within its fixed header.
pub open spec fn tagged_region_of(raw: Seq<u8>) -> Option<Seq<u8>> {
    if raw.len() == 0 {
        None
    } else {
        match frame_subtype_of(raw[0]) {
            FrameSubtype::Management(subtype) => match tagged_parameters_start_of(subtype) {
                Some(start) => if start <= raw.len() {
                    Some(region_from(raw, start as int))
                } else {
                    None
                },
                None => None,
            },
            _ => None,
        }
    }
}

/// A management frame of any kind, whose tagged parameters are found by
/// its subtype where its kind carries any.
pub trait OptionalTaggedParametersTrait: ManagementFrameTrait {
    /// A walk over the frame's tagged parameters, if it has a region of
    /// them.
    fn iter_tagged_parameters(&self) -> (walk: Option<TaggedParameterIterator>)
        ensures
            match tagged_region_of(self.raw()) {
                Some(region) => walk matches Some(walk) && walk@ == region,
                None => walk is None,
            },
    {
        let subtype = match self.subtype() {
            Some(FrameSubtype::Management(subtype)) => subtype,
            _ => return None,
        };

        let offset = match subtype {
            ManagementSubtype::AssociationRequest => {
                AssociationRequestFrame::TAGGED_PARAMETERS_START
            },
            ManagementSubtype::AssociationResponse => {
                AssociationResponseFrame::TAGGED_PARAMETERS_START
            },
            ManagementSubtype::Authentication => AuthenticationFrame::TAGGED_PARAMETERS_START,
            ManagementSubtype::Beacon => BeaconFrame::TAGGED_PARAMETERS_START,
            ManagementSubtype::ProbeRequest => ProbeRequestFrame::TAGGED_PARAMETERS_START,
            ManagementSubtype::ProbeResponse => ProbeResponseFrame::TAGGED_PARAMETERS_START,
            _ => return None,
        };

        let bytes = self.bytes();
        if offset > bytes.len() {
            return None;
        }
        Some(TaggedParameterIterator::new(slice_subrange(bytes, offset, bytes.len())))
    }
}

impl OptionalTaggedParametersTrait for ManagementFrame<'_> {

}

} // verus!
