use linkframes::management::rsn::{
    AKMSuite, AKMSuiteType, CipherSuite, CipherSuiteType, RSNCapabilities, RSNVersion, RSN,
};
use linkframes::management::tag_name::TagName;
use linkframes::management::tagged_parameters::{
    rate_units, OverflowError, TaggedParameterIterator, TaggedParameters,
};

const NAMED: [(u8, TagName); 14] = [
    (0, TagName::SSID),
    (1, TagName::SupportedRates),
    (3, TagName::DSParameter),
    (5, TagName::TrafficIndicationMap),
    (7, TagName::CountryInformation),
    (11, TagName::QBSSLoadElement),
    (33, TagName::PowerCapabilities),
    (42, TagName::ERPInformation),
    (45, TagName::HTCapabilities),
    (48, TagName::RSNInformation),
    (50, TagName::ExtendedSupportedRates),
    (61, TagName::HTInformation),
    (127, TagName::ExtendedCapabilities),
    (191, TagName::VHTCapabilities),
];

#[test]
fn every_tag_number_resolves() {
    for number in 0..=255u8 {
        let name = TagName::from(number);
        match NAMED.iter().find(|(n, _)| *n == number) {
            Some((_, expected)) => assert_eq!(name, *expected),
            None => assert_eq!(name, TagName::Other(number)),
        }
        assert_eq!(TagName::resolve(number), name);
        let into: TagName = number.into();
        assert_eq!(into, name);
    }
}

#[test]
fn well_known_names_are_distinct() {
    for (i, (_, a)) in NAMED.iter().enumerate() {
        for (j, (_, b)) in NAMED.iter().enumerate() {
            assert_eq!(a == b, i == j);
        }
    }
}

#[test]
fn tag_name_codes_find_their_names() {
    for (number, name) in NAMED.iter() {
        assert_eq!(name.code(), *number as u16);
        assert_eq!(TagName::from_code(*number as u16), Some(*name));
    }
    for number in 0..=255u8 {
        let other = TagName::Other(number);
        assert_eq!(other.code(), 256 + number as u16);
        assert_eq!(TagName::from_code(256 + number as u16), Some(other));
        if !NAMED.iter().any(|(n, _)| *n == number) {
            assert_eq!(TagName::from_code(number as u16), None);
        }
    }
    assert_eq!(TagName::from_code(512), None);
    assert_eq!(TagName::from_code(u16::MAX), None);
}

#[test]
fn iterator_reads_records_in_order() {
    let region = [0x00, 0x03, b'a', b'b', b'c', 0x03, 0x01, 0x06, 0xdd, 0x00];
    let mut walk = TaggedParameterIterator::new(&region);
    assert_eq!(walk.next(), Some(Ok((TagName::SSID, &b"abc"[..]))));
    assert_eq!(walk.next(), Some(Ok((TagName::DSParameter, &[0x06u8][..]))));
    assert_eq!(walk.next(), Some(Ok((TagName::Other(0xdd), &[][..]))));
    assert_eq!(walk.next(), None);
    assert_eq!(walk.next(), None);
}

#[test]
fn iterator_ends_cleanly_on_a_lone_byte() {
    let region = [0x00, 0x01, b'x', 0x03];
    let mut walk = TaggedParameterIterator::new(&region);
    assert_eq!(walk.next(), Some(Ok((TagName::SSID, &b"x"[..]))));
    assert_eq!(walk.next(), None);

    let mut empty = TaggedParameterIterator::new(&[]);
    assert_eq!(empty.next(), None);
    let mut one = TaggedParameterIterator::new(&[0x30]);
    assert_eq!(one.next(), None);
}

#[test]
fn iterator_reports_an_overflow_once() {
    // The second tag declares five bytes where two are left.
    let region = [0x00, 0x01, b'x', 0x01, 0x05, 0x82, 0x84];
    let mut walk = TaggedParameterIterator::new(&region);
    assert_eq!(walk.next(), Some(Ok((TagName::SSID, &b"x"[..]))));
    assert_eq!(walk.next(), Some(Err(OverflowError::new(5, 2))));
    assert_eq!(walk.next(), None);
    assert_eq!(walk.next(), None);
}

#[test]
fn overflow_carries_declared_and_remaining_lengths() {
    let mut walk = TaggedParameterIterator::new(&[0x00, 0xff]);
    let error = walk.next().unwrap().unwrap_err();
    assert_eq!(error.required_length, 255);
    assert_eq!(error.remaining_length, 0);
    assert_eq!(walk.next(), None);

    let mut walk = TaggedParameterIterator::new(&[0x00, 0x01]);
    assert_eq!(walk.next(), Some(Err(OverflowError { required_length: 1, remaining_length: 0 })));

    let region = [0x30, 0x14, 1, 2, 3];
    let mut walk = TaggedParameterIterator::new(&region);
    assert_eq!(walk.next(), Some(Err(OverflowError { required_length: 20, remaining_length: 3 })));
    assert_eq!(walk.next(), None);
}

#[test]
fn iterator_survives_every_truncation() {
    let region = [
        0x00, 0x04, b't', b'e', b's', b't', 0x01, 0x02, 0x82, 0x04, 0x03, 0x01, 0x0b, 0x30, 0x02,
        0x01, 0x00,
    ];
    let whole: Vec<_> = {
        let mut walk = TaggedParameterIterator::new(&region);
        let mut items = Vec::new();
        while let Some(item) = walk.next() {
            items.push(item);
        }
        items
    };
    assert_eq!(whole.len(), 4);
    for len in 0..=region.len() {
        let mut walk = TaggedParameterIterator::new(&region[..len]);
        let mut read = 0;
        let mut errors = 0;
        while let Some(item) = walk.next() {
            match item {
                Ok(tag) => {
                    assert_eq!(errors, 0);
                    assert_eq!(Ok(tag), whole[read]);
                    read += 1;
                }
                Err(_) => errors += 1,
            }
        }
        assert!(errors <= 1);
    }
}

#[test]
fn collection_files_by_name() {
    let mut parameters = TaggedParameters::new();
    assert_eq!(parameters.get_bytes(TagName::SSID), None);
    assert!(parameters.get_all().is_empty());

    parameters.add(TagName::SSID, b"first");
    parameters.add(TagName::Other(7), &[1, 2]);
    assert_eq!(parameters.get_bytes(TagName::SSID), Some(&b"first"[..]));
    assert_eq!(parameters.get_bytes(TagName::Other(7)), Some(&[1u8, 2][..]));
    assert_eq!(parameters.get_bytes(TagName::CountryInformation), None);
    assert_eq!(parameters.get_bytes(TagName::Other(0)), None);

    parameters.add(TagName::SSID, b"second");
    assert_eq!(parameters.get_bytes(TagName::SSID), Some(&b"second"[..]));
    assert_eq!(parameters.ssid(), Some(&b"second"[..]));
    assert_eq!(parameters.get_all().len(), 2);
    assert_eq!(parameters.get_all().get(&TagName::SSID.code()), Some(&&b"second"[..]));
    assert_eq!(parameters.get_all().get(&TagName::Other(7).code()), Some(&&[1u8, 2][..]));
}

#[test]
fn default_collection_is_empty() {
    let parameters = TaggedParameters::default();
    assert!(parameters.get_all().is_empty());
    assert_eq!(parameters.ssid(), None);
    assert_eq!(parameters.channel(), None);
    assert_eq!(parameters.supported_rates_kbps(), None);
    assert_eq!(parameters.rsn(), None);
}

#[test]
fn other_of_a_well_known_number_is_a_name_of_its_own() {
    let mut parameters = TaggedParameters::new();
    parameters.add(TagName::Other(0), b"other");
    assert_eq!(parameters.ssid(), None);
    parameters.add(TagName::SSID, b"ssid");
    assert_eq!(parameters.get_bytes(TagName::Other(0)), Some(&b"other"[..]));
    assert_eq!(parameters.ssid(), Some(&b"ssid"[..]));
}

#[test]
fn hidden_ssid_is_present_and_empty() {
    let mut parameters = TaggedParameters::new();
    assert_eq!(parameters.ssid(), None);
    parameters.add(TagName::SSID, &[]);
    assert_eq!(parameters.ssid(), Some(&[][..]));
}

#[test]
fn ssid_bytes_are_not_checked_as_text() {
    let mut parameters = TaggedParameters::new();
    parameters.add(TagName::SSID, &[0xff, 0x00, 0xc3]);
    assert_eq!(parameters.ssid(), Some(&[0xffu8, 0x00, 0xc3][..]));
}

#[test]
fn supported_rates_in_mbit_per_second() {
    let mut parameters = TaggedParameters::new();
    assert_eq!(parameters.supported_rates_kbps(), None);
    parameters.add(TagName::SupportedRates, &[0x82, 0x04]);
    let kbps = parameters.supported_rates_kbps().unwrap();
    assert_eq!(kbps, vec![1000, 2000]);
    let mbps: Vec<f64> = kbps.iter().map(|rate| f64::from(*rate) / 1000.0).collect();
    assert_eq!(mbps, vec![1.0, 2.0]);
}

#[test]
fn supported_rates_leave_the_basic_rate_bit_out() {
    let mut parameters = TaggedParameters::new();
    parameters.add(TagName::SupportedRates, &[0x8b, 0x0b, 0x96, 0x6c, 0xff, 0x80, 0x00, 0x7f]);
    assert_eq!(
        parameters.supported_rates_kbps(),
        Some(vec![5500, 5500, 11000, 54000, 63500, 0, 0, 63500])
    );
    assert_eq!(rate_units(0x82), 2);
    assert_eq!(rate_units(0x04), 4);
    assert_eq!(rate_units(0xff), 127);
    assert_eq!(rate_units(0x80), 0);

    let mut none = TaggedParameters::new();
    none.add(TagName::SupportedRates, &[]);
    assert_eq!(none.supported_rates_kbps(), Some(vec![]));
}

#[test]
fn channel_prefers_the_ds_parameter() {
    let mut parameters = TaggedParameters::new();
    assert_eq!(parameters.channel(), None);

    parameters.add(TagName::HTInformation, &[36, 0x05]);
    assert_eq!(parameters.channel(), Some(36));

    parameters.add(TagName::DSParameter, &[6]);
    assert_eq!(parameters.channel(), Some(6));
}

#[test]
fn channel_of_an_empty_tag_is_absent() {
    let mut parameters = TaggedParameters::new();
    parameters.add(TagName::HTInformation, &[]);
    assert_eq!(parameters.channel(), None);

    parameters.add(TagName::HTInformation, &[44]);
    parameters.add(TagName::DSParameter, &[]);
    assert_eq!(parameters.channel(), None);
}

#[test]
fn rsn_is_decoded_from_its_tag() {
    let mut parameters = TaggedParameters::new();
    assert_eq!(parameters.rsn(), None);

    parameters.add(TagName::RSNInformation, &[0x01]);
    assert_eq!(parameters.rsn(), None);

    parameters.add(TagName::RSNInformation, &[0x02, 0x01]);
    assert_eq!(parameters.rsn(), Some(RSNVersion::Reserved(0x0102)));

    let value = [
        0x01, 0x00, 0x00, 0x0f, 0xac, 0x04, 0x01, 0x00, 0x00, 0x0f, 0xac, 0x04, 0x01, 0x00, 0x00,
        0x0f, 0xac, 0x02, 0x00, 0x00,
    ];
    parameters.add(TagName::RSNInformation, &value);
    assert_eq!(
        parameters.rsn(),
        Some(RSNVersion::Standard(RSN {
            group_cipher_suite: Some(CipherSuite::Standard(CipherSuiteType::CCMP)),
            pairwise_cipher_suites: vec![CipherSuite::Standard(CipherSuiteType::CCMP)],
            akm_suites: vec![AKMSuite::Standard(AKMSuiteType::PSK)],
            capabilities: Some(RSNCapabilities {
                pre_auth: false,
                pairwise: false,
                ptksa_replay_counter_value: 0,
                gtksa_replay_counter_value: 0,
                management_frame_protection_required: false,
                management_frame_protection_capable: false,
                joint_multi_band_rsna: false,
                peerkey: false,
            }),
        }))
    );
}
