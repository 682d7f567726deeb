use linkframes::management::rsn::{
    decode_rsn, make_std_rsn, AKMSuite, AKMSuiteType, CipherSuite, CipherSuiteType, RSNCapabilities,
    RSNVersion, RSN,
};

fn no_capabilities() -> RSNCapabilities {
    RSNCapabilities {
        pre_auth: false,
        pairwise: false,
        ptksa_replay_counter_value: 0,
        gtksa_replay_counter_value: 0,
        management_frame_protection_required: false,
        management_frame_protection_capable: false,
        joint_multi_band_rsna: false,
        peerkey: false,
    }
}

const WPA2_PSK: [u8; 20] = [
    0x01, 0x00, // version 1
    0x00, 0x0f, 0xac, 0x04, // group: CCMP
    0x01, 0x00, // one pairwise suite
    0x00, 0x0f, 0xac, 0x04, // CCMP
    0x01, 0x00, // one authentication suite
    0x00, 0x0f, 0xac, 0x02, // PSK
    0x00, 0x00, // capabilities
];

#[test]
fn rsn_with_ccmp_and_psk() {
    let expected = RSN {
        group_cipher_suite: Some(CipherSuite::Standard(CipherSuiteType::CCMP)),
        pairwise_cipher_suites: vec![CipherSuite::Standard(CipherSuiteType::CCMP)],
        akm_suites: vec![AKMSuite::Standard(AKMSuiteType::PSK)],
        capabilities: Some(no_capabilities()),
    };
    assert_eq!(decode_rsn(&WPA2_PSK), Some(RSNVersion::Standard(expected)));
}

#[test]
fn rsn_truncated_at_every_point_keeps_what_was_read() {
    let pairwise = || vec![CipherSuite::Standard(CipherSuiteType::CCMP)];
    let akm = || vec![AKMSuite::Standard(AKMSuiteType::PSK)];
    for len in 0..=WPA2_PSK.len() {
        let decoded = decode_rsn(&WPA2_PSK[..len]);
        if len < 2 {
            assert_eq!(decoded, None);
            continue;
        }
        let expected = RSN {
            group_cipher_suite: if len >= 6 { Some(CipherSuite::Standard(CipherSuiteType::CCMP)) } else { None },
            pairwise_cipher_suites: if len >= 12 { pairwise() } else { vec![] },
            akm_suites: if len >= 18 { akm() } else { vec![] },
            capabilities: if len >= 20 { Some(no_capabilities()) } else { None },
        };
        assert_eq!(decoded, Some(RSNVersion::Standard(expected)), "length {}", len);
    }
}

#[test]
fn rsn_version_is_read_little_endian() {
    assert_eq!(decode_rsn(&[0x01, 0x02]), Some(RSNVersion::Reserved(0x0201)));
    assert_eq!(decode_rsn(&[0x00, 0x01]), Some(RSNVersion::Reserved(0x0100)));
    assert_eq!(decode_rsn(&[0x02, 0x00, 0x00, 0x0f, 0xac, 0x04]), Some(RSNVersion::Reserved(2)));
    assert_eq!(decode_rsn(&[0x00, 0x00]), Some(RSNVersion::Reserved(0)));
}

#[test]
fn rsn_too_short_for_a_version_is_absent() {
    assert_eq!(decode_rsn(&[]), None);
    assert_eq!(decode_rsn(&[0x01]), None);
}

#[test]
fn rsn_version_alone_is_an_empty_descriptor() {
    let expected = RSN {
        group_cipher_suite: None,
        pairwise_cipher_suites: vec![],
        akm_suites: vec![],
        capabilities: None,
    };
    assert_eq!(decode_rsn(&[0x01, 0x00]), Some(RSNVersion::Standard(expected)));
    assert_eq!(make_std_rsn(&[]), RSN::default());
}

#[test]
fn rsn_list_shorter_than_declared_stops_decoding() {
    // Three pairwise suites declared, two present, then nothing.
    let bytes = [
        0x00, 0x0f, 0xac, 0x02, // group: TKIP
        0x03, 0x00, // three declared
        0x00, 0x0f, 0xac, 0x04, // CCMP
        0x00, 0x50, 0xf2, 0x02, // vendor
        0x01, 0x00, // two bytes that are no whole suite
    ];
    let rsn = make_std_rsn(&bytes);
    assert_eq!(rsn.group_cipher_suite, Some(CipherSuite::Standard(CipherSuiteType::TKIP)));
    assert_eq!(
        rsn.pairwise_cipher_suites,
        vec![
            CipherSuite::Standard(CipherSuiteType::CCMP),
            CipherSuite::Vendor([0x00, 0x50, 0xf2], 0x02),
        ]
    );
    assert_eq!(rsn.akm_suites, vec![]);
    assert_eq!(rsn.capabilities, None);
}

#[test]
fn rsn_with_several_suites_in_order() {
    let bytes = [
        0x00, 0x0f, 0xac, 0x02, // group: TKIP
        0x02, 0x00, // two pairwise
        0x00, 0x0f, 0xac, 0x04, // CCMP
        0x00, 0x0f, 0xac, 0x02, // TKIP
        0x03, 0x00, // three authentication suites
        0x00, 0x0f, 0xac, 0x01, // 802.1X
        0x00, 0x0f, 0xac, 0x08, // SAE
        0x00, 0x50, 0xf2, 0x01, // vendor
        0x8c, 0x02, // capabilities
        0xff, 0xff, // trailing bytes are ignored
    ];
    let rsn = make_std_rsn(&bytes);
    assert_eq!(
        rsn.pairwise_cipher_suites,
        vec![
            CipherSuite::Standard(CipherSuiteType::CCMP),
            CipherSuite::Standard(CipherSuiteType::TKIP),
        ]
    );
    assert_eq!(
        rsn.akm_suites,
        vec![
            AKMSuite::Standard(AKMSuiteType::IEEE802_1X),
            AKMSuite::Standard(AKMSuiteType::SAE),
            AKMSuite::Vendor([0x00, 0x50, 0xf2], 0x01),
        ]
    );
    assert_eq!(
        rsn.capabilities,
        Some(RSNCapabilities {
            pre_auth: false,
            pairwise: false,
            ptksa_replay_counter_value: 3,
            gtksa_replay_counter_value: 0,
            management_frame_protection_required: false,
            management_frame_protection_capable: true,
            joint_multi_band_rsna: false,
            peerkey: true,
        })
    );
}

#[test]
fn rsn_with_empty_lists() {
    let bytes = [
        0x00, 0x0f, 0xac, 0x04, // group
        0x00, 0x00, // no pairwise
        0x00, 0x00, // no authentication suites
        0x01, 0x00, // capabilities
    ];
    let rsn = make_std_rsn(&bytes);
    assert_eq!(rsn.pairwise_cipher_suites, vec![]);
    assert_eq!(rsn.akm_suites, vec![]);
    let mut expected = no_capabilities();
    expected.pre_auth = true;
    assert_eq!(rsn.capabilities, Some(expected));
}

#[test]
fn capability_bits_unpack_one_by_one() {
    assert_eq!(RSNCapabilities::from_bits(0), no_capabilities());

    let mut c = no_capabilities();
    c.pre_auth = true;
    assert_eq!(RSNCapabilities::from_bits(0x0001), c);

    let mut c = no_capabilities();
    c.pairwise = true;
    assert_eq!(RSNCapabilities::from_bits(0x0002), c);

    for code in 0..4u16 {
        let mut c = no_capabilities();
        c.ptksa_replay_counter_value = code as u8;
        assert_eq!(RSNCapabilities::from_bits(code << 2), c);

        let mut c = no_capabilities();
        c.gtksa_replay_counter_value = code as u8;
        assert_eq!(RSNCapabilities::from_bits(code << 4), c);
    }

    let mut c = no_capabilities();
    c.management_frame_protection_required = true;
    assert_eq!(RSNCapabilities::from_bits(0x0040), c);

    let mut c = no_capabilities();
    c.management_frame_protection_capable = true;
    assert_eq!(RSNCapabilities::from_bits(0x0080), c);

    let mut c = no_capabilities();
    c.joint_multi_band_rsna = true;
    assert_eq!(RSNCapabilities::from_bits(0x0100), c);

    let mut c = no_capabilities();
    c.peerkey = true;
    assert_eq!(RSNCapabilities::from_bits(0x0200), c);

    // The six highest bits carry nothing.
    assert_eq!(RSNCapabilities::from_bits(0xfc00), no_capabilities());

    assert_eq!(
        RSNCapabilities::from_bits(0xffff),
        RSNCapabilities {
            pre_auth: true,
            pairwise: true,
            ptksa_replay_counter_value: 3,
            gtksa_replay_counter_value: 3,
            management_frame_protection_required: true,
            management_frame_protection_capable: true,
            joint_multi_band_rsna: true,
            peerkey: true,
        }
    );
}

#[test]
fn cipher_suite_types_by_code() {
    assert_eq!(CipherSuiteType::from(0), CipherSuiteType::Reserved(0));
    assert_eq!(CipherSuiteType::from(1), CipherSuiteType::WEP40);
    assert_eq!(CipherSuiteType::from(2), CipherSuiteType::TKIP);
    assert_eq!(CipherSuiteType::from(3), CipherSuiteType::Reserved(3));
    assert_eq!(CipherSuiteType::from(4), CipherSuiteType::CCMP);
    assert_eq!(CipherSuiteType::from(5), CipherSuiteType::WEP104);
    assert_eq!(CipherSuiteType::from(6), CipherSuiteType::BIP);
    assert_eq!(CipherSuiteType::from(7), CipherSuiteType::GroupAddressedTrafficNotAllowed);
    for code in 8..=255u8 {
        assert_eq!(CipherSuiteType::from(code), CipherSuiteType::Reserved(code));
    }
}

#[test]
fn akm_suite_types_by_code() {
    assert_eq!(AKMSuiteType::from(0), AKMSuiteType::Reserved(0));
    assert_eq!(AKMSuiteType::from(1), AKMSuiteType::IEEE802_1X);
    assert_eq!(AKMSuiteType::from(2), AKMSuiteType::PSK);
    assert_eq!(AKMSuiteType::from(3), AKMSuiteType::FTOver802_1X);
    assert_eq!(AKMSuiteType::from(4), AKMSuiteType::FTPSK);
    assert_eq!(AKMSuiteType::from(5), AKMSuiteType::IEEE802_1XSHA);
    assert_eq!(AKMSuiteType::from(6), AKMSuiteType::PSKSHA);
    assert_eq!(AKMSuiteType::from(7), AKMSuiteType::TDLS);
    assert_eq!(AKMSuiteType::from(8), AKMSuiteType::SAE);
    assert_eq!(AKMSuiteType::from(9), AKMSuiteType::FTOverSAE);
    for code in 10..=255u8 {
        assert_eq!(AKMSuiteType::from(code), AKMSuiteType::Reserved(code));
    }
}

#[test]
fn suites_are_standard_only_under_the_registered_identifier() {
    assert_eq!(
        CipherSuite::from([0x00, 0x0f, 0xac], 4),
        CipherSuite::Standard(CipherSuiteType::CCMP)
    );
    assert_eq!(CipherSuite::from([0x00, 0x0f, 0xac], 200), CipherSuite::Standard(CipherSuiteType::Reserved(200)));
    assert_eq!(CipherSuite::from([0x00, 0x50, 0xf2], 4), CipherSuite::Vendor([0x00, 0x50, 0xf2], 4));
    assert_eq!(CipherSuite::from([0x01, 0x0f, 0xac], 4), CipherSuite::Vendor([0x01, 0x0f, 0xac], 4));
    assert_eq!(CipherSuite::from([0x00, 0x0e, 0xac], 4), CipherSuite::Vendor([0x00, 0x0e, 0xac], 4));
    assert_eq!(CipherSuite::from([0x00, 0x0f, 0xad], 4), CipherSuite::Vendor([0x00, 0x0f, 0xad], 4));

    assert_eq!(AKMSuite::from([0x00, 0x0f, 0xac], 2), AKMSuite::Standard(AKMSuiteType::PSK));
    assert_eq!(AKMSuite::from([0x00, 0x0f, 0xac], 0), AKMSuite::Standard(AKMSuiteType::Reserved(0)));
    assert_eq!(AKMSuite::from([0x00, 0x50, 0xf2], 2), AKMSuite::Vendor([0x00, 0x50, 0xf2], 2));
    assert_eq!(AKMSuite::from([0xac, 0x0f, 0x00], 2), AKMSuite::Vendor([0xac, 0x0f, 0x00], 2));
}
