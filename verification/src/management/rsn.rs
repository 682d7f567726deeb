//! The Robust Security Network element: cipher suites, authentication and
//! key management suites, and capability bits.

use crate::wire::{le16, read_u16_le};
use vstd::prelude::*;
use vstd::slice::slice_subrange;

verus! {

/// The cipher a standard suite selects.
#[derive(Debug, PartialEq)]
pub enum CipherSuiteType {
    UseGroupCipherSuite,
    WEP40,
    TKIP,
    /// A code with no cipher assigned, kept as read.
    Reserved(u8),
    /// AES in CCM mode.
    CCMP,
    WEP104,
    BIP,
    GroupAddressedTrafficNotAllowed,
}

impl CipherSuiteType {
    /// The cipher that the type byte `code` of a standard suite selects.
    pub open spec fn of(code: u8) -> CipherSuiteType {
        match code {
            1 => CipherSuiteType::WEP40,
            2 => CipherSuiteType::TKIP,
            4 => CipherSuiteType::CCMP,
            5 => CipherSuiteType::WEP104,
            6 => CipherSuiteType::BIP,
            7 => CipherSuiteType::GroupAddressedTrafficNotAllowed,
            other => CipherSuiteType::Reserved(other),
        }
    }

    /// The type byte that stands for this cipher on the wire.
    pub open spec fn code(self) -> u8 {
        match self {
            CipherSuiteType::UseGroupCipherSuite => 0,
            CipherSuiteType::WEP40 => 1,
            CipherSuiteType::TKIP => 2,
            CipherSuiteType::Reserved(code) => code,
            CipherSuiteType::CCMP => 4,
            CipherSuiteType::WEP104 => 5,
            CipherSuiteType::BIP => 6,
            CipherSuiteType::GroupAddressedTrafficNotAllowed => 7,
        }
    }

    pub fn from(type_: u8) -> (kind: Self)
        ensures
            kind == Self::of(type_),
    {
        match type_ {
            1 => Self::WEP40,
            2 => Self::TKIP,
            4 => Self::CCMP,
            5 => Self::WEP104,
            6 => Self::BIP,
            7 => Self::GroupAddressedTrafficNotAllowed,
            other => Self::Reserved(other),
        }
    }

    /// No type byte is lost: the cipher read from `code` stands for `code`,
    /// and it is a reserved holder exactly for 0, 3 and the codes from 8 on.
    pub proof fn lemma_code_is_kept(code: u8)
        ensures
            Self::of(code).code() == code,
            Self::of(code) is Reserved <==> code == 0 || code == 3 || code >= 8,
    {
    }
}

/// Whether `oui` is the organizational identifier 00:0F:AC, under which the
/// standard registers its own suites.
pub open spec fn is_standard_oui(oui: [u8; 3]) -> bool {
    oui[0] == 0x00 && oui[1] == 0x0f && oui[2] == 0xac
}

/// A cipher suite selector: one the standard defines, or a vendor's own,
/// kept as its organizational identifier and type byte.
#[derive(Debug, PartialEq)]
pub enum CipherSuite {
    Standard(CipherSuiteType),
    Vendor([u8; 3], u8),
}

impl CipherSuite {
    /// The suite that the selector `oui`, `type_` names.
    pub open spec fn of(oui: [u8; 3], type_: u8) -> CipherSuite {
        if is_standard_oui(oui) {
            CipherSuite::Standard(CipherSuiteType::of(type_))
        } else {
            CipherSuite::Vendor(oui, type_)
        }
    }

    pub fn from(oui: [u8; 3], type_: u8) -> (suite: Self)
        ensures
            suite == Self::of(oui, type_),
    {
        if oui[0] == 0x00 && oui[1] == 0x0f && oui[2] == 0xac {
            Self::Standard(CipherSuiteType::from(type_))
        } else {
            Self::Vendor(oui, type_)
        }
    }
}

/// The method a standard authentication and key management suite selects.
#[derive(Debug, PartialEq)]
pub enum AKMSuiteType {
    /// A code with no method assigned, kept as read.
    Reserved(u8),
    /// IEEE 802.1X with the RSNA default key derivation.
    IEEE802_1X,
    /// Pre-shared key.
    PSK,
    /// Fast transition negotiated over IEEE 802.1X.
    FTOver802_1X,
    /// Fast transition using a pre-shared key.
    FTPSK,
    /// IEEE 802.1X with SHA-256 key derivation.
    IEEE802_1XSHA,
    /// Pre-shared key with SHA-256 key derivation.
    PSKSHA,
    /// Tunnelled direct link setup handshake.
    TDLS,
    /// Simultaneous authentication of equals with SHA-256.
    SAE,
    /// Fast transition over simultaneous authentication of equals.
    FTOverSAE,
}

impl AKMSuiteType {
    /// The method that the type byte `code` of a standard suite selects.
    pub open spec fn of(code: u8) -> AKMSuiteType {
        match code {
            1 => AKMSuiteType::IEEE802_1X,
            2 => AKMSuiteType::PSK,
            3 => AKMSuiteType::FTOver802_1X,
            4 => AKMSuiteType::FTPSK,
            5 => AKMSuiteType::IEEE802_1XSHA,
            6 => AKMSuiteType::PSKSHA,
            7 => AKMSuiteType::TDLS,
            8 => AKMSuiteType::SAE,
            9 => AKMSuiteType::FTOverSAE,
            other => AKMSuiteType::Reserved(other),
        }
    }

    /// The type byte that stands for this method on the wire.
    pub open spec fn code(self) -> u8 {
        match self {
            AKMSuiteType::Reserved(code) => code,
            AKMSuiteType::IEEE802_1X => 1,
            AKMSuiteType::PSK => 2,
            AKMSuiteType::FTOver802_1X => 3,
            AKMSuiteType::FTPSK => 4,
            AKMSuiteType::IEEE802_1XSHA => 5,
            AKMSuiteType::PSKSHA => 6,
            AKMSuiteType::TDLS => 7,
            AKMSuiteType::SAE => 8,
            AKMSuiteType::FTOverSAE => 9,
        }
    }

    pub fn from(type_: u8) -> (kind: Self)
        ensures
            kind == Self::of(type_),
    {
        match type_ {
            1 => Self::IEEE802_1X,
            2 => Self::PSK,
            3 => Self::FTOver802_1X,
            4 => Self::FTPSK,
            5 => Self::IEEE802_1XSHA,
            6 => Self::PSKSHA,
            7 => Self::TDLS,
            8 => Self::SAE,
            9 => Self::FTOverSAE,
            other => Self::Reserved(other),
        }
    }

    /// No type byte is lost: the method read from `code` stands for `code`,
    /// and it is a reserved holder exactly for 0 and the codes from 10 on.
    pub proof fn lemma_code_is_kept(code: u8)
        ensures
            Self::of(code).code() == code,
            Self::of(code) is Reserved <==> code == 0 || code >= 10,
    {
    }
}

/// An authentication and key management suite selector: one the standard
/// defines, or a vendor's own, kept as its organizational identifier and
/// type byte.
#[derive(Debug, PartialEq)]
pub enum AKMSuite {
    Standard(AKMSuiteType),
    Vendor([u8; 3], u8),
}

impl AKMSuite {
    /// The suite that the selector `oui`, `type_` names.
    pub open spec fn of(oui: [u8; 3], type_: u8) -> AKMSuite {
        if is_standard_oui(oui) {
            AKMSuite::Standard(AKMSuiteType::of(type_))
        } else {
            AKMSuite::Vendor(oui, type_)
        }
    }

    pub fn from(oui: [u8; 3], type_: u8) -> (suite: Self)
        ensures
            suite == Self::of(oui, type_),
    {
        if oui[0] == 0x00 && oui[1] == 0x0f && oui[2] == 0xac {
            Self::Standard(AKMSuiteType::from(type_))
        } else {
            Self::Vendor(oui, type_)
        }
    }
}

/// The capability bits of an RSN element.
#[derive(Debug, PartialEq)]
pub struct RSNCapabilities {
    /// The transmitter supports pre-authentication.
    pub pre_auth: bool,
    /// The transmitter cannot hold a WEP default key beside a pairwise key.
    pub pairwise: bool,
    /// Size code of the replay counters per pairwise key, 0 to 3.
    pub ptksa_replay_counter_value: u8,
    /// Size code of the replay counters per group key, 0 to 3.
    pub gtksa_replay_counter_value: u8,
    /// Management frame protection is required.
    pub management_frame_protection_required: bool,
    /// Management frame protection is supported.
    pub management_frame_protection_capable: bool,
    /// Joint multi-band RSNA is supported.
    pub joint_multi_band_rsna: bool,
    /// PeerKey handshakes are enabled.
    pub peerkey: bool,
}

/// Whether bit `index` of `bits` is set, bit 0 being the lowest.
pub open spec fn bit_is_set(bits: u16, index: nat) -> bool {
    (bits as int / vstd::arithmetic::power2::pow2(index) as int) % 2 == 1
}

/// The two-bit field of `bits` whose lower bit is bit `index`.
pub open spec fn two_bit_field(bits: u16, index: nat) -> int {
    (bits as int / vstd::arithmetic::power2::pow2(index) as int) % 4
}

impl RSNCapabilities {
    /// The capabilities that the 16-bit field `bits` packs.
    pub open spec fn of_bits(bits: u16) -> RSNCapabilities {
        RSNCapabilities {
            pre_auth: bit_is_set(bits, 0),
            pairwise: bit_is_set(bits, 1),
            ptksa_replay_counter_value: two_bit_field(bits, 2) as u8,
            gtksa_replay_counter_value: two_bit_field(bits, 4) as u8,
            management_frame_protection_required: bit_is_set(bits, 6),
            management_frame_protection_capable: bit_is_set(bits, 7),
            joint_multi_band_rsna: bit_is_set(bits, 8),
            peerkey: bit_is_set(bits, 9),
        }
    }

    /// Unpacks the 16-bit capability field.
    pub fn from_bits(bits: u16) -> (capabilities: Self)
        ensures
            capabilities == Self::of_bits(bits),
    {
        proof {
            lemma_small_powers_of_two();
            assert((bits & 0x0001 != 0) == (bits / 1 % 2 == 1)) by (bit_vector);
            assert((bits & 0x0002 != 0) == (bits / 2 % 2 == 1)) by (bit_vector);
            assert(((bits & 0x000c) >> 2) == bits / 4 % 4) by (bit_vector);
            assert(((bits & 0x0030) >> 4) == bits / 16 % 4) by (bit_vector);
            assert((bits & 0x0040 != 0) == (bits / 64 % 2 == 1)) by (bit_vector);
            assert((bits & 0x0080 != 0) == (bits / 128 % 2 == 1)) by (bit_vector);
            assert((bits & 0x0100 != 0) == (bits / 256 % 2 == 1)) by (bit_vector);
            assert((bits & 0x0200 != 0) == (bits / 512 % 2 == 1)) by (bit_vector);
        }
        RSNCapabilities {
            pre_auth: (bits & 0x0001) != 0,
            pairwise: (bits & 0x0002) != 0,
            ptksa_replay_counter_value: ((bits & 0x000c) >> 2) as u8,
            gtksa_replay_counter_value: ((bits & 0x0030) >> 4) as u8,
            management_frame_protection_required: (bits & 0x0040) != 0,
            management_frame_protection_capable: (bits & 0x0080) != 0,
            joint_multi_band_rsna: (bits & 0x0100) != 0,
            peerkey: (bits & 0x0200) != 0,
        }
    }
}

/// The powers of two that the capability field's layout uses.
proof fn lemma_small_powers_of_two()
    ensures
        vstd::arithmetic::power2::pow2(0) == 1,
        vstd::arithmetic::power2::pow2(1) == 2,
        vstd::arithmetic::power2::pow2(2) == 4,
        vstd::arithmetic::power2::pow2(4) == 16,
        vstd::arithmetic::power2::pow2(6) == 64,
        vstd::arithmetic::power2::pow2(7) == 128,
        vstd::arithmetic::power2::pow2(8) == 256,
        vstd::arithmetic::power2::pow2(9) == 512,
{
    vstd::arithmetic::power2::lemma2_to64();
}

/// The fields of a version 1 RSN element. A field that the element's bytes
/// end before keeps its empty value.
#[derive(Debug, PartialEq)]
pub struct RSN {
    pub group_cipher_suite: Option<CipherSuite>,
    pub pairwise_cipher_suites: Vec<CipherSuite>,
    pub akm_suites: Vec<AKMSuite>,
    pub capabilities: Option<RSNCapabilities>,
}

/// What an [`RSN`] holds, with its lists as sequences.
pub struct RsnFields {
    pub group_cipher_suite: Option<CipherSuite>,
    pub pairwise_cipher_suites: Seq<CipherSuite>,
    pub akm_suites: Seq<AKMSuite>,
    pub capabilities: Option<RSNCapabilities>,
}

impl View for RSN {
    type V = RsnFields;

    open spec fn view(&self) -> RsnFields {
        RsnFields {
            group_cipher_suite: self.group_cipher_suite,
            pairwise_cipher_suites: self.pairwise_cipher_suites@,
            akm_suites: self.akm_suites@,
            capabilities: self.capabilities,
        }
    }
}

impl Default for RSN {
    fn default() -> (rsn: Self)
        ensures
            rsn@ == empty_rsn(),
    {
        RSN {
            group_cipher_suite: None,
            pairwise_cipher_suites: Vec::new(),
            akm_suites: Vec::new(),
            capabilities: None,
        }
    }
}

/// An RSN element of which nothing was decoded.
pub open spec fn empty_rsn() -> RsnFields {
    RsnFields {
        group_cipher_suite: None,
        pairwise_cipher_suites: Seq::empty(),
        akm_suites: Seq::empty(),
        capabilities: None,
    }
}

/// The organizational identifier of the four-byte selector at `at`.
pub open spec fn oui_at(s: Seq<u8>, at: int) -> [u8; 3] {
    [s[at], s[at + 1], s[at + 2]]
}

/// The cipher suite that the four-byte selector at `at` names.
pub open spec fn cipher_suite_at(s: Seq<u8>, at: int) -> CipherSuite {
    CipherSuite::of(oui_at(s, at), s[at + 3])
}

/// The authentication suite that the four-byte selector at `at` names.
pub open spec fn akm_suite_at(s: Seq<u8>, at: int) -> AKMSuite {
    AKMSuite::of(oui_at(s, at), s[at + 3])
}

/// Of a list that declares `declared` four-byte entries from `at` on, the
/// number of entries that lie whole within `s`.
pub open spec fn entries_present(s: Seq<u8>, at: int, declared: int) -> int {
    let room = (s.len() - at) / 4;
    if declared <= room {
        declared
    } else {
        room
    }
}

/// Where the pairwise list's count lies: behind the group cipher suite.
pub open spec fn pairwise_count_at() -> int {
    4
}

/// Whether `s` reaches as far as the pairwise list's count.
pub open spec fn has_pairwise_count(s: Seq<u8>) -> bool {
    pairwise_count_at() + 2 <= s.len()
}

/// Where the authentication list's count lies, if the pairwise list is whole.
pub open spec fn akm_count_at(s: Seq<u8>) -> int {
    pairwise_count_at() + 2 + 4 * le16(s, pairwise_count_at())
}

/// Whether the pairwise list is whole and `s` reaches as far as the
/// authentication list's count.
pub open spec fn has_akm_count(s: Seq<u8>) -> bool {
    has_pairwise_count(s) && akm_count_at(s) + 2 <= s.len()
}

/// Where the capability field lies, if both lists are whole.
pub open spec fn capabilities_at(s: Seq<u8>) -> int {
    akm_count_at(s) + 2 + 4 * le16(s, akm_count_at(s))
}

/// Whether both lists are whole and `s` holds the capability field.
pub open spec fn has_capabilities(s: Seq<u8>) -> bool {
    has_akm_count(s) && capabilities_at(s) + 2 <= s.len()
}

/// The fields of a version 1 RSN element whose bytes behind the version
/// are `s`: the group cipher suite, the pairwise list, the authentication
/// list and the capabilities, each as far as `s` reaches. A list that `s`
/// ends within holds the entries that lie whole in `s`, and nothing behind
/// it is decoded.
pub open spec fn rsn_fields(s: Seq<u8>) -> RsnFields {
    RsnFields {
        group_cipher_suite: if 4 <= s.len() {
            Some(cipher_suite_at(s, 0))
        } else {
            None
        },
        pairwise_cipher_suites: if has_pairwise_count(s) {
            Seq::new(
                entries_present(s, pairwise_count_at() + 2, le16(s, pairwise_count_at())) as nat,
                |k: int| cipher_suite_at(s, pairwise_count_at() + 2 + 4 * k),
            )
        } else {
            Seq::empty()
        },
        akm_suites: if has_akm_count(s) {
            Seq::new(
                entries_present(s, akm_count_at(s) + 2, le16(s, akm_count_at(s))) as nat,
                |k: int| akm_suite_at(s, akm_count_at(s) + 2 + 4 * k),
            )
        } else {
            Seq::empty()
        },
        capabilities: if has_capabilities(s) {
            Some(RSNCapabilities::of_bits(le16(s, capabilities_at(s)) as u16))
        } else {
            None
        },
    }
}

/// Whether `part` holds nothing that `whole` does not: each field of
/// `part` is empty or that of `whole`, and each list of `part` is the
/// beginning of that of `whole`.
pub open spec fn is_partial_of(part: RsnFields, whole: RsnFields) -> bool {
    &&& part.group_cipher_suite is Some ==> part.group_cipher_suite == whole.group_cipher_suite
    &&& part.pairwise_cipher_suites.is_prefix_of(whole.pairwise_cipher_suites)
    &&& part.akm_suites.is_prefix_of(whole.akm_suites)
    &&& part.capabilities is Some ==> part.capabilities == whole.capabilities
}

/// Cutting an element short loses fields and changes none: what the first
/// `n` bytes of `s` decode to is a part of what `s` decodes to.
pub proof fn lemma_cut_element_is_partial(s: Seq<u8>, n: int)
    requires
        0 <= n <= s.len(),
    ensures
        is_partial_of(rsn_fields(s.take(n)), rsn_fields(s)),
{
    let cut = s.take(n);
    let part = rsn_fields(cut);
    let whole = rsn_fields(s);
    if has_pairwise_count(cut) {
        let declared = le16(s, pairwise_count_at());
        assert(le16(cut, pairwise_count_at()) == declared);
        assert((n - 6) / 4 <= (s.len() - 6) / 4) by (nonlinear_arith)
            requires
                n <= s.len(),
        ;
        assert(part.pairwise_cipher_suites =~= whole.pairwise_cipher_suites.subrange(
            0,
            part.pairwise_cipher_suites.len() as int,
        ));
        if has_akm_count(cut) {
            let at = akm_count_at(s);
            assert(akm_count_at(cut) == at);
            assert(le16(cut, at) == le16(s, at));
            assert((n - (at + 2)) / 4 <= (s.len() - (at + 2)) / 4) by (nonlinear_arith)
                requires
                    n <= s.len(),
            ;
            assert(part.akm_suites =~= whole.akm_suites.subrange(
                0,
                part.akm_suites.len() as int,
            ));
            if has_capabilities(cut) {
                assert(capabilities_at(cut) == capabilities_at(s));
            }
        } else {
            assert(part.akm_suites =~= whole.akm_suites.subrange(0, 0));
        }
    } else {
        assert(part.pairwise_cipher_suites =~= whole.pairwise_cipher_suites.subrange(0, 0));
        assert(part.akm_suites =~= whole.akm_suites.subrange(0, 0));
    }
}

impl RSN {
    fn read_suite_oui_and_type(bytes: &[u8]) -> (parts: ([u8; 3], u8))
        requires
            bytes@.len() >= 4,
        ensures
            parts.0 == oui_at(bytes@, 0),
            parts.1 == bytes@[3],
    {
        let suite_oui = [bytes[0], bytes[1], bytes[2]];
        let suite_type = bytes[3];
        (suite_oui, suite_type)
    }

    fn read_cipher_suite(bytes: &[u8]) -> (suite: CipherSuite)
        requires
            bytes@.len() >= 4,
        ensures
            suite == cipher_suite_at(bytes@, 0),
    {
        let (oui, type_) = Self::read_suite_oui_and_type(bytes);
        CipherSuite::from(oui, type_)
    }

    fn read_akm_suite(bytes: &[u8]) -> (suite: AKMSuite)
        requires
            bytes@.len() >= 4,
        ensures
            suite == akm_suite_at(bytes@, 0),
    {
        let (oui, type_) = Self::read_suite_oui_and_type(bytes);
        AKMSuite::from(oui, type_)
    }
}

/// Decodes the fields of a version 1 RSN element from `bytes`, the
/// element's value behind the version. Decoding stops where `bytes` ends:
/// what was decoded until then is returned, and the rest stays empty.
pub fn make_std_rsn(bytes: &[u8]) -> (rsn: RSN)
    ensures
        rsn@ == rsn_fields(bytes@),
{
    let len = bytes.len();
    let mut rsn = RSN::default();

    if len < 4 {
        return rsn;
    }
    let group_cipher_suite = RSN::read_cipher_suite(slice_subrange(bytes, 0, 4));
    rsn.group_cipher_suite = Some(group_cipher_suite);
    let mut i: usize = 4;

    if len - i < 2 {
        return rsn;
    }
    let pairwise_cipher_suite_count = read_u16_le(slice_subrange(bytes, i, i + 2));
    i += 2;

    let mut read: u16 = 0;
    while read < pairwise_cipher_suite_count
        invariant
            len == bytes@.len(),
            has_pairwise_count(bytes@),
            pairwise_cipher_suite_count == le16(bytes@, pairwise_count_at()),
            read <= pairwise_cipher_suite_count,
            i == pairwise_count_at() + 2 + 4 * read,
            i <= len,
            rsn.group_cipher_suite == Some(cipher_suite_at(bytes@, 0)),
            rsn.pairwise_cipher_suites@ == Seq::new(
                read as nat,
                |k: int| cipher_suite_at(bytes@, pairwise_count_at() + 2 + 4 * k),
            ),
            rsn.akm_suites@ == Seq::<AKMSuite>::empty(),
            rsn.capabilities is None,
        decreases pairwise_cipher_suite_count - read,
    {
        if len - i < 4 {
            return rsn;
        }
        let pairwise_cipher_suite = RSN::read_cipher_suite(slice_subrange(bytes, i, i + 4));
        rsn.pairwise_cipher_suites.push(pairwise_cipher_suite);
        i += 4;
        read += 1;
    }

    if len - i < 2 {
        return rsn;
    }
    let akm_suite_count = read_u16_le(slice_subrange(bytes, i, i + 2));
    i += 2;

    let mut read: u16 = 0;
    while read < akm_suite_count
        invariant
            len == bytes@.len(),
            has_akm_count(bytes@),
            akm_suite_count == le16(bytes@, akm_count_at(bytes@)),
            read <= akm_suite_count,
            i == akm_count_at(bytes@) + 2 + 4 * read,
            i <= len,
            rsn.group_cipher_suite == rsn_fields(bytes@).group_cipher_suite,
            rsn.pairwise_cipher_suites@ == rsn_fields(bytes@).pairwise_cipher_suites,
            rsn.akm_suites@ == Seq::new(
                read as nat,
                |k: int| akm_suite_at(bytes@, akm_count_at(bytes@) + 2 + 4 * k),
            ),
            rsn.capabilities is None,
        decreases akm_suite_count - read,
    {
        if len - i < 4 {
            return rsn;
        }
        let akm_suite = RSN::read_akm_suite(slice_subrange(bytes, i, i + 4));
        rsn.akm_suites.push(akm_suite);
        i += 4;
        read += 1;
    }

    if len - i < 2 {
        return rsn;
    }
    let bits = read_u16_le(slice_subrange(bytes, i, i + 2));
    rsn.capabilities = Some(RSNCapabilities::from_bits(bits));
    rsn
}

/// An RSN element by its version: version 1 with its fields, or any other
/// version as the number read.
#[derive(Debug, PartialEq)]
pub enum RSNVersion {
    Standard(RSN),
    Reserved(u16),
}

/// What an [`RSNVersion`] holds.
pub enum RsnVersionFields {
    Standard(RsnFields),
    Reserved(u16),
}

impl View for RSNVersion {
    type V = RsnVersionFields;

    open spec fn view(&self) -> RsnVersionFields {
        match self {
            RSNVersion::Standard(rsn) => RsnVersionFields::Standard(rsn@),
            RSNVersion::Reserved(version) => RsnVersionFields::Reserved(*version),
        }
    }
}

/// The RSN element whose value bytes are `s`: nothing where `s` is too
/// short to hold a version; for version 1 the fields behind it; for any
/// other version that number alone.
pub open spec fn rsn_element(s: Seq<u8>) -> Option<RsnVersionFields> {
    if s.len() < 2 {
        None
    } else if le16(s, 0) == 1 {
        Some(RsnVersionFields::Standard(rsn_fields(s.subrange(2, s.len() as int))))
    } else {
        Some(RsnVersionFields::Reserved(le16(s, 0) as u16))
    }
}

/// Decodes the value bytes of an RSN element.
pub fn decode_rsn(bytes: &[u8]) -> (element: Option<RSNVersion>)
    ensures
        match rsn_element(bytes@) {
            Some(fields) => element matches Some(version) && version@ == fields,
            None => element is None,
        },
{
    let len = bytes.len();
    if len < 2 {
        return None;
    }
    let version = read_u16_le(slice_subrange(bytes, 0, 2));
    Some(
        match version {
            1 => RSNVersion::Standard(make_std_rsn(slice_subrange(bytes, 2, len))),
            other => RSNVersion::Reserved(other),
        },
    )
}

} // verus!
