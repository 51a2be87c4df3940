//! Advertising payloads: typed entries and their length-type-value encoding.

use vstd::prelude::*;
use vstd::slice::slice_to_vec;
use vstd::string::{StrSliceExecFns, StringSliceAdditionalSpecFns};

use crate::text::{append_decimal, decimal};

verus! {

/// The most bytes an encoded advertising payload may take.
pub const MAX_ADVERTISE_ENCODED_LEN: usize = 31;

/// The advertising data types this binding writes, by their assigned numbers.
#[derive(Clone, Copy, Debug, PartialEq, Eq, Structural)]
pub enum BleAdvDataType {
    Flags,
    Service16bitUuidMoreAvailable,
    Service16bitUuidComplete,
    Service32bitUuidMoreAvailable,
    Service32bitUuidComplete,
    Service128bitUuidMoreAvailable,
    Service128bitUuidComplete,
    ShortLocalName,
    CompleteLocalName,
    TxPowerLevel,
    ClassOfDevice,
    SimplePairingHashC,
    SimplePairingRandomizerR,
    SecurityManagerTkValue,
    SecurityManagerOobFlags,
    SlaveConnectionIntervalRange,
    SolicitedSeviceUuids16bit,
    SolicitedSeviceUuids128bit,
    ServiceData,
    PublicTargetAddress,
    RandomTargetAddress,
    Appearance,
    AdvertisingInterval,
    LeBluetoothDeviceAddress,
    LeRole,
    SimplePairngHashC256,
    SimplePairngRandomizerR256,
    ServiceData32bitUuid,
    ServiceData128bitUuid,
    Uri,
    Information3dData,
    ManufacturerSpecificData,
}

pub open spec fn adv_type_code(t: BleAdvDataType) -> u8 {
    match t {
        BleAdvDataType::Flags => 0x01,
        BleAdvDataType::Service16bitUuidMoreAvailable => 0x02,
        BleAdvDataType::Service16bitUuidComplete => 0x03,
        BleAdvDataType::Service32bitUuidMoreAvailable => 0x04,
        BleAdvDataType::Service32bitUuidComplete => 0x05,
        BleAdvDataType::Service128bitUuidMoreAvailable => 0x06,
        BleAdvDataType::Service128bitUuidComplete => 0x07,
        BleAdvDataType::ShortLocalName => 0x08,
        BleAdvDataType::CompleteLocalName => 0x09,
        BleAdvDataType::TxPowerLevel => 0x0A,
        BleAdvDataType::ClassOfDevice => 0x0D,
        BleAdvDataType::SimplePairingHashC => 0x0E,
        BleAdvDataType::SimplePairingRandomizerR => 0x0F,
        BleAdvDataType::SecurityManagerTkValue => 0x10,
        BleAdvDataType::SecurityManagerOobFlags => 0x11,
        BleAdvDataType::SlaveConnectionIntervalRange => 0x12,
        BleAdvDataType::SolicitedSeviceUuids16bit => 0x14,
        BleAdvDataType::SolicitedSeviceUuids128bit => 0x15,
        BleAdvDataType::ServiceData => 0x16,
        BleAdvDataType::PublicTargetAddress => 0x17,
        BleAdvDataType::RandomTargetAddress => 0x18,
        BleAdvDataType::Appearance => 0x19,
        BleAdvDataType::AdvertisingInterval => 0x1A,
        BleAdvDataType::LeBluetoothDeviceAddress => 0x1B,
        BleAdvDataType::LeRole => 0x1C,
        BleAdvDataType::SimplePairngHashC256 => 0x1D,
        BleAdvDataType::SimplePairngRandomizerR256 => 0x1E,
        BleAdvDataType::ServiceData32bitUuid => 0x20,
        BleAdvDataType::ServiceData128bitUuid => 0x21,
        BleAdvDataType::Uri => 0x24,
        BleAdvDataType::Information3dData => 0x3D,
        BleAdvDataType::ManufacturerSpecificData => 0xFF,
    }
}

impl BleAdvDataType {
    pub fn code(self) -> (r: u8)
        ensures
            r == adv_type_code(self),
    {
        match self {
            BleAdvDataType::Flags => 0x01,
            BleAdvDataType::Service16bitUuidMoreAvailable => 0x02,
            BleAdvDataType::Service16bitUuidComplete => 0x03,
            BleAdvDataType::Service32bitUuidMoreAvailable => 0x04,
            BleAdvDataType::Service32bitUuidComplete => 0x05,
            BleAdvDataType::Service128bitUuidMoreAvailable => 0x06,
            BleAdvDataType::Service128bitUuidComplete => 0x07,
            BleAdvDataType::ShortLocalName => 0x08,
            BleAdvDataType::CompleteLocalName => 0x09,
            BleAdvDataType::TxPowerLevel => 0x0A,
            BleAdvDataType::ClassOfDevice => 0x0D,
            BleAdvDataType::SimplePairingHashC => 0x0E,
            BleAdvDataType::SimplePairingRandomizerR => 0x0F,
            BleAdvDataType::SecurityManagerTkValue => 0x10,
            BleAdvDataType::SecurityManagerOobFlags => 0x11,
            BleAdvDataType::SlaveConnectionIntervalRange => 0x12,
            BleAdvDataType::SolicitedSeviceUuids16bit => 0x14,
            BleAdvDataType::SolicitedSeviceUuids128bit => 0x15,
            BleAdvDataType::ServiceData => 0x16,
            BleAdvDataType::PublicTargetAddress => 0x17,
            BleAdvDataType::RandomTargetAddress => 0x18,
            BleAdvDataType::Appearance => 0x19,
            BleAdvDataType::AdvertisingInterval => 0x1A,
            BleAdvDataType::LeBluetoothDeviceAddress => 0x1B,
            BleAdvDataType::LeRole => 0x1C,
            BleAdvDataType::SimplePairngHashC256 => 0x1D,
            BleAdvDataType::SimplePairngRandomizerR256 => 0x1E,
            BleAdvDataType::ServiceData32bitUuid => 0x20,
            BleAdvDataType::ServiceData128bitUuid => 0x21,
            BleAdvDataType::Uri => 0x24,
            BleAdvDataType::Information3dData => 0x3D,
            BleAdvDataType::ManufacturerSpecificData => 0xFF,
        }
    }
}

impl From<BleAdvDataType> for u8 {
    fn from(value: BleAdvDataType) -> (r: u8) {
        value.code()
    }
}

impl vstd::std_specs::convert::FromSpecImpl<BleAdvDataType> for u8 {
    open spec fn obeys_from_spec() -> bool {
        true
    }

    open spec fn from_spec(value: BleAdvDataType) -> u8 {
        adv_type_code(value)
    }
}

/// The flags entry of an advertising payload, one bit per flag.
#[derive(Clone, Copy, Debug, PartialEq, Eq, Structural)]
pub struct AdvertisingFlags {
    pub bits: u8,
}

pub const LIMITED_DISCOVERY_MODE: u8 = 0x01;
pub const GENERAL_DISCOVERY_MODE: u8 = 0x02;
pub const BR_EDR_NOT_SUPPORTED: u8 = 0x04;
pub const BR_EDR_CONTROLLER: u8 = 0x08;
pub const BR_EDR_HOST: u8 = 0x10;

impl AdvertisingFlags {
    /// The flags whose bits are set in `bits`; bits that name no flag are dropped.
    pub fn from_bits_truncate(bits: u8) -> (r: AdvertisingFlags)
        ensures
            r.bits == bits & 0x1F,
    {
        AdvertisingFlags { bits: bits & 0x1F }
    }

    pub fn bits(&self) -> (r: u8)
        ensures
            r == self.bits,
    {
        self.bits
    }
}

impl From<AdvertisingFlags> for u8 {
    fn from(value: AdvertisingFlags) -> (r: u8) {
        value.bits
    }
}

impl vstd::std_specs::convert::FromSpecImpl<AdvertisingFlags> for u8 {
    open spec fn obeys_from_spec() -> bool {
        true
    }

    open spec fn from_spec(value: AdvertisingFlags) -> u8 {
        value.bits
    }
}

/// An entry of an advertising payload: its data type and its bytes.
pub type AdvEntry = (u8, Seq<u8>);

pub open spec fn has_type(entries: Seq<AdvEntry>, t: u8) -> bool {
    exists|i: int| 0 <= i < entries.len() && entries[i].0 == t
}

/// No data type appears twice.
pub open spec fn types_unique(entries: Seq<AdvEntry>) -> bool {
    forall|i: int, j: int| 0 <= i < entries.len() && 0 <= j < entries.len() && entries[i].0 == entries[j].0 ==> i == j
}

/// The entries after setting type `t` to `data`: an entry of that type is replaced in
/// place, otherwise the entry is added at the end.
pub open spec fn put_entry(entries: Seq<AdvEntry>, t: u8, data: Seq<u8>) -> Seq<AdvEntry> {
    if has_type(entries, t) {
        entries.update(choose|i: int| 0 <= i < entries.len() && entries[i].0 == t, (t, data))
    } else {
        entries.push((t, data))
    }
}

/// The length byte of an entry: the data and its type byte, modulo 256.
pub open spec fn entry_len_byte(data: Seq<u8>) -> u8 {
    ((data.len() + 1) % 256) as u8
}

/// The length-type-value encoding of the entries, in order.
pub open spec fn encoded(entries: Seq<AdvEntry>) -> Seq<u8>
    decreases entries.len(),
{
    if entries.len() == 0 {
        Seq::empty()
    } else {
        let e = entries.last();
        encoded(entries.drop_last()) + seq![entry_len_byte(e.1), e.0] + e.1
    }
}

/// The little-endian bytes of each 16-bit service identifier, in order.
pub open spec fn uuid16_bytes(uuids: Seq<u16>) -> Seq<u8>
    decreases uuids.len(),
{
    if uuids.len() == 0 {
        Seq::empty()
    } else {
        let u = uuids.last();
        uuid16_bytes(uuids.drop_last()) + seq![(u & 0xFF) as u8, (u >> 8) as u8]
    }
}

/// The data type of a list of 128-bit service identifiers.
pub open spec fn uuid128_list_type(is_complete_list: bool) -> u8 {
    if is_complete_list { 0x07 } else { 0x06 }
}

/// Byte `k` of a 128-bit service identifier, most significant first.
pub open spec fn be_byte(u: u128, k: int) -> u8 {
    ((u >> ((120 - 8 * k) as u32)) & 0xFF) as u8
}

/// The sixteen bytes of a 128-bit service identifier, most significant first.
pub open spec fn be_bytes(u: u128) -> Seq<u8> {
    Seq::new(16, |k: int| be_byte(u, k))
}

/// The bytes of each 128-bit service identifier, in order.
pub open spec fn uuid128_bytes(uuids: Seq<u128>) -> Seq<u8>
    decreases uuids.len(),
{
    if uuids.len() == 0 {
        Seq::empty()
    } else {
        uuid128_bytes(uuids.drop_last()) + be_bytes(uuids.last())
    }
}

/// The message of a payload that is too long.
pub open spec fn too_long_message(n: nat) -> Seq<char> {
    "Encoded length too long: "@ + decimal(n) + " bytes"@
}

/// The entries of an advertising payload, each data type at most once, in the order
/// the types were first set.
pub struct AdvData {
    entries: Vec<(u8, Vec<u8>)>,
}

impl View for AdvData {
    type V = Seq<AdvEntry>;

    closed spec fn view(&self) -> Seq<AdvEntry> {
        self.entries@.map_values(|e: (u8, Vec<u8>)| (e.0, e.1@))
    }
}

impl Default for AdvData {
    fn default() -> (r: AdvData)
        ensures
            r@ == Seq::<AdvEntry>::empty(),
    {
        let r = AdvData { entries: Vec::new() };
        assert(r@ =~= Seq::<AdvEntry>::empty());
        r
    }
}

impl AdvData {
    pub open spec fn wf(&self) -> bool {
        types_unique(self@)
    }

    /// Sets the entry of type `adv_type` to a copy of `data`.
    pub fn add_entry(&mut self, adv_type: u8, data: &[u8])
        requires
            old(self).wf(),
        ensures
            final(self).wf(),
            final(self)@ == put_entry(old(self)@, adv_type, data@),
    {
        let bytes = slice_to_vec(data);
        self.put(adv_type, bytes);
    }

    /// The position of the entry of type `adv_type`, if there is one.
    fn position(&self, adv_type: u8) -> (r: Option<usize>)
        ensures
            match r {
                Some(i) => i < self@.len() && self@[i as int].0 == adv_type,
                None => !has_type(self@, adv_type),
            },
    {
        let mut i: usize = 0;
        while i < self.entries.len()
            invariant
                i <= self.entries@.len(),
                self@.len() == self.entries@.len(),
                forall|k: int| 0 <= k < i ==> self@[k].0 != adv_type,
            decreases self.entries@.len() - i,
        {
            if self.entries[i].0 == adv_type {
                return Some(i);
            }
            i += 1;
        }
        None
    }

    fn put(&mut self, adv_type: u8, bytes: Vec<u8>)
        requires
            old(self).wf(),
        ensures
            final(self).wf(),
            final(self)@ == put_entry(old(self)@, adv_type, bytes@),
    {
        let ghost before = self@;
        let ghost new_bytes = bytes@;
        match self.position(adv_type) {
            Some(i) => {
                assert(has_type(before, adv_type));
                let ghost j = choose|j: int| 0 <= j < before.len() && before[j].0 == adv_type;
                assert(j == i);
                self.entries.set(i, (adv_type, bytes));
                assert(self@ =~= before.update(i as int, (adv_type, new_bytes)));
            },
            None => {
                self.entries.push((adv_type, bytes));
                assert(self@ =~= before.push((adv_type, new_bytes)));
            },
        }
    }

    pub fn set_flags(&mut self, flags: AdvertisingFlags)
        requires
            old(self).wf(),
        ensures
            final(self).wf(),
            final(self)@ == put_entry(old(self)@, 0x01, seq![flags.bits]),
    {
        let mut data: Vec<u8> = Vec::new();
        data.push(flags.bits());
        self.put(BleAdvDataType::Flags.code(), data);
        assert(data@ =~= seq![flags.bits]);
    }

    /// Sets the device name, as its UTF-8 bytes, under the complete-name type or the
    /// short-name type.
    pub fn set_name(&mut self, name: &str, is_complete: bool)
        requires
            old(self).wf(),
        ensures
            final(self).wf(),
            final(self)@ == put_entry(old(self)@, if is_complete { 0x09u8 } else { 0x08u8 }, name.spec_bytes()),
    {
        let adv_type = if is_complete {
            BleAdvDataType::CompleteLocalName
        } else {
            BleAdvDataType::ShortLocalName
        };
        let data = name.as_bytes_vec();
        self.put(adv_type.code(), data);
    }

    /// Sets the list of 16-bit service identifiers, each written little-endian.
    pub fn set_service_uuid16s(&mut self, uuids: &[u16], is_complete_list: bool)
        requires
            old(self).wf(),
        ensures
            final(self).wf(),
            final(self)@ == put_entry(old(self)@, if is_complete_list { 0x03u8 } else { 0x02u8 }, uuid16_bytes(uuids@)),
    {
        let adv_type = if is_complete_list {
            BleAdvDataType::Service16bitUuidComplete
        } else {
            BleAdvDataType::Service16bitUuidMoreAvailable
        };
        let mut data: Vec<u8> = Vec::new();
        let mut i: usize = 0;
        while i < uuids.len()
            invariant
                i <= uuids@.len(),
                data@ == uuid16_bytes(uuids@.subrange(0, i as int)),
            decreases uuids@.len() - i,
        {
            let u = uuids[i];
            data.push((u & 0xFF) as u8);
            data.push((u >> 8) as u8);
            assert(uuids@.subrange(0, i + 1).drop_last() =~= uuids@.subrange(0, i as int));
            i += 1;
        }
        assert(uuids@.subrange(0, uuids@.len() as int) =~= uuids@);
        self.put(adv_type.code(), data);
    }

    /// Sets the list of 128-bit service identifiers, each given as its 128-bit value
    /// (as `uuid::Uuid::as_u128` reads it) and written most significant byte first.
    pub fn set_service_uuid128s(&mut self, uuids: &[u128], is_complete_list: bool)
        requires
            old(self).wf(),
        ensures
            final(self).wf(),
            final(self)@ == put_entry(old(self)@, uuid128_list_type(is_complete_list), uuid128_bytes(uuids@)),
    {
        let adv_type = if is_complete_list {
            BleAdvDataType::Service128bitUuidComplete
        } else {
            BleAdvDataType::Service128bitUuidMoreAvailable
        };
        let mut data: Vec<u8> = Vec::new();
        let mut i: usize = 0;
        while i < uuids.len()
            invariant
                i <= uuids@.len(),
                data@ == uuid128_bytes(uuids@.subrange(0, i as int)),
            decreases uuids@.len() - i,
        {
            let u = uuids[i];
            let ghost base = data@;
            let mut k: u32 = 0;
            while k < 16
                invariant
                    k <= 16,
                    data@ == base + Seq::new(k as nat, |j: int| be_byte(u, j)),
                decreases 16 - k,
            {
                data.push(((u >> (120 - 8 * k)) & 0xFF) as u8);
                assert(data@ =~= base + Seq::new((k + 1) as nat, |j: int| be_byte(u, j)));
                k += 1;
            }
            assert(uuids@.subrange(0, i + 1).drop_last() =~= uuids@.subrange(0, i as int));
            assert(Seq::new(16, |j: int| be_byte(u, j)) =~= be_bytes(u));
            i += 1;
        }
        assert(uuids@.subrange(0, uuids@.len() as int) =~= uuids@);
        self.put(adv_type.code(), data);
    }

    /// The length-type-value encoding of the entries, in order.
    pub fn serialize(&self) -> (r: Vec<u8>)
        ensures
            r@ == encoded(self@),
    {
        let mut adv_data: Vec<u8> = Vec::new();
        let mut i: usize = 0;
        while i < self.entries.len()
            invariant
                i <= self@.len(),
                self@.len() == self.entries@.len(),
                adv_data@ == encoded(self@.subrange(0, i as int)),
            decreases self.entries@.len() - i,
        {
            let adv_type = self.entries[i].0;
            let data = &self.entries[i].1;
            let ghost e = self@[i as int];
            assert(e == (adv_type, data@));
            adv_data.push(((data.len() % 256) as u8).wrapping_add(1));
            adv_data.push(adv_type);
            let mut k: usize = 0;
            let ghost base = adv_data@;
            while k < data.len()
                invariant
                    k <= data@.len(),
                    adv_data@ == base + data@.subrange(0, k as int),
                decreases data@.len() - k,
            {
                adv_data.push(data[k]);
                assert(data@.subrange(0, k + 1) =~= data@.subrange(0, k as int).push(data@[k as int]));
                k += 1;
            }
            assert(data@.subrange(0, data@.len() as int) =~= data@);
            assert(self@.subrange(0, i + 1).drop_last() =~= self@.subrange(0, i as int));
            assert(((data@.len() % 256) as u8).wrapping_add(1) == entry_len_byte(data@)) by {
                let m = data@.len() % 256;
                assert(((m as u8) as int + 1) % 256 == (data@.len() + 1) % 256);
            }
            assert(adv_data@ =~= encoded(self@.subrange(0, i as int)) + seq![entry_len_byte(e.1), e.0] + e.1);
            i += 1;
        }
        assert(self@.subrange(0, self@.len() as int) =~= self@);
        adv_data
    }

    /// `Ok` when the encoding fits in an advertising payload, else a message that
    /// gives its length.
    pub fn validate(&self) -> (r: Result<(), String>)
        ensures
            r is Ok <==> encoded(self@).len() <= MAX_ADVERTISE_ENCODED_LEN,
            r matches Err(m) ==> m@ == too_long_message(encoded(self@).len()),
    {
        let encoded_length = self.serialize().len();
        if encoded_length <= MAX_ADVERTISE_ENCODED_LEN {
            Ok(())
        } else {
            let mut message = String::from_str("Encoded length too long: ");
            append_decimal(&mut message, encoded_length as u64);
            message.append(" bytes");
            proof {
                reveal_strlit("Encoded length too long: ");
                reveal_strlit(" bytes");
            }
            Err(message)
        }
    }
}

} // verus!
