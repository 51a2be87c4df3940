use blatann::advertise_data::{AdvData, AdvertisingFlags, BleAdvDataType, GENERAL_DISCOVERY_MODE, BR_EDR_NOT_SUPPORTED};
use blatann::error::{NrfError, NrfErrorType, NRF_SUCCESS};
use blatann::gap::{BleGapAddressType, BleGapPhy, BleGapPhys};
use blatann::gap_address::BleGapAddress;

#[test]
fn error_text_names_kind_and_code() {
    assert_eq!(NrfError::new(8).to_string(), "InvalidState(8)");
    assert_eq!(NrfError::new(0x3002).to_string(), "BleInvalidConnHandle(12290)");
    assert_eq!(NrfError::new(0x8005).to_string(), "SdRpcNoResponse(32773)");
    assert_eq!(NrfError::new(77).to_string(), "Unknown(77)");
    assert_eq!(NrfError::new(0).to_string(), "Success(0)");
}

#[test]
fn error_kinds_from_codes() {
    assert_eq!(NrfErrorType::from(0), NrfErrorType::Success);
    assert_eq!(NrfErrorType::from(19), NrfErrorType::Resources);
    assert_eq!(NrfErrorType::from(0x802B), NrfErrorType::SdRpcH5TransportSlipPayloadSize);
    assert_eq!(NrfErrorType::from(0x8040), NrfErrorType::SdRpcSerialPortInternalError);
    assert_eq!(NrfErrorType::from(20), NrfErrorType::Unknown);
    assert_eq!(NrfErrorType::from(0xFFFF_FFFF), NrfErrorType::Unknown);
    assert_eq!(NrfErrorType::BleInvalidRole.code(), 0x3004);
    assert_eq!(NrfErrorType::Busy.name(), "Busy");
}

#[test]
fn make_result_splits_success_from_errors() {
    assert_eq!(NrfError::make_result(NRF_SUCCESS), Ok(()));
    let err = NrfError::make_result(13).unwrap_err();
    assert_eq!(err.error_type, NrfErrorType::Timeout);
    assert_eq!(err.error_code, 13);
}

#[test]
fn make_result_typed_builds_only_on_success() {
    assert_eq!(NrfError::make_result_typed(0, || 5u8), Ok(5));
    let r: Result<u8, NrfError> = NrfError::make_result_typed(17, || 5u8);
    assert_eq!(r, Err(NrfError { error_type: NrfErrorType::Busy, error_code: 17 }));
}

#[test]
fn adv_data_encodes_length_type_value() {
    let mut adv = AdvData::default();
    adv.set_flags(AdvertisingFlags::from_bits_truncate(GENERAL_DISCOVERY_MODE | BR_EDR_NOT_SUPPORTED));
    adv.set_name("Hi", true);
    assert_eq!(adv.serialize(), vec![2, 0x01, 0x06, 3, 0x09, b'H', b'i']);
    assert_eq!(adv.validate(), Ok(()));
}

#[test]
fn adv_data_replaces_an_entry_of_the_same_type() {
    let mut adv = AdvData::default();
    adv.add_entry(0xFF, &[1, 2, 3]);
    adv.set_name("ab", false);
    adv.add_entry(0xFF, &[9]);
    assert_eq!(adv.serialize(), vec![2, 0xFF, 9, 3, 0x08, b'a', b'b']);
}

#[test]
fn adv_data_writes_uuid16s_little_endian() {
    let mut adv = AdvData::default();
    adv.set_service_uuid16s(&[0x180D, 0x1234], true);
    assert_eq!(adv.serialize(), vec![5, 0x03, 0x0D, 0x18, 0x34, 0x12]);
    let mut partial = AdvData::default();
    partial.set_service_uuid16s(&[], false);
    assert_eq!(partial.serialize(), vec![1, 0x02]);
}

#[test]
fn adv_data_writes_uuid128s_in_byte_order() {
    let mut adv = AdvData::default();
    let id = uuid::Uuid::from_u128(0x0011_2233_4455_6677_8899_AABB_CCDD_EEFF);
    adv.set_service_uuid128s(&[id.as_u128()], true);
    let mut expected = vec![17, 0x07];
    expected.extend_from_slice(&[0x00, 0x11, 0x22, 0x33, 0x44, 0x55, 0x66, 0x77, 0x88, 0x99, 0xAA, 0xBB, 0xCC, 0xDD, 0xEE, 0xFF]);
    assert_eq!(adv.serialize(), expected);
}

#[test]
fn adv_data_too_long_is_rejected_with_its_length() {
    let mut adv = AdvData::default();
    adv.set_name("a name that is far too long", true);
    adv.add_entry(0xFF, &[0; 4]);
    assert_eq!(adv.serialize().len(), 35);
    assert_eq!(adv.validate(), Err("Encoded length too long: 35 bytes".to_string()));
}

#[test]
fn adv_data_at_the_limit_is_accepted() {
    let mut adv = AdvData::default();
    adv.add_entry(0xFF, &[7; 29]);
    assert_eq!(adv.serialize().len(), 31);
    assert_eq!(adv.validate(), Ok(()));
    assert_eq!(AdvData::default().serialize(), Vec::<u8>::new());
}

#[test]
fn adv_types_have_assigned_numbers() {
    assert_eq!(u8::from(BleAdvDataType::Flags), 0x01);
    assert_eq!(u8::from(BleAdvDataType::CompleteLocalName), 0x09);
    assert_eq!(u8::from(BleAdvDataType::ManufacturerSpecificData), 0xFF);
    assert_eq!(u8::from(AdvertisingFlags::from_bits_truncate(0xFF)), 0x1F);
}

#[test]
fn address_text_round_trip() {
    let a = BleGapAddress::new("C0:ff:EE:00:12:Ab".to_string(), BleGapAddressType::Static);
    assert_eq!(a.address, [0xC0, 0xFF, 0xEE, 0x00, 0x12, 0xAB]);
    assert_eq!(a.address_type, BleGapAddressType::Static);
    assert_eq!(a.to_string(), "C0:FF:EE:00:12:AB");
    let b = BleGapAddress::new(a.to_string(), BleGapAddressType::Public);
    assert_eq!(b.address, a.address);
}

#[test]
fn phys_pair_and_default() {
    let phys = BleGapPhys::new(BleGapPhy::two_mbps(), BleGapPhy::one_mbps());
    assert_eq!(phys.tx_phys.bits(), 2);
    assert_eq!(phys.rx_phys.bits(), 1);
    let auto = BleGapPhys::default();
    assert_eq!(auto.tx_phys, BleGapPhy::auto());
    assert_eq!(auto.rx_phys, BleGapPhy::auto());
}

