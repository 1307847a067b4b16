use plist::{Dictionary, Value};
use usbmux::error::ErrorKind;
use usbmux::plist_utils::{create_plist_message, plist_to_binary_data, plist_to_xml_data, plist_to_device, plist_to_device_list, plist_to_object, request_payload};

const UDID: &str = "97006ebdc8bc5daed2e354f4addae4fd2a81c52d";

fn properties(udid: Option<&str>) -> Value {
    let mut p = Dictionary::new();
    p.insert("ConnectionType".to_owned(), Value::String("USB".to_owned()));
    p.insert("DeviceID".to_owned(), Value::Integer(3u64.into()));
    p.insert("LocationID".to_owned(), Value::Integer(0u64.into()));
    p.insert("ProductID".to_owned(), Value::Integer(4776u64.into()));
    p.insert("SerialNumber".to_owned(), Value::String(UDID.to_owned()));
    if let Some(u) = udid {
        p.insert("UDID".to_owned(), Value::String(u.to_owned()));
    }
    Value::Dictionary(p)
}

fn device(udid: Option<&str>) -> Value {
    let mut d = Dictionary::new();
    d.insert("DeviceID".to_owned(), Value::Integer(3u64.into()));
    d.insert("MessageType".to_owned(), Value::String("Attached".to_owned()));
    d.insert("Properties".to_owned(), properties(udid));
    Value::Dictionary(d)
}

fn device_list(devices: Vec<Value>) -> Value {
    let mut d = Dictionary::new();
    d.insert("DeviceList".to_owned(), Value::Array(devices));
    Value::Dictionary(d)
}

fn to_binary(v: &Value) -> Vec<u8> {
    let mut buf = Vec::new();
    v.to_writer_binary(&mut buf).unwrap();
    buf
}

#[test]
fn create_plist_message_holds_the_envelope() {
    let v = create_plist_message("ListDevices".to_owned());
    let d = v.as_dictionary().unwrap();
    assert_eq!(d.len(), 4);
    assert_eq!(d.get("MessageType").and_then(|x| x.as_string()), Some("ListDevices"));
    assert_eq!(d.get("ClientVersionString").and_then(|x| x.as_string()), Some("0.1.0"));
    assert_eq!(d.get("ProgName").and_then(|x| x.as_string()), Some("usbmux"));
    assert_eq!(d.get("kLibUSBMuxVersion").and_then(|x| x.as_unsigned_integer()), Some(3));
    let keys: Vec<&String> = d.keys().collect();
    assert_eq!(keys, vec!["MessageType", "ClientVersionString", "ProgName", "kLibUSBMuxVersion"]);
}

#[test]
fn plist_to_binary_data_is_a_binary_plist() {
    let v = create_plist_message("Listen".to_owned());
    let bytes = plist_to_binary_data(&v);
    assert_eq!(&bytes[..8], b"bplist00");
    let back = Value::from_reader(std::io::Cursor::new(&bytes)).unwrap();
    assert_eq!(back, v);
}

#[test]
fn request_payload_round_trips_through_plist() {
    let bytes = request_payload("ListDevices".to_owned());
    let back = Value::from_reader(std::io::Cursor::new(&bytes)).unwrap();
    assert_eq!(back, create_plist_message("ListDevices".to_owned()));
}

#[test]
fn device_list_happy_path() {
    let devs = plist_to_device_list(&device_list(vec![device(Some(UDID))])).unwrap();
    assert_eq!(devs.len(), 1);
    assert_eq!(devs[0].device_id, 3);
    assert_eq!(devs[0].message_type, "Attached");
    assert_eq!(devs[0].properties.udid, UDID);
    assert_eq!(devs[0].properties.product_id, 4776);
    assert_eq!(devs[0].properties.connection_type, "USB");
}

#[test]
fn plist_to_object_from_bytes() {
    let bytes = to_binary(&device_list(vec![device(Some(UDID)), device(Some("abc"))]));
    let devs = plist_to_object(&bytes).unwrap().device_list;
    assert_eq!(devs.len(), 2);
    assert_eq!(devs[0].properties.udid, UDID);
    assert_eq!(devs[1].properties.udid, "abc");
}

#[test]
fn plist_to_object_rejects_garbage() {
    assert_eq!(plist_to_object(&[1, 2, 3]).err(), Some(ErrorKind::PayloadDecode));
}

#[test]
fn empty_device_list() {
    let devs = plist_to_device_list(&device_list(vec![])).unwrap();
    assert!(devs.is_empty());
}

#[test]
fn missing_udid_is_rejected() {
    assert_eq!(plist_to_device(&device(None)).err(), Some(ErrorKind::PayloadDecode));
    let list = device_list(vec![device(Some(UDID)), device(None)]);
    assert_eq!(plist_to_device_list(&list).err(), Some(ErrorKind::PayloadDecode));
}

#[test]
fn empty_udid_is_rejected() {
    assert_eq!(plist_to_device(&device(Some(""))).err(), Some(ErrorKind::PayloadDecode));
}

#[test]
fn wrong_field_type_is_rejected() {
    let mut d = Dictionary::new();
    d.insert("DeviceID".to_owned(), Value::String("3".to_owned()));
    d.insert("MessageType".to_owned(), Value::String("Attached".to_owned()));
    d.insert("Properties".to_owned(), properties(Some(UDID)));
    assert_eq!(plist_to_device(&Value::Dictionary(d)).err(), Some(ErrorKind::PayloadDecode));
}

#[test]
fn out_of_range_id_is_rejected() {
    let mut d = Dictionary::new();
    d.insert("DeviceID".to_owned(), Value::Integer((u32::MAX as u64 + 1).into()));
    d.insert("MessageType".to_owned(), Value::String("Attached".to_owned()));
    d.insert("Properties".to_owned(), properties(Some(UDID)));
    assert_eq!(plist_to_device(&Value::Dictionary(d)).err(), Some(ErrorKind::PayloadDecode));
}

#[test]
fn response_without_device_list_is_rejected() {
    let mut d = Dictionary::new();
    d.insert("Devices".to_owned(), Value::Array(vec![]));
    assert_eq!(plist_to_device_list(&Value::Dictionary(d)).err(), Some(ErrorKind::PayloadDecode));
}

#[test]
fn plist_to_xml_data_is_an_xml_plist() {
    let v = create_plist_message("ListDevices".to_owned());
    let bytes = plist_to_xml_data(&v);
    let text = String::from_utf8(bytes.clone()).unwrap();
    assert!(text.starts_with("<?xml"));
    assert!(text.contains("<key>MessageType</key>"));
    let back = Value::from_reader(std::io::Cursor::new(&bytes)).unwrap();
    assert_eq!(back, v);
}

#[test]
fn nested_values_encode_and_read_back() {
    let mut inner = Dictionary::new();
    inner.insert("Flag".to_owned(), Value::Boolean(true));
    inner.insert("Blob".to_owned(), Value::Data(vec![1, 2, 3]));
    let mut top = Dictionary::new();
    top.insert(
        "Items".to_owned(),
        Value::Array(vec![Value::Dictionary(inner), Value::Integer(7u64.into())]),
    );
    let v = Value::Dictionary(top);
    let binary = plist_to_binary_data(&v);
    assert_eq!(binary, plist_to_binary_data(&v.clone()));
    assert_eq!(Value::from_reader(std::io::Cursor::new(&binary)).unwrap(), v);
    let xml = plist_to_xml_data(&v);
    assert_eq!(Value::from_reader(std::io::Cursor::new(&xml)).unwrap(), v);
}

#[test]
fn binary_encoding_takes_any_value() {
    let mut d = Dictionary::new();
    d.insert("Real".to_owned(), Value::Real(1.5));
    d.insert("Uid".to_owned(), Value::Uid(plist::Uid::new(7)));
    let v = Value::Dictionary(d);
    let bytes = plist_to_binary_data(&v);
    assert_eq!(&bytes[..8], b"bplist00");
    assert_eq!(Value::from_reader(std::io::Cursor::new(&bytes)).unwrap(), v);
}

#[test]
fn xml_encoding_takes_reals() {
    let mut d = Dictionary::new();
    d.insert("Real".to_owned(), Value::Real(2.25));
    let v = Value::Dictionary(d);
    let xml = plist_to_xml_data(&v);
    assert_eq!(Value::from_reader(std::io::Cursor::new(&xml)).unwrap(), v);
}
