//! Request and response payloads. A payload is a property list; its contents
//! are modelled by `PlistModel`, and the library reads and builds
//! `plist::Value`s through the accessors of the plist crate.
use crate::error::{ErrorKind, Result};
use crate::protocol::{UsbmuxdDevice, UsbmuxdDeviceList, UsbmuxdDeviceProperties, PLIST_LIBUSBMUX_VERSION};
use vstd::prelude::*;

verus! {

/// The program name that requests carry.
pub const PROG_NAME: &'static str = "usbmux";

/// The client version string that requests carry.
pub const CLIENT_VERSION: &'static str = "0.1.0";

/// The contents of a property list value. Dates and reals, which the
/// protocol does not use, are both `Other`.
pub enum PlistModel {
    Array(Seq<PlistModel>),
    /// The entries in the dictionary's order; keys are distinct.
    Dictionary(Seq<(Seq<char>, PlistModel)>),
    Boolean(bool),
    Data(Seq<u8>),
    Integer(i128),
    String(Seq<char>),
    Uid(u64),
    Other,
}

#[verifier::external_type_specification]
#[verifier::external_body]
pub struct ExPlistValue(plist::Value);

#[verifier::external_type_specification]
#[verifier::external_body]
pub struct ExPlistDictionary(plist::Dictionary);

/// What a `plist::Value` holds.
pub uninterp spec fn plist_contents(v: plist::Value) -> PlistModel;

/// What a `plist::Dictionary` holds, in its order.
pub uninterp spec fn dictionary_contents(d: plist::Dictionary) -> Seq<(Seq<char>, PlistModel)>;

/// The value that `plist::Value::from_reader` reads from these bytes, if any.
pub uninterp spec fn parsed_plist(b: Seq<u8>) -> Option<PlistModel>;

/// The bytes that `plist::Value::to_writer_binary` writes for these contents.
pub uninterp spec fn binary_plist(m: PlistModel) -> Seq<u8>;

/// The bytes that `plist::Value::to_writer_xml` writes for these contents.
pub uninterp spec fn xml_plist(m: PlistModel) -> Seq<u8>;

/// The value stored under `k`, if any.
pub open spec fn dict_get(d: Seq<(Seq<char>, PlistModel)>, k: Seq<char>) -> Option<PlistModel>
    decreases d.len(),
{
    if d.len() == 0 {
        None
    } else if d[0].0 == k {
        Some(d[0].1)
    } else {
        dict_get(d.drop_first(), k)
    }
}

/// The entries after inserting `k` with `v`: an existing key keeps its place
/// and takes the new value, a new key goes last.
pub open spec fn dict_insert(d: Seq<(Seq<char>, PlistModel)>, k: Seq<char>, v: PlistModel) -> Seq<
    (Seq<char>, PlistModel),
> {
    if exists|i: int| 0 <= i < d.len() && d[i].0 == k {
        let i = choose|i: int| 0 <= i < d.len() && d[i].0 == k;
        d.update(i, (k, v))
    } else {
        d.push((k, v))
    }
}

/// Contents that hold no date or real at any depth: the model fixes such a
/// value entirely.
pub open spec fn is_modelled(m: PlistModel) -> bool
    decreases m,
{
    match m {
        PlistModel::Array(items) => forall|i: int|
            0 <= i < items.len() ==> #[trigger] is_modelled(items[i]),
        PlistModel::Dictionary(d) => forall|i: int|
            0 <= i < d.len() ==> #[trigger] is_modelled(d[i].1),
        PlistModel::Other => false,
        _ => true,
    }
}

/// Contents that hold no uid at any depth.
pub open spec fn has_no_uid(m: PlistModel) -> bool
    decreases m,
{
    match m {
        PlistModel::Array(items) => forall|i: int|
            0 <= i < items.len() ==> #[trigger] has_no_uid(items[i]),
        PlistModel::Dictionary(d) => forall|i: int|
            0 <= i < d.len() ==> #[trigger] has_no_uid(d[i].1),
        PlistModel::Uid(_) => false,
        _ => true,
    }
}

/// The eight bytes `bplist00` that open a binary property list.
pub open spec fn bplist_magic() -> Seq<u8> {
    seq![0x62u8, 0x70u8, 0x6cu8, 0x69u8, 0x73u8, 0x74u8, 0x30u8, 0x30u8]
}

/// Relies on plist::Value::as_dictionary: `Some` exactly for a dictionary.
pub assume_specification[ plist::Value::as_dictionary ](v: &plist::Value) -> (r: Option<
    &plist::Dictionary,
>)
    ensures
        r is Some <==> plist_contents(*v) is Dictionary,
        r matches Some(d) ==> plist_contents(*v) == PlistModel::Dictionary(dictionary_contents(*d)),
;

/// Relies on plist::Value::as_array: `Some` exactly for an array.
pub assume_specification[ plist::Value::as_array ](v: &plist::Value) -> (r: Option<
    &Vec<plist::Value>,
>)
    ensures
        r is Some <==> plist_contents(*v) is Array,
        r matches Some(a) ==> plist_contents(*v) == PlistModel::Array(
            a@.map_values(|x: plist::Value| plist_contents(x)),
        ),
;

/// Relies on plist::Value::as_string: `Some` exactly for a string.
pub assume_specification[ plist::Value::as_string ](v: &plist::Value) -> (r: Option<&str>)
    ensures
        r is Some <==> plist_contents(*v) is String,
        r matches Some(s) ==> plist_contents(*v) == PlistModel::String(s@),
;

/// Relies on plist::Value::as_unsigned_integer: the integer when it fits in a `u64`.
pub assume_specification[ plist::Value::as_unsigned_integer ](v: &plist::Value) -> (r: Option<u64>)
    ensures
        r == (match plist_contents(*v) {
            PlistModel::Integer(i) => if 0 <= i <= u64::MAX {
                Some(i as u64)
            } else {
                None
            },
            _ => None,
        }),
;

/// Relies on plist::Dictionary::get: the value stored under the key.
pub assume_specification<'a, 'b>[ plist::Dictionary::get ](
    d: &'a plist::Dictionary,
    key: &'b str,
) -> (r: Option<&'a plist::Value>)
    ensures
        r is Some <==> dict_get(dictionary_contents(*d), key@) is Some,
        r matches Some(v) ==> dict_get(dictionary_contents(*d), key@) == Some(plist_contents(*v)),
;

/// Relies on plist::Dictionary::new: an empty dictionary.
pub assume_specification[ plist::Dictionary::new ]() -> (r: plist::Dictionary)
    ensures
        dictionary_contents(r) == Seq::<(Seq<char>, PlistModel)>::empty(),
;

/// Relies on plist::Dictionary::insert, an `IndexMap` insert: an existing key
/// keeps its place and takes the new value, a new key goes last.
pub assume_specification[ plist::Dictionary::insert ](
    d: &mut plist::Dictionary,
    k: String,
    v: plist::Value,
) -> (r: Option<plist::Value>)
    ensures
        dictionary_contents(*final(d)) == dict_insert(
            dictionary_contents(*old(d)),
            k@,
            plist_contents(v),
        ),
;

/// Relies on the plist crate's `Value::String` variant.
#[verifier::external_body]
fn string_value(s: String) -> (r: plist::Value)
    ensures
        plist_contents(r) == PlistModel::String(s@),
{
    plist::Value::String(s)
}

/// Relies on the plist crate's `Value::Integer` variant and `Integer::from(u64)`.
#[verifier::external_body]
fn integer_value(n: u64) -> (r: plist::Value)
    ensures
        plist_contents(r) == PlistModel::Integer(n as i128),
{
    plist::Value::Integer(plist::Integer::from(n))
}

/// Relies on the plist crate's `Value::Dictionary` variant.
#[verifier::external_body]
fn dictionary_value(d: plist::Dictionary) -> (r: plist::Value)
    ensures
        plist_contents(r) == PlistModel::Dictionary(dictionary_contents(d)),
{
    plist::Value::Dictionary(d)
}

/// Relies on plist::Value::from_reader, over an in-memory cursor: it reads a
/// binary, XML or ASCII property list, or fails.
#[verifier::external_body]
fn parse_plist(bytes: &[u8]) -> (r: Option<plist::Value>)
    ensures
        r is Some <==> parsed_plist(bytes@) is Some,
        r matches Some(v) ==> parsed_plist(bytes@) == Some(plist_contents(v)),
{
    plist::Value::from_reader(std::io::Cursor::new(bytes)).ok()
}

/// Relies on plist::Value::to_writer_binary, into a `Vec`: the binary
/// encoding of the value. The binary writer fails only on an ill-formed
/// event stream, which a `Value` never yields, or on a failed write, which a
/// `Vec` never gives. `write_plist` writes the `bplist00` header first.
#[verifier::external_body]
fn write_binary(v: &plist::Value) -> (r: Option<Vec<u8>>)
    ensures
        r is Some,
        r matches Some(b) ==> b@.len() >= 8 && b@.subrange(0, 8) == bplist_magic(),
        r matches Some(b) ==> (is_modelled(plist_contents(*v)) ==> b@ == binary_plist(
            plist_contents(*v),
        )),
{
    let mut buf: Vec<u8> = Vec::new();
    v.to_writer_binary(&mut buf).ok().map(|_| buf)
}

/// The entries of a request of the given message type, in the order written.
pub open spec fn request_entries(message_type: Seq<char>) -> Seq<(Seq<char>, PlistModel)> {
    seq![
        ("MessageType"@, PlistModel::String(message_type)),
        ("ClientVersionString"@, PlistModel::String(CLIENT_VERSION@)),
        ("ProgName"@, PlistModel::String(PROG_NAME@)),
        ("kLibUSBMuxVersion"@, PlistModel::Integer(PLIST_LIBUSBMUX_VERSION as i128)),
    ]
}

/// Builds the request envelope: a dictionary with the message type, the
/// client version, the program name and the protocol version.
pub fn create_plist_message(message_type: String) -> (r: plist::Value)
    ensures
        plist_contents(r) == PlistModel::Dictionary(request_entries(message_type@)),
        is_modelled(plist_contents(r)),
{
    let ghost mt = message_type@;
    let mut dict = plist::Dictionary::new();
    proof {
        reveal_strlit("MessageType");
        reveal_strlit("ClientVersionString");
        reveal_strlit("ProgName");
        reveal_strlit("kLibUSBMuxVersion");
        assert("MessageType"@.len() == 11);
        assert("ClientVersionString"@.len() == 19);
        assert("ProgName"@.len() == 8);
        assert("kLibUSBMuxVersion"@.len() == 17);
    }
    dict.insert("MessageType".to_owned(), string_value(message_type));
    let ghost d1 = dictionary_contents(dict);
    assert(d1 =~= seq![("MessageType"@, PlistModel::String(mt))]);
    dict.insert("ClientVersionString".to_owned(), string_value(CLIENT_VERSION.to_owned()));
    let ghost d2 = dictionary_contents(dict);
    assert(d1[0].0 != "ClientVersionString"@);
    assert(d2 =~= d1.push(("ClientVersionString"@, PlistModel::String(CLIENT_VERSION@))));
    dict.insert("ProgName".to_owned(), string_value(PROG_NAME.to_owned()));
    let ghost d3 = dictionary_contents(dict);
    assert(d2[0].0 != "ProgName"@ && d2[1].0 != "ProgName"@);
    assert(d3 =~= d2.push(("ProgName"@, PlistModel::String(PROG_NAME@))));
    dict.insert("kLibUSBMuxVersion".to_owned(), integer_value(PLIST_LIBUSBMUX_VERSION as u64));
    let ghost d4 = dictionary_contents(dict);
    assert(d3[0].0 != "kLibUSBMuxVersion"@ && d3[1].0 != "kLibUSBMuxVersion"@ && d3[2].0
        != "kLibUSBMuxVersion"@);
    assert(d4 =~= request_entries(mt));
    assert(is_modelled(PlistModel::Dictionary(d4))) by {
        reveal_with_fuel(is_modelled, 2);
    }
    dictionary_value(dict)
}

/// Relies on plist::Value::to_writer_xml, into a `Vec`: the XML encoding of
/// the value. The XML writer fails only on a uid or on a failed write; the
/// `requires` leaves out uids and a `Vec` never fails a write.
#[verifier::external_body]
fn write_xml(v: &plist::Value) -> (r: Option<Vec<u8>>)
    requires
        has_no_uid(plist_contents(*v)),
    ensures
        r is Some,
        r matches Some(b) ==> (is_modelled(plist_contents(*v)) ==> b@ == xml_plist(
            plist_contents(*v),
        )),
{
    let mut buf: Vec<u8> = Vec::new();
    v.to_writer_xml(&mut buf).ok().map(|_| buf)
}


/// Encodes a value that holds no uid as an XML property list; XML has no
/// form for a uid.
pub fn plist_to_xml_data(value: &plist::Value) -> (r: Vec<u8>)
    requires
        has_no_uid(plist_contents(*value)),
    ensures
        is_modelled(plist_contents(*value)) ==> r@ == xml_plist(plist_contents(*value)),
{
    match write_xml(value) {
        Some(b) => b,
        None => Vec::new(),
    }
}

/// Encodes any value as a binary property list, which opens with `bplist00`.
pub fn plist_to_binary_data(value: &plist::Value) -> (r: Vec<u8>)
    ensures
        r@.len() >= 8,
        r@.subrange(0, 8) == bplist_magic(),
        is_modelled(plist_contents(*value)) ==> r@ == binary_plist(plist_contents(*value)),
{
    match write_binary(value) {
        Some(b) => b,
        None => Vec::new(),
    }
}

/// The payload of a request of the given message type.
pub fn request_payload(message_type: String) -> (r: Vec<u8>)
    ensures
        r@ == binary_plist(PlistModel::Dictionary(request_entries(message_type@))),
{
    let value = create_plist_message(message_type);
    plist_to_binary_data(&value)
}

/// The string stored under `k`, if there is one.
pub open spec fn string_field(d: Seq<(Seq<char>, PlistModel)>, k: Seq<char>) -> Option<Seq<char>> {
    match dict_get(d, k) {
        Some(PlistModel::String(v)) => Some(v),
        _ => None,
    }
}

/// The integer stored under `k`, if there is one and it fits in a `u32`.
pub open spec fn u32_field(d: Seq<(Seq<char>, PlistModel)>, k: Seq<char>) -> Option<u32> {
    match dict_get(d, k) {
        Some(PlistModel::Integer(i)) => if 0 <= i <= u32::MAX {
            Some(i as u32)
        } else {
            None
        },
        _ => None,
    }
}

/// `m` is a `Properties` dictionary with every field, and a non-empty `UDID`.
pub open spec fn properties_valid(m: PlistModel) -> bool {
    match m {
        PlistModel::Dictionary(d) => {
            &&& string_field(d, "ConnectionType"@) is Some
            &&& u32_field(d, "DeviceID"@) is Some
            &&& u32_field(d, "LocationID"@) is Some
            &&& u32_field(d, "ProductID"@) is Some
            &&& string_field(d, "SerialNumber"@) is Some
            &&& string_field(d, "UDID"@) is Some
            &&& string_field(d, "UDID"@)->Some_0.len() > 0
        },
        _ => false,
    }
}

/// `p` holds the fields of the `Properties` dictionary `m`.
pub open spec fn properties_of(m: PlistModel, p: UsbmuxdDeviceProperties) -> bool {
    match m {
        PlistModel::Dictionary(d) => {
            &&& string_field(d, "ConnectionType"@) == Some(p.connection_type@)
            &&& u32_field(d, "DeviceID"@) == Some(p.device_id)
            &&& u32_field(d, "LocationID"@) == Some(p.location_id)
            &&& u32_field(d, "ProductID"@) == Some(p.product_id)
            &&& string_field(d, "SerialNumber"@) == Some(p.serial_number@)
            &&& string_field(d, "UDID"@) == Some(p.udid@)
        },
        _ => false,
    }
}

/// `m` is a device dictionary with every field and valid properties.
pub open spec fn device_valid(m: PlistModel) -> bool {
    match m {
        PlistModel::Dictionary(d) => {
            &&& u32_field(d, "DeviceID"@) is Some
            &&& string_field(d, "MessageType"@) is Some
            &&& dict_get(d, "Properties"@) is Some
            &&& properties_valid(dict_get(d, "Properties"@)->Some_0)
        },
        _ => false,
    }
}

/// `dev` holds the fields of the device dictionary `m`.
pub open spec fn device_of(m: PlistModel, dev: UsbmuxdDevice) -> bool {
    match m {
        PlistModel::Dictionary(d) => {
            &&& u32_field(d, "DeviceID"@) == Some(dev.device_id)
            &&& string_field(d, "MessageType"@) == Some(dev.message_type@)
            &&& dict_get(d, "Properties"@) is Some
            &&& properties_of(dict_get(d, "Properties"@)->Some_0, dev.properties)
        },
        _ => false,
    }
}

/// The devices of a `ListDevices` response, if it has that shape.
pub open spec fn device_entries(m: PlistModel) -> Option<Seq<PlistModel>> {
    match m {
        PlistModel::Dictionary(d) => match dict_get(d, "DeviceList"@) {
            Some(PlistModel::Array(items)) => Some(items),
            _ => None,
        },
        _ => None,
    }
}

/// `m` is a `ListDevices` response whose every device is valid.
pub open spec fn device_list_valid(m: PlistModel) -> bool {
    &&& device_entries(m) is Some
    &&& forall|i: int|
        0 <= i < device_entries(m)->Some_0.len() ==> device_valid(
            #[trigger] device_entries(m)->Some_0[i],
        )
}

/// `devs` holds, in order, the devices of the response `m`.
pub open spec fn device_list_of(m: PlistModel, devs: Seq<UsbmuxdDevice>) -> bool {
    &&& device_entries(m) is Some
    &&& device_entries(m)->Some_0.len() == devs.len()
    &&& forall|i: int|
        0 <= i < devs.len() ==> device_of(#[trigger] device_entries(m)->Some_0[i], devs[i])
}

fn string_entry(d: &plist::Dictionary, key: &str) -> (r: Result<String>)
    ensures
        string_field(dictionary_contents(*d), key@) is Some ==> (r is Ok && r->Ok_0@ == string_field(
            dictionary_contents(*d),
            key@,
        )->Some_0),
        string_field(dictionary_contents(*d), key@) is None ==> r == Err::<String, ErrorKind>(
            ErrorKind::PayloadDecode,
        ),
{
    match d.get(key) {
        Some(v) => match v.as_string() {
            Some(s) => Ok(s.to_owned()),
            None => Err(ErrorKind::PayloadDecode),
        },
        None => Err(ErrorKind::PayloadDecode),
    }
}

fn u32_entry(d: &plist::Dictionary, key: &str) -> (r: Result<u32>)
    ensures
        u32_field(dictionary_contents(*d), key@) matches Some(n) ==> r == Ok::<u32, ErrorKind>(n),
        u32_field(dictionary_contents(*d), key@) is None ==> r == Err::<u32, ErrorKind>(
            ErrorKind::PayloadDecode,
        ),
{
    match d.get(key) {
        Some(v) => match v.as_unsigned_integer() {
            Some(n) => if n <= u32::MAX as u64 {
                Ok(n as u32)
            } else {
                Err(ErrorKind::PayloadDecode)
            },
            None => Err(ErrorKind::PayloadDecode),
        },
        None => Err(ErrorKind::PayloadDecode),
    }
}

/// Reads a `Properties` dictionary; fails with `PayloadDecode` when a field
/// is missing or has the wrong type, or when `UDID` is empty.
pub fn plist_to_properties(value: &plist::Value) -> (r: Result<UsbmuxdDeviceProperties>)
    ensures
        r is Ok <==> properties_valid(plist_contents(*value)),
        r matches Ok(p) ==> properties_of(plist_contents(*value), p),
        r is Err ==> r == Err::<UsbmuxdDeviceProperties, ErrorKind>(ErrorKind::PayloadDecode),
{
    let d = match value.as_dictionary() {
        Some(d) => d,
        None => return Err(ErrorKind::PayloadDecode),
    };
    let connection_type = string_entry(d, "ConnectionType")?;
    let device_id = u32_entry(d, "DeviceID")?;
    let location_id = u32_entry(d, "LocationID")?;
    let product_id = u32_entry(d, "ProductID")?;
    let serial_number = string_entry(d, "SerialNumber")?;
    let udid = string_entry(d, "UDID")?;
    if udid.as_str().is_empty() {
        return Err(ErrorKind::PayloadDecode);
    }
    Ok(
        UsbmuxdDeviceProperties {
            connection_type,
            device_id,
            location_id,
            product_id,
            serial_number,
            udid,
        },
    )
}

/// Reads a device dictionary; fails with `PayloadDecode` when it does not
/// have the device shape.
pub fn plist_to_device(value: &plist::Value) -> (r: Result<UsbmuxdDevice>)
    ensures
        r is Ok <==> device_valid(plist_contents(*value)),
        r matches Ok(dev) ==> device_of(plist_contents(*value), dev),
        r is Err ==> r == Err::<UsbmuxdDevice, ErrorKind>(ErrorKind::PayloadDecode),
{
    let d = match value.as_dictionary() {
        Some(d) => d,
        None => return Err(ErrorKind::PayloadDecode),
    };
    let device_id = u32_entry(d, "DeviceID")?;
    let message_type = string_entry(d, "MessageType")?;
    let properties = match d.get("Properties") {
        Some(p) => plist_to_properties(p)?,
        None => return Err(ErrorKind::PayloadDecode),
    };
    Ok(UsbmuxdDevice { device_id, message_type, properties })
}

/// Reads the devices of a `ListDevices` response, in order. The whole call
/// fails with `PayloadDecode` when any device does not have the device shape.
pub fn plist_to_device_list(value: &plist::Value) -> (r: Result<Vec<UsbmuxdDevice>>)
    ensures
        r is Ok <==> device_list_valid(plist_contents(*value)),
        r matches Ok(devs) ==> device_list_of(plist_contents(*value), devs@),
        r is Err ==> r == Err::<Vec<UsbmuxdDevice>, ErrorKind>(ErrorKind::PayloadDecode),
{
    let d = match value.as_dictionary() {
        Some(d) => d,
        None => return Err(ErrorKind::PayloadDecode),
    };
    let items = match d.get("DeviceList") {
        Some(list) => match list.as_array() {
            Some(items) => items,
            None => return Err(ErrorKind::PayloadDecode),
        },
        None => return Err(ErrorKind::PayloadDecode),
    };
    let ghost models = items@.map_values(|x: plist::Value| plist_contents(x));
    assert(device_entries(plist_contents(*value)) == Some(models));
    let mut devices: Vec<UsbmuxdDevice> = Vec::new();
    let mut i: usize = 0;
    while i < items.len()
        invariant
            0 <= i <= items.len(),
            models == items@.map_values(|x: plist::Value| plist_contents(x)),
            device_entries(plist_contents(*value)) == Some(models),
            devices@.len() == i,
            forall|j: int| 0 <= j < i ==> device_valid(#[trigger] models[j]),
            forall|j: int| 0 <= j < i ==> device_of(#[trigger] models[j], devices@[j]),
        decreases items.len() - i,
    {
        assert(models[i as int] == plist_contents(items@[i as int]));
        match plist_to_device(&items[i]) {
            Ok(dev) => devices.push(dev),
            Err(e) => {
                assert(!device_valid(device_entries(plist_contents(*value))->Some_0[i as int]));
                return Err(e);
            },
        }
        i = i + 1;
    }
    Ok(devices)
}

/// `res` is what reading the devices of the property list in `b` gives.
pub open spec fn device_list_result(b: Seq<u8>, res: Result<Vec<UsbmuxdDevice>>) -> bool {
    &&& res is Ok <==> (parsed_plist(b) is Some && device_list_valid(parsed_plist(b)->Some_0))
    &&& res matches Ok(devs) ==> (parsed_plist(b) is Some && device_list_of(
        parsed_plist(b)->Some_0,
        devs@,
    ))
    &&& res is Err ==> res == Err::<Vec<UsbmuxdDevice>, ErrorKind>(ErrorKind::PayloadDecode)
}

/// Parses a binary (or XML) property list and reads the devices of a
/// `ListDevices` response from it; fails with `PayloadDecode` when the bytes
/// are no property list or it does not have that shape.
pub fn plist_to_object(data: &[u8]) -> (r: Result<UsbmuxdDeviceList>)
    ensures
        device_list_result(
            data@,
            match r {
                Ok(l) => Ok(l.device_list),
                Err(e) => Err(e),
            },
        ),
{
    match parse_plist(data) {
        Some(v) => match plist_to_device_list(&v) {
            Ok(device_list) => Ok(UsbmuxdDeviceList { device_list }),
            Err(e) => Err(e),
        },
        None => Err(ErrorKind::PayloadDecode),
    }
}

/// The `UDID` string in the `Properties` of the device dictionary `m`, if any.
pub open spec fn udid_of(m: PlistModel) -> Option<Seq<char>> {
    match m {
        PlistModel::Dictionary(d) => match dict_get(d, "Properties"@) {
            Some(PlistModel::Dictionary(pd)) => string_field(pd, "UDID"@),
            _ => None,
        },
        _ => None,
    }
}

/// A device whose properties hold no `UDID` string, or an empty one, has no
/// valid shape, so reading it fails; a device that is read has a non-empty
/// `UDID`.
pub proof fn lemma_udid_required(m: PlistModel, dev: UsbmuxdDevice)
    ensures
        (udid_of(m) is None || udid_of(m) == Some(Seq::<char>::empty())) ==> !device_valid(m),
        device_valid(m) && device_of(m, dev) ==> dev.properties.udid@.len() > 0,
{
}

/// A response in which one device holds no `UDID` string is rejected as a whole.
pub proof fn lemma_list_without_udid_rejected(m: PlistModel, i: int)
    requires
        device_entries(m) is Some,
        0 <= i < device_entries(m)->Some_0.len(),
        udid_of(device_entries(m)->Some_0[i]) is None,
    ensures
        !device_list_valid(m),
{
    lemma_udid_required(device_entries(m)->Some_0[i], arbitrary());
}

} // verus!
