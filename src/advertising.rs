//! What the peripheral role hands to the native advertiser: the dictionary
//! that a CoreBluetooth peripheral manager is given, held as plain values
//! (text keys and byte values), and the manufacturer section of a Windows
//! publisher.
use vstd::prelude::*;

use crate::advertisement::{manufacturer_bytes, opt_manufacturer_view, AdvertisementData, ManufacturerData};
use crate::bytes::copy_range;

verus! {

/// The text of a dictionary key.
#[derive(Clone, Debug, PartialEq, Eq, Hash)]
pub struct NSString {
    pub text: String,
}

/// The bytes of a dictionary value.
#[derive(Clone, Debug, PartialEq, Eq, Hash)]
pub struct NSData {
    pub bytes: Vec<u8>,
}

impl NSString {
    pub fn from_str(s: &str) -> (r: NSString)
        ensures
            r.text@ == s@,
    {
        NSString { text: s.to_owned() }
    }
}

impl NSData {
    pub fn from_vec(data: &[u8]) -> (r: NSData)
        ensures
            r.bytes@ == data@,
    {
        NSData { bytes: copy_range(data, 0, data.len()) }
    }
}

/// A dictionary from text keys to byte values, each key once.
#[derive(Clone, Debug, PartialEq, Eq, Hash)]
pub struct AdvertisementDictionary {
    pub entries: Vec<(NSString, NSData)>,
}

impl View for AdvertisementDictionary {
    type V = Seq<(Seq<char>, Seq<u8>)>;

    open spec fn view(&self) -> Seq<(Seq<char>, Seq<u8>)> {
        self.entries@.map_values(|e: (NSString, NSData)| (e.0.text@, e.1.bytes@))
    }
}

/// `d` with key `k` set to `v`: in place where the key is there, appended
/// where it is not.
pub open spec fn dict_set(d: Seq<(Seq<char>, Seq<u8>)>, k: Seq<char>, v: Seq<u8>) -> Seq<(Seq<char>, Seq<u8>)> {
    if exists|i: int| 0 <= i < d.len() && d[i].0 == k {
        let i = choose|i: int| 0 <= i < d.len() && d[i].0 == k && forall|j: int| 0 <= j < i ==> d[j].0 != k;
        d.update(i, (k, v))
    } else {
        d.push((k, v))
    }
}

/// The key under which CoreBluetooth takes manufacturer data.
pub open spec fn manufacturer_data_key() -> Seq<char> {
    "kCBAdvDataManufacturerData"@
}

pub fn create_mutable_dictionary() -> (r: AdvertisementDictionary)
    ensures
        r@ == Seq::<(Seq<char>, Seq<u8>)>::empty(),
{
    let r = AdvertisementDictionary { entries: Vec::new() };
    assert(r@ =~= Seq::<(Seq<char>, Seq<u8>)>::empty());
    r
}

/// The index of the first entry of `dict` under `key`, if any.
fn find_key(dict: &AdvertisementDictionary, key: &String) -> (r: Option<usize>)
    ensures
        match r {
            Some(i) => 0 <= i < dict@.len() && dict@[i as int].0 == key@ && forall|j: int|
                0 <= j < i ==> dict@[j].0 != key@,
            None => forall|j: int| 0 <= j < dict@.len() ==> dict@[j].0 != key@,
        },
{
    let ghost v = dict@;
    let mut i: usize = 0;
    while i < dict.entries.len()
        invariant
            i <= dict.entries@.len(),
            v == dict@,
            forall|j: int| 0 <= j < i ==> v[j].0 != key@,
        decreases dict.entries@.len() - i,
    {
        assert(v[i as int].0 == dict.entries@[i as int].0.text@);
        if dict.entries[i].0.text == *key {
            return Some(i);
        }
        i = i + 1;
    }
    None
}

/// Sets `key` to `value` in `dict`.
pub fn add_data_to_dict(dict: &mut AdvertisementDictionary, key: &str, value: &[u8])
    ensures
        final(dict)@ == dict_set(old(dict)@, key@, value@),
{
    let ghost before = dict@;
    let ns_key = NSString::from_str(key);
    let ns_value = NSData::from_vec(value);
    match find_key(dict, &ns_key.text) {
        Some(i) => {
            proof {
                let c = choose|c: int|
                    0 <= c < before.len() && before[c].0 == key@ && forall|j: int|
                        0 <= j < c ==> before[j].0 != key@;
                assert(c == i as int) by {
                    if c < i {
                        assert(before[c].0 != key@);
                    } else if c > i {
                        assert(before[i as int].0 != key@);
                    }
                }
            }
            dict.entries[i] = (ns_key, ns_value);
            assert(dict@ =~= before.update(i as int, (key@, value@)));
        },
        None => {
            dict.entries.push((ns_key, ns_value));
            assert(dict@ =~= before.push((key@, value@)));
        },
    }
}

/// The dictionary that advertises `data`: its manufacturer data, if any,
/// with the company identifier little-endian in front.
pub fn advertising_dictionary(data: &AdvertisementData) -> (r: AdvertisementDictionary)
    ensures
        r@ == match data.manufacturer_data {
            Some(m) => seq![(manufacturer_data_key(), manufacturer_bytes(m@))],
            None => Seq::empty(),
        },
{
    let mut dict = create_mutable_dictionary();
    match &data.manufacturer_data {
        Some(m) => {
            let bytes = m.to_bytes();
            add_data_to_dict(&mut dict, "kCBAdvDataManufacturerData", bytes.as_slice());
            assert(dict@ =~= seq![(manufacturer_data_key(), manufacturer_bytes(m@))]);
        },
        None => {},
    }
    dict
}

/// The manufacturer data that a publisher advertises: that of `data`; an
/// advertisement without any has nothing to publish.
pub fn publisher_manufacturer_data(data: &AdvertisementData) -> (r: Result<ManufacturerData, String>)
    ensures
        r is Err <==> data.manufacturer_data is None,
        r matches Ok(m) ==> opt_manufacturer_view(data.manufacturer_data) == Some(m@),
        r matches Err(t) ==> t@ == "no data to send."@,
{
    match &data.manufacturer_data {
        Some(m) => Ok(
            ManufacturerData {
                company_id: m.company_id,
                data: copy_range(m.data.as_slice(), 0, m.data.len()),
            },
        ),
        None => Err("no data to send.".to_owned()),
    }
}

} // verus!
