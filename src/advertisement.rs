//! Advertisement data: its decoded form, and the codec between it and the
//! sections of an advertising payload.
use vstd::prelude::*;

use crate::bytes::{copy_range, le_value, read_le};
use crate::service_uuid::{short_uuid_value, Uuid};

verus! {

/// Type byte of a section that lists some 16-bit service UUIDs.
pub const INCOMPLETE_SERVICES_16: u8 = 0x02;
/// Type byte of a section that lists all 16-bit service UUIDs.
pub const COMPLETE_SERVICES_16: u8 = 0x03;
/// Type byte of a section that lists some 32-bit service UUIDs.
pub const INCOMPLETE_SERVICES_32: u8 = 0x04;
/// Type byte of a section that lists all 32-bit service UUIDs.
pub const COMPLETE_SERVICES_32: u8 = 0x05;
/// Type byte of a section that lists some 128-bit service UUIDs.
pub const INCOMPLETE_SERVICES_128: u8 = 0x06;
/// Type byte of a section that lists all 128-bit service UUIDs.
pub const COMPLETE_SERVICES_128: u8 = 0x07;
/// Type byte of the shortened local name.
pub const SHORTENED_LOCAL_NAME: u8 = 0x08;
/// Type byte of the complete local name.
pub const COMPLETE_LOCAL_NAME: u8 = 0x09;
/// Type byte of the transmit power level.
pub const TX_POWER_LEVEL: u8 = 0x0a;
/// Type byte of a list of solicited 16-bit service UUIDs.
pub const SOLICITED_SERVICES_16: u8 = 0x14;
/// Type byte of a list of solicited 128-bit service UUIDs.
pub const SOLICITED_SERVICES_128: u8 = 0x15;
/// Type byte of service data keyed by a 16-bit UUID.
pub const SERVICE_DATA_16: u8 = 0x16;
/// Type byte of a list of solicited 32-bit service UUIDs.
pub const SOLICITED_SERVICES_32: u8 = 0x1f;
/// Type byte of service data keyed by a 32-bit UUID.
pub const SERVICE_DATA_32: u8 = 0x20;
/// Type byte of service data keyed by a 128-bit UUID.
pub const SERVICE_DATA_128: u8 = 0x21;
/// Type byte of manufacturer-specific data.
pub const MANUFACTURER_SPECIFIC_DATA: u8 = 0xff;

/// Manufacturer-specific data: a company identifier and opaque bytes.
#[derive(Clone, Debug, PartialEq, Eq, Hash)]
pub struct ManufacturerData {
    pub company_id: u16,
    pub data: Vec<u8>,
}

impl View for ManufacturerData {
    type V = (u16, Seq<u8>);

    open spec fn view(&self) -> (u16, Seq<u8>) {
        (self.company_id, self.data@)
    }
}

/// The manufacturer data held in `bytes`: a little-endian company identifier
/// in the first two bytes, then the payload.
pub open spec fn manufacturer_of(bytes: Seq<u8>) -> Option<(u16, Seq<u8>)> {
    if bytes.len() < 2 {
        None
    } else {
        Some((le_value(bytes.subrange(0, 2)) as u16, bytes.subrange(2, bytes.len() as int)))
    }
}

/// The wire form of manufacturer data: the company identifier, little-endian,
/// then the payload.
pub open spec fn manufacturer_bytes(m: (u16, Seq<u8>)) -> Seq<u8> {
    seq![(m.0 % 256) as u8, (m.0 / 256) as u8] + m.1
}

pub open spec fn opt_manufacturer_view(o: Option<ManufacturerData>) -> Option<(u16, Seq<u8>)> {
    match o {
        Some(m) => Some(m@),
        None => None,
    }
}

impl ManufacturerData {
    /// Decodes manufacturer data; `None` where fewer than two bytes are given.
    pub fn from_bytes(bytes: &[u8]) -> (r: Option<ManufacturerData>)
        ensures
            opt_manufacturer_view(r) == manufacturer_of(bytes@),
    {
        if bytes.len() < 2 {
            None
        } else {
            let company_id = read_le(bytes, 0, 2) as u16;
            let data = copy_range(bytes, 2, bytes.len());
            Some(ManufacturerData { company_id, data })
        }
    }

    /// Encodes manufacturer data as it stands in an advertisement.
    pub fn to_bytes(&self) -> (r: Vec<u8>)
        ensures
            r@ == manufacturer_bytes(self@),
    {
        let mut out: Vec<u8> = Vec::new();
        out.push((self.company_id % 256) as u8);
        out.push((self.company_id / 256) as u8);
        let mut i: usize = 0;
        while i < self.data.len()
            invariant
                i <= self.data@.len(),
                out@ == seq![(self.company_id % 256) as u8, (self.company_id / 256) as u8]
                    + self.data@.subrange(0, i as int),
            decreases self.data@.len() - i,
        {
            out.push(self.data[i]);
            i = i + 1;
            assert(self.data@.subrange(0, i as int) =~= self.data@.subrange(0, i - 1).push(
                self.data@[i - 1],
            ));
        }
        assert(self.data@.subrange(0, i as int) =~= self.data@);
        out
    }
}

/// Encoding then decoding manufacturer data gives it back.
pub proof fn lemma_manufacturer_round_trip(m: (u16, Seq<u8>))
    ensures
        manufacturer_of(manufacturer_bytes(m)) == Some(m),
{
    reveal_with_fuel(le_value, 3);
    let b = manufacturer_bytes(m);
    let head = b.subrange(0, 2);
    assert(head.drop_first().drop_first() =~= Seq::<u8>::empty());
    assert(head[0] == (m.0 % 256) as u8 && head[1] == (m.0 / 256) as u8);
    assert(le_value(head) == (m.0 % 256) as nat + 256 * (m.0 / 256) as nat);
    assert(le_value(head) == m.0 as nat);
    assert(b.subrange(2, b.len() as int) =~= m.1);
}

/// The width of a UUID as it stands in a payload.
#[derive(Clone, Copy, Debug, PartialEq, Eq, Structural, Hash)]
pub enum UuidKind {
    U16,
    U32,
    U128,
}

pub open spec fn uuid_width(k: UuidKind) -> nat {
    match k {
        UuidKind::U16 => 2,
        UuidKind::U32 => 4,
        UuidKind::U128 => 16,
    }
}

pub fn uuid_width_of(k: UuidKind) -> (r: usize)
    ensures
        r as nat == uuid_width(k),
{
    match k {
        UuidKind::U16 => 2,
        UuidKind::U32 => 4,
        UuidKind::U128 => 16,
    }
}

/// The UUID that the little-endian bytes `b` of width `k` denote: short forms
/// are expanded with the Bluetooth base UUID.
pub open spec fn uuid_from_bytes(b: Seq<u8>, k: UuidKind) -> Uuid {
    match k {
        UuidKind::U128 => Uuid { value: le_value(b) as u128 },
        _ => Uuid { value: short_uuid_value(le_value(b)) as u128 },
    }
}

/// Reads a UUID of width `kind` from `bytes`, starting at `start`.
pub fn read_uuid(bytes: &[u8], start: usize, kind: UuidKind) -> (r: Uuid)
    requires
        start + uuid_width(kind) <= bytes@.len(),
    ensures
        r == uuid_from_bytes(bytes@.subrange(start as int, start + uuid_width(kind)), kind),
{
    let ghost b = bytes@.subrange(start as int, start + uuid_width(kind));
    proof {
        crate::bytes::lemma_le_value_bound(b);
        reveal_with_fuel(crate::bytes::pow256, 5);
    }
    match kind {
        UuidKind::U16 => Uuid::from_u16(read_le(bytes, start, 2) as u16),
        UuidKind::U32 => Uuid::from_u32(read_le(bytes, start, 4) as u32),
        UuidKind::U128 => Uuid::from_u128(read_le(bytes, start, 16)),
    }
}

/// What a section holds, by its type byte.
#[derive(Clone, Copy, Debug, PartialEq, Eq, Structural)]
pub enum SectionRole {
    LocalName,
    Manufacturer,
    TxPower,
    Services(UuidKind),
    Solicited(UuidKind),
    ServiceData(UuidKind),
    Other,
}

pub open spec fn role_of(t: u8) -> SectionRole {
    if t == SHORTENED_LOCAL_NAME || t == COMPLETE_LOCAL_NAME {
        SectionRole::LocalName
    } else if t == MANUFACTURER_SPECIFIC_DATA {
        SectionRole::Manufacturer
    } else if t == TX_POWER_LEVEL {
        SectionRole::TxPower
    } else if t == INCOMPLETE_SERVICES_16 || t == COMPLETE_SERVICES_16 {
        SectionRole::Services(UuidKind::U16)
    } else if t == INCOMPLETE_SERVICES_32 || t == COMPLETE_SERVICES_32 {
        SectionRole::Services(UuidKind::U32)
    } else if t == INCOMPLETE_SERVICES_128 || t == COMPLETE_SERVICES_128 {
        SectionRole::Services(UuidKind::U128)
    } else if t == SOLICITED_SERVICES_16 {
        SectionRole::Solicited(UuidKind::U16)
    } else if t == SOLICITED_SERVICES_32 {
        SectionRole::Solicited(UuidKind::U32)
    } else if t == SOLICITED_SERVICES_128 {
        SectionRole::Solicited(UuidKind::U128)
    } else if t == SERVICE_DATA_16 {
        SectionRole::ServiceData(UuidKind::U16)
    } else if t == SERVICE_DATA_32 {
        SectionRole::ServiceData(UuidKind::U32)
    } else if t == SERVICE_DATA_128 {
        SectionRole::ServiceData(UuidKind::U128)
    } else {
        SectionRole::Other
    }
}

pub fn section_role(t: u8) -> (r: SectionRole)
    ensures
        r == role_of(t),
{
    if t == SHORTENED_LOCAL_NAME || t == COMPLETE_LOCAL_NAME {
        SectionRole::LocalName
    } else if t == MANUFACTURER_SPECIFIC_DATA {
        SectionRole::Manufacturer
    } else if t == TX_POWER_LEVEL {
        SectionRole::TxPower
    } else if t == INCOMPLETE_SERVICES_16 || t == COMPLETE_SERVICES_16 {
        SectionRole::Services(UuidKind::U16)
    } else if t == INCOMPLETE_SERVICES_32 || t == COMPLETE_SERVICES_32 {
        SectionRole::Services(UuidKind::U32)
    } else if t == INCOMPLETE_SERVICES_128 || t == COMPLETE_SERVICES_128 {
        SectionRole::Services(UuidKind::U128)
    } else if t == SOLICITED_SERVICES_16 {
        SectionRole::Solicited(UuidKind::U16)
    } else if t == SOLICITED_SERVICES_32 {
        SectionRole::Solicited(UuidKind::U32)
    } else if t == SOLICITED_SERVICES_128 {
        SectionRole::Solicited(UuidKind::U128)
    } else if t == SERVICE_DATA_16 {
        SectionRole::ServiceData(UuidKind::U16)
    } else if t == SERVICE_DATA_32 {
        SectionRole::ServiceData(UuidKind::U32)
    } else if t == SERVICE_DATA_128 {
        SectionRole::ServiceData(UuidKind::U128)
    } else {
        SectionRole::Other
    }
}

/// `s` with `u` appended, unless it holds `u` already.
pub open spec fn add_unique(s: Seq<Uuid>, u: Uuid) -> Seq<Uuid> {
    if s.contains(u) {
        s
    } else {
        s.push(u)
    }
}

/// `acc` with each UUID of width `k` in `d` added, in order, without repeats.
pub open spec fn add_uuid_list(acc: Seq<Uuid>, d: Seq<u8>, k: UuidKind) -> Seq<Uuid>
    decreases d.len(),
{
    if d.len() < uuid_width(k) {
        acc
    } else {
        add_uuid_list(
            add_unique(acc, uuid_from_bytes(d.subrange(0, uuid_width(k) as int), k)),
            d.subrange(uuid_width(k) as int, d.len() as int),
            k,
        )
    }
}

/// A UUID-list section `d` applied to `acc`; one whose length is not a
/// multiple of the width is malformed and leaves `acc` as it is.
pub open spec fn uuid_list_section(acc: Seq<Uuid>, d: Seq<u8>, k: UuidKind) -> Seq<Uuid> {
    if d.len() % uuid_width(k) == 0 {
        add_uuid_list(acc, d, k)
    } else {
        acc
    }
}

/// Whether `list` holds `u`.
pub fn contains_uuid(list: &Vec<Uuid>, u: Uuid) -> (r: bool)
    ensures
        r == list@.contains(u),
{
    let mut i: usize = 0;
    while i < list.len()
        invariant
            i <= list@.len(),
            forall|j: int| 0 <= j < i ==> list@[j] != u,
        decreases list@.len() - i,
    {
        if list[i] == u {
            return true;
        }
        i = i + 1;
    }
    false
}

/// Adds `u` to `list` unless it is there already.
pub fn push_unique(list: &mut Vec<Uuid>, u: Uuid)
    ensures
        final(list)@ == add_unique(old(list)@, u),
{
    if !contains_uuid(list, u) {
        list.push(u);
    }
}

/// Adds the UUIDs of a UUID-list section to `list`.
pub fn add_uuids(list: &mut Vec<Uuid>, d: &[u8], kind: UuidKind)
    ensures
        final(list)@ == uuid_list_section(old(list)@, d@, kind),
{
    let w = uuid_width_of(kind);
    let n = d.len();
    if n % w != 0 {
        return;
    }
    let ghost target = add_uuid_list(list@, d@, kind);
    let mut i: usize = 0;
    assert(d@.subrange(0, n as int) =~= d@);
    while n - i >= w
        invariant
            i <= n,
            n == d@.len(),
            w as nat == uuid_width(kind),
            add_uuid_list(list@, d@.subrange(i as int, n as int), kind) == target,
        decreases n - i,
    {
        let ghost rest = d@.subrange(i as int, n as int);
        let u = read_uuid(d, i, kind);
        assert(rest.subrange(0, w as int) =~= d@.subrange(i as int, i + w));
        assert(rest.subrange(w as int, rest.len() as int) =~= d@.subrange(i + w, n as int));
        push_unique(list, u);
        i = i + w;
    }
}

/// Data that an advertisement attaches to one service.
#[derive(Clone, Debug, PartialEq, Eq, Hash)]
pub struct ServiceData {
    pub uuid: Uuid,
    pub data: Vec<u8>,
}

pub open spec fn service_data_view(s: Seq<ServiceData>) -> Seq<(Uuid, Seq<u8>)> {
    s.map_values(|e: ServiceData| (e.uuid, e.data@))
}

/// `i` is the first index of `s` whose key is `u`.
pub open spec fn first_key_index(s: Seq<(Uuid, Seq<u8>)>, u: Uuid, i: int) -> bool {
    &&& 0 <= i < s.len()
    &&& s[i].0 == u
    &&& forall|j: int| 0 <= j < i ==> s[j].0 != u
}

/// `s` with the value of key `u` set to `v`: in place where the key is there,
/// appended where it is not.
pub open spec fn upsert(s: Seq<(Uuid, Seq<u8>)>, u: Uuid, v: Seq<u8>) -> Seq<(Uuid, Seq<u8>)> {
    if exists|i: int| first_key_index(s, u, i) {
        let i = choose|i: int| first_key_index(s, u, i);
        s.update(i, (u, v))
    } else {
        s.push((u, v))
    }
}

/// The index of the entry of `entries` keyed by `u`, if any.
pub fn find_service_data(entries: &Vec<ServiceData>, u: Uuid) -> (r: Option<usize>)
    ensures
        match r {
            Some(i) => first_key_index(service_data_view(entries@), u, i as int),
            None => !exists|i: int| first_key_index(service_data_view(entries@), u, i),
        },
{
    let ghost sv = service_data_view(entries@);
    let mut i: usize = 0;
    while i < entries.len()
        invariant
            i <= entries@.len(),
            sv == service_data_view(entries@),
            forall|j: int| 0 <= j < i ==> sv[j].0 != u,
        decreases entries@.len() - i,
    {
        if entries[i].uuid == u {
            return Some(i);
        }
        i = i + 1;
    }
    None
}

/// Sets the data of service `u` in `entries` to `data`.
pub fn upsert_service_data(entries: &mut Vec<ServiceData>, u: Uuid, data: Vec<u8>)
    ensures
        service_data_view(final(entries)@) == upsert(service_data_view(old(entries)@), u, data@),
{
    let ghost before = service_data_view(entries@);
    let ghost v = data@;
    match find_service_data(entries, u) {
        Some(i) => {
            entries[i] = ServiceData { uuid: u, data };
            proof {
                let c = choose|k: int| first_key_index(before, u, k);
                assert(c == i as int) by {
                    if c < i {
                        assert(before[c].0 != u);
                    } else if c > i {
                        assert(before[i as int].0 != u);
                    }
                }
                assert(service_data_view(entries@) =~= before.update(i as int, (u, v)));
            }
        },
        None => {
            entries.push(ServiceData { uuid: u, data });
            assert(service_data_view(entries@) =~= before.push((u, v)));
        },
    }
}

/// A section of an advertising payload: its type byte and its data.
#[derive(Clone, Debug, PartialEq, Eq, Hash)]
pub struct DataSection {
    pub data_type: u8,
    pub data: Vec<u8>,
}

impl View for DataSection {
    type V = (u8, Seq<u8>);

    open spec fn view(&self) -> (u8, Seq<u8>) {
        (self.data_type, self.data@)
    }
}

pub open spec fn sections_view(s: Seq<DataSection>) -> Seq<(u8, Seq<u8>)> {
    s.map_values(|x: DataSection| x@)
}

/// The decoded content of an advertisement.
#[derive(Clone, Debug, PartialEq, Eq)]
pub struct AdvertisementData {
    pub local_name: Option<String>,
    pub manufacturer_data: Option<ManufacturerData>,
    pub services: Vec<Uuid>,
    pub solicited_services: Vec<Uuid>,
    pub service_data: Vec<ServiceData>,
    pub tx_power_level: Option<i16>,
    pub is_connectable: bool,
}

/// The mathematical content of [`AdvertisementData`].
pub struct AdvertisementView {
    pub local_name: Option<Seq<char>>,
    pub manufacturer_data: Option<(u16, Seq<u8>)>,
    pub services: Seq<Uuid>,
    pub solicited_services: Seq<Uuid>,
    pub service_data: Seq<(Uuid, Seq<u8>)>,
    pub tx_power_level: Option<i16>,
    pub is_connectable: bool,
}

pub open spec fn opt_text_view(o: Option<String>) -> Option<Seq<char>> {
    match o {
        Some(t) => Some(t@),
        None => None,
    }
}

impl View for AdvertisementData {
    type V = AdvertisementView;

    open spec fn view(&self) -> AdvertisementView {
        AdvertisementView {
            local_name: opt_text_view(self.local_name),
            manufacturer_data: opt_manufacturer_view(self.manufacturer_data),
            services: self.services@,
            solicited_services: self.solicited_services@,
            service_data: service_data_view(self.service_data@),
            tx_power_level: self.tx_power_level,
            is_connectable: self.is_connectable,
        }
    }
}

/// An advertisement with nothing in it but its connectable flag.
pub open spec fn empty_view(is_connectable: bool) -> AdvertisementView {
    AdvertisementView {
        local_name: None,
        manufacturer_data: None,
        services: Seq::empty(),
        solicited_services: Seq::empty(),
        service_data: Seq::empty(),
        tx_power_level: None,
        is_connectable,
    }
}

/// The text of the UTF-8 bytes `b`, each invalid sequence replaced by U+FFFD.
pub uninterp spec fn lossy_text(b: Seq<u8>) -> Seq<char>;

/// Relies on `String::from_utf8_lossy`: the text depends on the bytes alone.
#[verifier::external_body]
fn text_from_utf8_lossy(b: &[u8]) -> (r: String)
    ensures
        r@ == lossy_text(b@),
{
    String::from_utf8_lossy(b).into_owned()
}

/// `acc` after one section `s` of a payload.
///
/// A local name replaces an earlier one; the first well-formed manufacturer
/// section is kept; UUID lists add the UUIDs not yet listed; service data
/// sets the value of its UUID. Sections of other types, and malformed ones,
/// leave `acc` as it is.
pub open spec fn apply_section(acc: AdvertisementView, s: (u8, Seq<u8>)) -> AdvertisementView {
    let d = s.1;
    match role_of(s.0) {
        SectionRole::LocalName => if d.len() > 0 {
            AdvertisementView { local_name: Some(lossy_text(d)), ..acc }
        } else {
            acc
        },
        SectionRole::Manufacturer => if acc.manufacturer_data is None && d.len() >= 2 {
            AdvertisementView { manufacturer_data: manufacturer_of(d), ..acc }
        } else {
            acc
        },
        SectionRole::TxPower => if d.len() == 1 {
            AdvertisementView { tx_power_level: Some(d[0] as i8 as i16), ..acc }
        } else {
            acc
        },
        SectionRole::Services(k) => AdvertisementView {
            services: uuid_list_section(acc.services, d, k),
            ..acc
        },
        SectionRole::Solicited(k) => AdvertisementView {
            solicited_services: uuid_list_section(acc.solicited_services, d, k),
            ..acc
        },
        SectionRole::ServiceData(k) => if d.len() >= uuid_width(k) {
            AdvertisementView {
                service_data: upsert(
                    acc.service_data,
                    uuid_from_bytes(d.subrange(0, uuid_width(k) as int), k),
                    d.subrange(uuid_width(k) as int, d.len() as int),
                ),
                ..acc
            }
        } else {
            acc
        },
        SectionRole::Other => acc,
    }
}

/// `acc` after each section of `secs`, in order.
pub open spec fn decode_sections(acc: AdvertisementView, secs: Seq<(u8, Seq<u8>)>) -> AdvertisementView
    decreases secs.len(),
{
    if secs.len() == 0 {
        acc
    } else {
        decode_sections(apply_section(acc, secs[0]), secs.drop_first())
    }
}

/// The advertisement that the sections `secs` describe.
pub open spec fn decoded(secs: Seq<(u8, Seq<u8>)>, is_connectable: bool) -> AdvertisementView {
    decode_sections(empty_view(is_connectable), secs)
}

impl AdvertisementData {
    /// An advertisement with nothing in it but its connectable flag.
    pub fn empty(is_connectable: bool) -> (r: AdvertisementData)
        ensures
            r@ == empty_view(is_connectable),
    {
        let r = AdvertisementData {
            local_name: None,
            manufacturer_data: None,
            services: Vec::new(),
            solicited_services: Vec::new(),
            service_data: Vec::new(),
            tx_power_level: None,
            is_connectable,
        };
        assert(service_data_view(r.service_data@) =~= Seq::empty());
        r
    }

    /// Takes one payload section into account.
    pub fn apply_section(&mut self, section: &DataSection)
        ensures
            final(self)@ == apply_section(old(self)@, section@),
    {
        let d = section.data.as_slice();
        match section_role(section.data_type) {
            SectionRole::LocalName => {
                if d.len() > 0 {
                    self.local_name = Some(text_from_utf8_lossy(d));
                }
            },
            SectionRole::Manufacturer => {
                if self.manufacturer_data.is_none() && d.len() >= 2 {
                    self.manufacturer_data = ManufacturerData::from_bytes(d);
                }
            },
            SectionRole::TxPower => {
                if d.len() == 1 {
                    self.tx_power_level = Some(d[0] as i8 as i16);
                }
            },
            SectionRole::Services(k) => {
                add_uuids(&mut self.services, d, k);
            },
            SectionRole::Solicited(k) => {
                add_uuids(&mut self.solicited_services, d, k);
            },
            SectionRole::ServiceData(k) => {
                let w = uuid_width_of(k);
                if d.len() >= w {
                    let u = read_uuid(d, 0, k);
                    let value = copy_range(d, w, d.len());
                    upsert_service_data(&mut self.service_data, u, value);
                }
            },
            SectionRole::Other => {},
        }
    }

    /// Decodes an advertisement from its payload sections. Decoding never
    /// fails: malformed sections and sections of other types are skipped.
    pub fn from_sections(sections: &[DataSection], is_connectable: bool) -> (r: AdvertisementData)
        ensures
            r@ == decoded(sections_view(sections@), is_connectable),
    {
        let ghost sv = sections_view(sections@);
        let ghost target = decoded(sv, is_connectable);
        let mut out = AdvertisementData::empty(is_connectable);
        let mut i: usize = 0;
        assert(sv.subrange(0, sv.len() as int) =~= sv);
        while i < sections.len()
            invariant
                i <= sections@.len(),
                sv == sections_view(sections@),
                decode_sections(out@, sv.subrange(i as int, sv.len() as int)) == target,
            decreases sections@.len() - i,
        {
            let ghost rest = sv.subrange(i as int, sv.len() as int);
            assert(rest.drop_first() =~= sv.subrange(i + 1, sv.len() as int));
            out.apply_section(&sections[i]);
            i = i + 1;
        }
        assert(sv.subrange(i as int, sv.len() as int) =~= Seq::empty());
        out
    }
}

/// The sections of a raw payload: each is a length byte `n`, then a type byte
/// and `n - 1` data bytes. A zero length, or a section that runs past the end,
/// ends the payload.
pub open spec fn sections_of(raw: Seq<u8>) -> Seq<(u8, Seq<u8>)>
    decreases raw.len(),
{
    if raw.len() == 0 || raw[0] == 0 || raw[0] as int + 1 > raw.len() {
        Seq::empty()
    } else {
        seq![(raw[1], raw.subrange(2, raw[0] as int + 1))] + sections_of(
            raw.subrange(raw[0] as int + 1, raw.len() as int),
        )
    }
}

/// The raw form of sections: each as its length byte, type byte and data.
pub open spec fn payload_of(secs: Seq<(u8, Seq<u8>)>) -> Seq<u8>
    decreases secs.len(),
{
    if secs.len() == 0 {
        Seq::empty()
    } else {
        seq![(secs[0].1.len() + 1) as u8, secs[0].0] + secs[0].1 + payload_of(secs.drop_first())
    }
}

/// Every section fits the one-byte length of the raw form.
pub open spec fn sections_fit(secs: Seq<(u8, Seq<u8>)>) -> bool {
    forall|i: int| 0 <= i < secs.len() ==> #[trigger] secs[i].1.len() <= 254
}

/// Splits a raw advertising payload into its sections.
pub fn parse_sections(raw: &[u8]) -> (r: Vec<DataSection>)
    ensures
        sections_view(r@) == sections_of(raw@),
{
    let n = raw.len();
    let mut out: Vec<DataSection> = Vec::new();
    let mut i: usize = 0;
    assert(raw@.subrange(0, n as int) =~= raw@);
    while i < n
        invariant
            i <= n,
            n == raw@.len(),
            sections_view(out@) + sections_of(raw@.subrange(i as int, n as int)) == sections_of(raw@),
        decreases n - i,
    {
        let ghost rest = raw@.subrange(i as int, n as int);
        let len = raw[i] as usize;
        if len == 0 || len + 1 > n - i {
            assert(sections_view(out@) + sections_of(rest) =~= sections_view(out@));
            return out;
        }
        let data = copy_range(raw, i + 2, i + 1 + len);
        let ghost before = sections_view(out@);
        out.push(DataSection { data_type: raw[i + 1], data });
        assert(rest.subrange(2, len + 1) =~= raw@.subrange(i + 2, i + 1 + len));
        assert(rest.subrange(len + 1, rest.len() as int) =~= raw@.subrange(i + 1 + len, n as int));
        assert(sections_view(out@) =~= before.push((raw@[i + 1], raw@.subrange(i + 2, i + 1 + len))));
        assert(sections_view(out@) + sections_of(raw@.subrange(i + 1 + len, n as int)) =~= before
            + sections_of(rest));
        i = i + 1 + len;
    }
    assert(sections_view(out@) + sections_of(raw@.subrange(i as int, n as int)) =~= sections_view(
        out@,
    ));
    out
}

/// Writes sections in their raw form.
pub fn encode_sections(sections: &[DataSection]) -> (r: Vec<u8>)
    requires
        sections_fit(sections_view(sections@)),
    ensures
        r@ == payload_of(sections_view(sections@)),
{
    let ghost sv = sections_view(sections@);
    let mut out: Vec<u8> = Vec::new();
    let mut i: usize = 0;
    assert(sv.subrange(0, sv.len() as int) =~= sv);
    while i < sections.len()
        invariant
            i <= sections@.len(),
            sv == sections_view(sections@),
            sections_fit(sv),
            out@ + payload_of(sv.subrange(i as int, sv.len() as int)) == payload_of(sv),
        decreases sections@.len() - i,
    {
        let ghost rest = sv.subrange(i as int, sv.len() as int);
        let ghost before = out@;
        let section = &sections[i];
        assert(sv[i as int].1.len() <= 254);
        let len = section.data.len();
        out.push((len + 1) as u8);
        out.push(section.data_type);
        let mut j: usize = 0;
        while j < len
            invariant
                j <= len,
                len == section.data@.len(),
                out@ == before + seq![(len + 1) as u8, section.data_type] + section.data@.subrange(
                    0,
                    j as int,
                ),
            decreases len - j,
        {
            out.push(section.data[j]);
            j = j + 1;
            assert(section.data@.subrange(0, j as int) =~= section.data@.subrange(0, j - 1).push(
                section.data@[j - 1],
            ));
        }
        assert(section.data@.subrange(0, len as int) =~= section.data@);
        assert(rest.drop_first() =~= sv.subrange(i + 1, sv.len() as int));
        assert(out@ + payload_of(sv.subrange(i + 1, sv.len() as int)) =~= before + payload_of(rest));
        i = i + 1;
    }
    assert(out@ + payload_of(sv.subrange(i as int, sv.len() as int)) =~= out@);
    out
}

/// Writing sections in raw form and splitting the result gives them back.
pub proof fn lemma_payload_round_trip(secs: Seq<(u8, Seq<u8>)>)
    requires
        sections_fit(secs),
    ensures
        sections_of(payload_of(secs)) == secs,
    decreases secs.len(),
{
    if secs.len() > 0 {
        let rest = secs.drop_first();
        assert(sections_fit(rest)) by {
            assert forall|i: int| 0 <= i < rest.len() implies #[trigger] rest[i].1.len() <= 254 by {
                assert(secs[i + 1].1.len() <= 254);
            }
        }
        lemma_payload_round_trip(rest);
        let raw = payload_of(secs);
        let n: int = secs[0].1.len() as int + 1;
        assert(secs[0].1.len() <= 254);
        assert(raw[0] as int == n);
        assert(raw.subrange(2, n + 1) =~= secs[0].1);
        assert(raw.subrange(n + 1, raw.len() as int) =~= payload_of(rest));
        assert(seq![(raw[1], raw.subrange(2, n + 1))] + rest =~= secs);
    }
}

impl AdvertisementData {
    /// Decodes an advertisement from its raw payload.
    pub fn from_payload(raw: &[u8], is_connectable: bool) -> (r: AdvertisementData)
        ensures
            r@ == decoded(sections_of(raw@), is_connectable),
    {
        let sections = parse_sections(raw);
        AdvertisementData::from_sections(sections.as_slice(), is_connectable)
    }
}

/// Whether `t` is the type of a section that decoding reads.
pub open spec fn is_known_section(t: u8) -> bool {
    role_of(t) != SectionRole::Other
}

/// A section of a type that decoding does not read changes nothing: the rest
/// of the payload decodes as if it were not there.
pub proof fn lemma_unknown_section_ignored(
    acc: AdvertisementView,
    before: Seq<(u8, Seq<u8>)>,
    unknown: (u8, Seq<u8>),
    after: Seq<(u8, Seq<u8>)>,
)
    requires
        !is_known_section(unknown.0),
    ensures
        decode_sections(acc, before + seq![unknown] + after) == decode_sections(acc, before + after),
    decreases before.len(),
{
    if before.len() == 0 {
        assert(before + seq![unknown] + after =~= seq![unknown] + after);
        assert(before + after =~= after);
        assert((seq![unknown] + after).drop_first() =~= after);
    } else {
        lemma_unknown_section_ignored(apply_section(acc, before[0]), before.drop_first(), unknown, after);
        assert((before + seq![unknown] + after).drop_first() =~= before.drop_first() + seq![unknown]
            + after);
        assert((before + after).drop_first() =~= before.drop_first() + after);
    }
}

} // verus!
