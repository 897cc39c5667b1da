//! Device identity, and the joins that find connected devices offering a
//! service.
use vstd::prelude::*;

use crate::error::{Error, ErrorKind};
use crate::service_uuid::{hyphenated_text, Uuid};

verus! {

/// The identity of a device, as the native framework writes it.
#[derive(Clone, Debug, Hash)]
pub struct DeviceId(pub String);

impl View for DeviceId {
    type V = Seq<char>;

    open spec fn view(&self) -> Seq<char> {
        self.0@
    }
}

impl PartialEq for DeviceId {
    fn eq(&self, other: &DeviceId) -> (r: bool) {
        self.0 == other.0
    }
}

impl vstd::std_specs::cmp::PartialEqSpecImpl for DeviceId {
    open spec fn obeys_eq_spec() -> bool {
        true
    }

    open spec fn eq_spec(&self, other: &DeviceId) -> bool {
        self@ == other@
    }
}

impl Eq for DeviceId {}

/// A device, known by its identity.
#[derive(Clone, Debug, Hash)]
pub struct Device {
    pub id: DeviceId,
}

impl Device {
    pub fn new(id: DeviceId) -> (r: Device)
        ensures
            r.id@ == id@,
    {
        Device { id }
    }

    pub fn id(&self) -> (r: &DeviceId)
        ensures
            r@ == self.id@,
    {
        &self.id
    }
}

/// The device that a lookup by identity found, or `NotFound`.
pub fn device_or_not_found(found: Option<Device>) -> (r: Result<Device, Error>)
    ensures
        r is Err <==> found is None,
        r matches Err(e) ==> e.kind == ErrorKind::NotFound,
        r matches Ok(d) ==> found matches Some(f) && d.id@ == f.id@,
{
    match found {
        Some(d) => Ok(d),
        None => Err(Error::new(ErrorKind::NotFound, "no device with this identity".to_owned())),
    }
}

pub open spec fn ids_view(s: Seq<DeviceId>) -> Seq<Seq<char>> {
    s.map_values(|d: DeviceId| d@)
}

/// Whether `list` holds an identity equal to `id`.
pub fn contains_id(list: &Vec<DeviceId>, id: &DeviceId) -> (r: bool)
    ensures
        r == ids_view(list@).contains(id@),
{
    let ghost v = ids_view(list@);
    let mut i: usize = 0;
    while i < list.len()
        invariant
            i <= list@.len(),
            v == ids_view(list@),
            forall|j: int| 0 <= j < i ==> v[j] != id@,
        decreases list@.len() - i,
    {
        if list[i] == *id {
            assert(v[i as int] == id@);
            return true;
        }
        i = i + 1;
    }
    false
}

/// The devices of `owners` that are also in `connected`, each once.
///
/// `connected` lists the connected devices; `owners` lists the devices that
/// offer a requested service, one entry for each such service.
pub fn join_by_identity(connected: &Vec<DeviceId>, owners: &Vec<DeviceId>) -> (r: Vec<DeviceId>)
    ensures
        ids_view(r@).no_duplicates(),
        forall|x: Seq<char>|
            ids_view(r@).contains(x) <==> (ids_view(connected@).contains(x) && ids_view(
                owners@,
            ).contains(x)),
{
    let ghost ov = ids_view(owners@);
    let ghost cv = ids_view(connected@);
    let mut out: Vec<DeviceId> = Vec::new();
    let mut i: usize = 0;
    while i < owners.len()
        invariant
            i <= owners@.len(),
            ov == ids_view(owners@),
            cv == ids_view(connected@),
            ids_view(out@).no_duplicates(),
            forall|x: Seq<char>|
                ids_view(out@).contains(x) <==> (cv.contains(x) && ov.subrange(0, i as int).contains(
                    x,
                )),
        decreases owners@.len() - i,
    {
        let id = &owners[i];
        let ghost before = ids_view(out@);
        let ghost seen = ov.subrange(0, i as int);
        let ghost seen_next = ov.subrange(0, i + 1);
        assert(seen_next =~= seen.push(id@));
        assert(forall|x: Seq<char>| before.contains(x) <==> (cv.contains(x) && seen.contains(x)));
        let in_connected = contains_id(connected, id);
        let in_out = contains_id(&out, id);
        if in_connected && !in_out {
            out.push(DeviceId(id.0.clone()));
            assert(ids_view(out@) =~= before.push(id@));
        }
        assert forall|x: Seq<char>|
            ids_view(out@).contains(x) <==> (cv.contains(x) && seen_next.contains(x)) by {
            assert(seen_next[i as int] == id@);
            assert(before.contains(x) <==> (cv.contains(x) && seen.contains(x)));
            if x == id@ {
                if in_connected && !in_out {
                    assert(ids_view(out@)[before.len() as int] == x);
                }
            } else {
                if seen_next.contains(x) {
                    let k = choose|k: int| 0 <= k < seen_next.len() && seen_next[k] == x;
                    assert(seen[k] == x);
                }
                if seen.contains(x) {
                    let k = choose|k: int| 0 <= k < seen.len() && seen[k] == x;
                    assert(seen_next[k] == x);
                }
                if in_connected && !in_out {
                    if ids_view(out@).contains(x) {
                        let k = choose|k: int| 0 <= k < ids_view(out@).len() && ids_view(out@)[k] == x;
                        assert(before[k] == x);
                    }
                    if before.contains(x) {
                        let k = choose|k: int| 0 <= k < before.len() && before[k] == x;
                        assert(ids_view(out@)[k] == x);
                    }
                }
            }
        }
        i = i + 1;
    }
    assert(ov.subrange(0, i as int) =~= ov);
    assert forall|x: Seq<char>|
        ids_view(out@).contains(x) <==> (cv.contains(x) && ov.contains(x)) by {
        assert(ov.subrange(0, i as int) == ov);
    }
    out
}

/// `parts`, with `" OR "` between each two.
pub open spec fn or_joined(parts: Seq<Seq<char>>) -> Seq<char>
    decreases parts.len(),
{
    if parts.len() == 0 {
        Seq::empty()
    } else if parts.len() == 1 {
        parts[0]
    } else {
        or_joined(parts.drop_last()) + " OR "@ + parts.last()
    }
}

/// The query clause that matches a service of device `id`.
pub open spec fn device_clause(id: Seq<char>) -> Seq<char> {
    "System.Devices.AepService.AepId:=\""@ + id + "\""@
}

/// The query clause that matches a service with UUID `u`.
pub open spec fn service_clause(u: Uuid) -> Seq<char> {
    "System.Devices.AepService.Bluetooth.ServiceGuid:=\"{"@ + hyphenated_text(u.value) + "}\""@
}

/// The query that finds, among the services of the Bluetooth LE devices
/// `ids`, those with a UUID in `services`.
pub open spec fn service_query(ids: Seq<Seq<char>>, services: Seq<Uuid>) -> Seq<char> {
    "System.Devices.AepService.ProtocolId:=\"{BB7BB05E-5972-42B5-94FC-76EAA7084D49}\" AND ("@
        + or_joined(ids.map_values(|id: Seq<char>| device_clause(id))) + ") AND ("@ + or_joined(
        services.map_values(|u: Uuid| service_clause(u)),
    ) + ")"@
}

/// The clauses for the devices `ids`, joined by `OR`.
pub fn device_filter(ids: &Vec<DeviceId>) -> (r: String)
    ensures
        r@ == or_joined(ids_view(ids@).map_values(|id: Seq<char>| device_clause(id))),
{
    let ghost parts = ids_view(ids@).map_values(|id: Seq<char>| device_clause(id));
    let mut out = String::new();
    let mut i: usize = 0;
    while i < ids.len()
        invariant
            i <= ids@.len(),
            parts == ids_view(ids@).map_values(|id: Seq<char>| device_clause(id)),
            out@ == or_joined(parts.subrange(0, i as int)),
        decreases ids@.len() - i,
    {
        assert(parts.subrange(0, i + 1).drop_last() =~= parts.subrange(0, i as int));
        if i > 0 {
            out.append(" OR ");
        }
        out.append("System.Devices.AepService.AepId:=\"");
        out.append(ids[i].0.as_str());
        out.append("\"");
        i = i + 1;
    }
    assert(parts.subrange(0, i as int) =~= parts);
    out
}

/// The clauses for the UUIDs `services`, joined by `OR`.
pub fn service_filter(services: &Vec<Uuid>) -> (r: String)
    ensures
        r@ == or_joined(services@.map_values(|u: Uuid| service_clause(u))),
{
    let ghost parts = services@.map_values(|u: Uuid| service_clause(u));
    let mut out = String::new();
    let mut i: usize = 0;
    while i < services.len()
        invariant
            i <= services@.len(),
            parts == services@.map_values(|u: Uuid| service_clause(u)),
            out@ == or_joined(parts.subrange(0, i as int)),
        decreases services@.len() - i,
    {
        assert(parts.subrange(0, i + 1).drop_last() =~= parts.subrange(0, i as int));
        if i > 0 {
            out.append(" OR ");
        }
        out.append("System.Devices.AepService.Bluetooth.ServiceGuid:=\"{");
        let text = services[i].to_hyphenated_string();
        out.append(text.as_str());
        out.append("}\"");
        i = i + 1;
    }
    assert(parts.subrange(0, i as int) =~= parts);
    out
}

/// The query that finds, among the services of the devices `ids`, those with
/// a UUID in `services`.
pub fn aep_service_filter(ids: &Vec<DeviceId>, services: &Vec<Uuid>) -> (r: String)
    ensures
        r@ == service_query(ids_view(ids@), services@),
{
    let devices = device_filter(ids);
    let wanted = service_filter(services);
    let mut out = String::new();
    out.append(
        "System.Devices.AepService.ProtocolId:=\"{BB7BB05E-5972-42B5-94FC-76EAA7084D49}\" AND (",
    );
    out.append(devices.as_str());
    out.append(") AND (");
    out.append(wanted.as_str());
    out.append(")");
    out
}

} // verus!
