//! Scanning: the single-flight rule, and what a scan makes of each report.
use vstd::prelude::*;

use crate::advertisement::{decoded, sections_view, AdvertisementData, AdvertisementView};
use crate::device::{Device, DeviceId};
use crate::error::{Error, ErrorKind};
use crate::events::{result_kind, BridgeItem, CentralEvent};
use crate::service_uuid::Uuid;

verus! {

/// An advertisement received during a scan, with the device that sent it.
#[derive(Clone, Debug)]
pub struct AdvertisingDevice {
    pub device: Device,
    pub adv_data: AdvertisementData,
    pub rssi: Option<i16>,
}

/// Whether a scan runs: the flag that all handles of one adapter share.
#[derive(Debug)]
pub struct ScanState {
    scanning: bool,
}

impl View for ScanState {
    type V = bool;

    closed spec fn view(&self) -> bool {
        self.scanning
    }
}

/// The flag after a request to start a scan, and the request's result. A
/// scan starts only while the adapter is available and no other scan runs.
pub open spec fn begin_scan(scanning: bool, powered_on: bool) -> (bool, Result<(), ErrorKind>) {
    if !powered_on {
        (scanning, Err(ErrorKind::AdapterUnavailable))
    } else if scanning {
        (scanning, Err(ErrorKind::AlreadyScanning))
    } else {
        (true, Ok(()))
    }
}

impl ScanState {
    pub fn new() -> (r: ScanState)
        ensures
            !r@,
    {
        ScanState { scanning: false }
    }

    pub fn is_scanning(&self) -> (r: bool)
        ensures
            r == self@,
    {
        self.scanning
    }

    /// Claims the flag for a new scan.
    pub fn try_begin(&mut self, powered_on: bool) -> (r: Result<(), Error>)
        ensures
            (final(self)@, result_kind(r)) == begin_scan(old(self)@, powered_on),
    {
        if !powered_on {
            Err(Error::new(ErrorKind::AdapterUnavailable, "adapter is not available".to_owned()))
        } else if self.scanning {
            Err(Error::new(ErrorKind::AlreadyScanning, "a scan is already running".to_owned()))
        } else {
            self.scanning = true;
            Ok(())
        }
    }

    /// Releases the flag once a scan has stopped.
    pub fn finish(&mut self)
        ensures
            !final(self)@,
    {
        self.scanning = false;
    }
}

/// A request on the scan flag: start a scan with the adapter in the given
/// power state, or end the running one.
#[derive(Clone, Copy, Debug, PartialEq, Eq, Structural)]
pub enum ScanRequest {
    Begin(bool),
    Finish,
}

/// The flag after the requests `reqs`, from `scanning`.
pub open spec fn flag_after(scanning: bool, reqs: Seq<ScanRequest>) -> bool
    decreases reqs.len(),
{
    if reqs.len() == 0 {
        scanning
    } else {
        match reqs.last() {
            ScanRequest::Begin(p) => begin_scan(flag_after(scanning, reqs.drop_last()), p).0,
            ScanRequest::Finish => false,
        }
    }
}

/// Request `i` of `reqs` starts a scan, from a flag that starts clear.
pub open spec fn begin_succeeds(reqs: Seq<ScanRequest>, i: int) -> bool {
    &&& 0 <= i < reqs.len()
    &&& reqs[i] matches ScanRequest::Begin(p)
    &&& begin_scan(flag_after(false, reqs.subrange(0, i)), p).1 is Ok
}

proof fn lemma_flag_stays_set(reqs: Seq<ScanRequest>, i: int, k: int)
    requires
        0 <= i < k <= reqs.len(),
        flag_after(false, reqs.subrange(0, i + 1)),
        forall|m: int| i < m < k ==> reqs[m] != ScanRequest::Finish,
    ensures
        flag_after(false, reqs.subrange(0, k)),
    decreases k - i,
{
    if k > i + 1 {
        lemma_flag_stays_set(reqs, i, k - 1);
        assert(reqs.subrange(0, k).drop_last() =~= reqs.subrange(0, k - 1));
        assert(reqs.subrange(0, k).last() == reqs[k - 1]);
    }
}

/// At most one scan runs at a time: between two requests that start a scan,
/// one ends the first.
pub proof fn lemma_single_flight(reqs: Seq<ScanRequest>, i: int, j: int)
    requires
        i < j,
        begin_succeeds(reqs, i),
        begin_succeeds(reqs, j),
    ensures
        exists|m: int| i < m < j && reqs[m] == ScanRequest::Finish,
{
    if !(exists|m: int| i < m < j && reqs[m] == ScanRequest::Finish) {
        assert(reqs.subrange(0, i + 1).drop_last() =~= reqs.subrange(0, i));
        assert(reqs.subrange(0, i + 1).last() == reqs[i]);
        lemma_flag_stays_set(reqs, i, j);
    }
}

/// Once a scan ends, whatever came before, the next request to start one
/// while the adapter is available succeeds.
pub proof fn lemma_scan_after_finish(scanning: bool, reqs: Seq<ScanRequest>)
    ensures
        !flag_after(scanning, reqs.push(ScanRequest::Finish)),
        begin_scan(flag_after(scanning, reqs.push(ScanRequest::Finish)), true) == (
        true,
        Ok::<(), ErrorKind>(()),
        ),
{
    assert(reqs.push(ScanRequest::Finish).last() == ScanRequest::Finish);
}

/// An advertisement with `services` passes the filter `filter`: an empty
/// filter passes all, another passes those that list one of its UUIDs.
pub open spec fn passes_filter(filter: Seq<Uuid>, services: Seq<Uuid>) -> bool {
    filter.len() == 0 || exists|i: int| 0 <= i < filter.len() && services.contains(filter[i])
}

pub fn matches_services(filter: &[Uuid], services: &Vec<Uuid>) -> (r: bool)
    ensures
        r == passes_filter(filter@, services@),
{
    if filter.len() == 0 {
        return true;
    }
    let mut i: usize = 0;
    while i < filter.len()
        invariant
            i <= filter@.len(),
            forall|j: int| 0 <= j < i ==> !services@.contains(filter@[j]),
        decreases filter@.len() - i,
    {
        if crate::advertisement::contains_uuid(services, filter[i]) {
            return true;
        }
        i = i + 1;
    }
    false
}

/// What a scan does with one item.
#[derive(Debug)]
pub enum ScanStep {
    /// Hand this advertisement to the caller.
    Yield(AdvertisingDevice),
    /// Read on.
    Skip,
    /// The scan is over.
    End,
}

/// The advertisement that a discovery report carries.
pub open spec fn reported_advertisement(e: CentralEvent) -> AdvertisementView {
    match e {
        CentralEvent::Discovered { sections, is_connectable, .. } => decoded(
            sections_view(sections@),
            is_connectable,
        ),
        _ => decoded(Seq::empty(), false),
    }
}

/// The item is a discovery report whose advertisement passes `filter`.
pub open spec fn wanted(filter: Seq<Uuid>, item: BridgeItem) -> bool {
    &&& item matches BridgeItem::Event(e)
    &&& e is Discovered
    &&& passes_filter(filter, reported_advertisement(e).services)
}

/// One item of a scan with the filter `filter`, read with the power state
/// `powered_on`: the scan ends with the event stream or when the adapter is
/// no longer available; it hands on each discovery that passes the filter,
/// decoded, and passes over everything else.
pub fn scan_step(filter: &[Uuid], item: BridgeItem, powered_on: bool) -> (r: ScanStep)
    ensures
        r is End <==> (item is Closed || !powered_on),
        r is Yield <==> (powered_on && wanted(filter@, item)),
        r matches ScanStep::Yield(found) ==> item matches BridgeItem::Event(
            CentralEvent::Discovered { peripheral, rssi, .. },
        ) && found.device.id@ == peripheral@ && found.rssi == Some(rssi) && found.adv_data@
            == reported_advertisement(item->Event_0),
{
    if !powered_on {
        return ScanStep::End;
    }
    match item {
        BridgeItem::Closed => ScanStep::End,
        BridgeItem::Event(CentralEvent::Discovered { peripheral, sections, is_connectable, rssi }) => {
            let adv_data = AdvertisementData::from_sections(sections.as_slice(), is_connectable);
            if matches_services(filter, &adv_data.services) {
                ScanStep::Yield(
                    AdvertisingDevice { device: Device::new(peripheral), adv_data, rssi: Some(rssi) },
                )
            } else {
                ScanStep::Skip
            }
        },
        _ => ScanStep::Skip,
    }
}

} // verus!
