//! What the native framework reports, and the power-state decisions made on
//! each report: the adapter event stream and the wait for availability.
use vstd::prelude::*;

use crate::advertisement::DataSection;
use crate::device::DeviceId;
use crate::error::{Error, ErrorKind};

verus! {

/// A change of the adapter's power state.
#[derive(Clone, Copy, Debug, PartialEq, Eq, Structural, Hash)]
pub enum AdapterEvent {
    Available,
    Unavailable,
}

/// A report of the native framework, as it reaches every subscriber.
#[derive(Clone, Debug)]
pub enum CentralEvent {
    /// The power state changed; read it again.
    StateChanged,
    /// An advertisement was received.
    Discovered { peripheral: DeviceId, sections: Vec<DataSection>, is_connectable: bool, rssi: i16 },
    /// A connection was made.
    Connect { peripheral: DeviceId },
    /// A connection attempt failed, with the native error text if any.
    ConnectFailed { peripheral: DeviceId, error: Option<String> },
    /// A connection ended, with the native error text if it ended by a fault.
    Disconnect { peripheral: DeviceId, error: Option<String> },
}

/// What one read of a subscription yields.
#[derive(Clone, Debug)]
pub enum BridgeItem {
    /// The next report.
    Event(CentralEvent),
    /// This subscriber fell behind and missed this many reports.
    Lagged(u64),
    /// The producer is gone; nothing more will come.
    Closed,
}

/// The state of a wait: still going, or finished with a result.
#[derive(Debug)]
pub enum Progress {
    Pending,
    Done(Result<(), Error>),
}

/// A result, with each error reduced to its kind.
pub open spec fn result_kind<T>(r: Result<T, Error>) -> Result<T, ErrorKind> {
    match r {
        Ok(v) => Ok(v),
        Err(e) => Err(e.kind),
    }
}

/// `None` while pending; the result, by kind, once done.
pub open spec fn progress_view(p: Progress) -> Option<Result<(), ErrorKind>> {
    match p {
        Progress::Pending => None,
        Progress::Done(r) => Some(result_kind(r)),
    }
}

pub open spec fn event_for(powered_on: bool) -> AdapterEvent {
    if powered_on {
        AdapterEvent::Available
    } else {
        AdapterEvent::Unavailable
    }
}

/// The adapter event for the power state read after a state change.
pub fn adapter_event_for(powered_on: bool) -> (r: AdapterEvent)
    ensures
        r == event_for(powered_on),
{
    if powered_on {
        AdapterEvent::Available
    } else {
        AdapterEvent::Unavailable
    }
}

/// What the adapter event stream makes of one item, read while the power
/// state is `powered_on`: a state change gives the event for that state; a
/// missed report and the producer's end are internal errors; every other
/// report is passed over (`None`).
pub open spec fn adapter_item(item: BridgeItem, powered_on: bool) -> Option<Result<AdapterEvent, ErrorKind>> {
    match item {
        BridgeItem::Event(CentralEvent::StateChanged) => Some(Ok(event_for(powered_on))),
        BridgeItem::Event(_) => None,
        BridgeItem::Lagged(_) => Some(Err(ErrorKind::Internal)),
        BridgeItem::Closed => Some(Err(ErrorKind::Internal)),
    }
}

pub open spec fn opt_result_kind<T>(r: Option<Result<T, Error>>) -> Option<Result<T, ErrorKind>> {
    match r {
        Some(x) => Some(result_kind(x)),
        None => None,
    }
}

/// The adapter event stream's element for one item.
pub fn adapter_event_from(item: &BridgeItem, powered_on: bool) -> (r: Option<Result<AdapterEvent, Error>>)
    ensures
        opt_result_kind(r) == adapter_item(*item, powered_on),
{
    match item {
        BridgeItem::Event(CentralEvent::StateChanged) => Some(Ok(adapter_event_for(powered_on))),
        BridgeItem::Event(_) => None,
        BridgeItem::Lagged(_) => Some(
            Err(Error::new(ErrorKind::Internal, "adapter event stream lagged".to_owned())),
        ),
        BridgeItem::Closed => Some(
            Err(Error::new(ErrorKind::Internal, "adapter event stream closed".to_owned())),
        ),
    }
}

/// How a wait for availability starts: done at once when the adapter is
/// available already.
pub open spec fn wait_start(powered_on: bool) -> Option<Result<(), ErrorKind>> {
    if powered_on {
        Some(Ok(()))
    } else {
        None
    }
}

/// A wait for availability after one item: done on the first `Available`
/// event, failed on an error of the event stream, pending otherwise.
pub open spec fn wait_step(item: BridgeItem, powered_on: bool) -> Option<Result<(), ErrorKind>> {
    match adapter_item(item, powered_on) {
        Some(Ok(AdapterEvent::Available)) => Some(Ok(())),
        Some(Ok(AdapterEvent::Unavailable)) => None,
        Some(Err(k)) => Some(Err(k)),
        None => None,
    }
}

pub fn wait_available_start(powered_on: bool) -> (r: Progress)
    ensures
        progress_view(r) == wait_start(powered_on),
{
    if powered_on {
        Progress::Done(Ok(()))
    } else {
        Progress::Pending
    }
}

pub fn wait_available_step(item: &BridgeItem, powered_on: bool) -> (r: Progress)
    ensures
        progress_view(r) == wait_step(*item, powered_on),
{
    match adapter_event_from(item, powered_on) {
        Some(Ok(AdapterEvent::Available)) => Progress::Done(Ok(())),
        Some(Ok(AdapterEvent::Unavailable)) => Progress::Pending,
        Some(Err(e)) => Progress::Done(Err(e)),
        None => Progress::Pending,
    }
}

/// A wait fed the items `inputs`, each with the power state read after it:
/// how many items it consumed and how it ended, or `None` if they did not
/// end it.
pub open spec fn wait_resolution(inputs: Seq<(BridgeItem, bool)>) -> Option<(int, Result<(), ErrorKind>)>
    decreases inputs.len(),
{
    if inputs.len() == 0 {
        None
    } else {
        match wait_step(inputs[0].0, inputs[0].1) {
            Some(r) => Some((1, r)),
            None => match wait_resolution(inputs.drop_first()) {
                Some((k, r)) => Some((k + 1, r)),
                None => None,
            },
        }
    }
}

/// A whole wait for availability that starts in power state `powered_on`.
pub open spec fn wait_outcome(powered_on: bool, inputs: Seq<(BridgeItem, bool)>) -> Option<(int, Result<(), ErrorKind>)> {
    match wait_start(powered_on) {
        Some(r) => Some((0, r)),
        None => wait_resolution(inputs),
    }
}

/// The item reports that the adapter became available.
pub open spec fn reports_available(x: (BridgeItem, bool)) -> bool {
    x.0 == BridgeItem::Event(CentralEvent::StateChanged) && x.1
}

/// The item is a report that does not make the adapter available.
pub open spec fn other_report(x: (BridgeItem, bool)) -> bool {
    x.0 is Event && !reports_available(x)
}

/// A wait for availability ends at once, without reading an item, when the
/// adapter is available; otherwise it ends with success exactly at the first
/// report that the adapter became available.
pub proof fn lemma_wait_ends_at_first_available(inputs: Seq<(BridgeItem, bool)>, i: int)
    requires
        0 <= i < inputs.len(),
        reports_available(inputs[i]),
        forall|j: int| 0 <= j < i ==> other_report(#[trigger] inputs[j]),
    ensures
        wait_outcome(true, inputs) == Some((0int, Ok::<(), ErrorKind>(()))),
        wait_outcome(false, inputs) == Some((i + 1, Ok::<(), ErrorKind>(()))),
    decreases i,
{
    if i > 0 {
        let rest = inputs.drop_first();
        assert forall|j: int| 0 <= j < i - 1 implies other_report(#[trigger] rest[j]) by {
            assert(other_report(inputs[j + 1]));
        }
        lemma_wait_ends_at_first_available(rest, i - 1);
        assert(other_report(inputs[0]));
        assert(wait_step(inputs[0].0, inputs[0].1) is None);
    }
}

} // verus!
