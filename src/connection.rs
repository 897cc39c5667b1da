//! Connect and disconnect: the command is issued, then the reports that
//! follow are read until one about the target device settles the result.
use vstd::prelude::*;

use crate::device::DeviceId;
use crate::error::{Error, ErrorKind};
use crate::events::{progress_view, result_kind, BridgeItem, CentralEvent, Progress};

verus! {

/// Which command a wait settles.
#[derive(Clone, Copy, Debug, PartialEq, Eq, Structural, Hash)]
pub enum Operation {
    Connect,
    Disconnect,
}

/// The report `e` names the device `target` in a connect or disconnect
/// outcome.
pub open spec fn concerns(e: CentralEvent, target: Seq<char>) -> bool {
    match e {
        CentralEvent::Connect { peripheral } => peripheral@ == target,
        CentralEvent::ConnectFailed { peripheral, .. } => peripheral@ == target,
        CentralEvent::Disconnect { peripheral, .. } => peripheral@ == target,
        _ => false,
    }
}

/// A connect or disconnect may start only while the adapter is available.
pub open spec fn operation_start(powered_on: bool) -> Result<(), ErrorKind> {
    if powered_on {
        Ok(())
    } else {
        Err(ErrorKind::AdapterUnavailable)
    }
}

/// A wait for the outcome of `op` on `target` after one item, read with the
/// power state `powered_on` after it.
///
/// The end of the event stream is an internal error; an adapter that is no
/// longer available fails the wait; a report of the outcome for `target`
/// settles it; every other item leaves it pending.
pub open spec fn connection_step(
    op: Operation,
    target: Seq<char>,
    item: BridgeItem,
    powered_on: bool,
) -> Option<Result<(), ErrorKind>> {
    match item {
        BridgeItem::Closed => Some(Err(ErrorKind::Internal)),
        _ => if !powered_on {
            Some(Err(ErrorKind::AdapterUnavailable))
        } else {
            match item {
                BridgeItem::Event(CentralEvent::Connect { peripheral }) => if op == Operation::Connect
                    && peripheral@ == target {
                    Some(Ok(()))
                } else {
                    None
                },
                BridgeItem::Event(CentralEvent::ConnectFailed { peripheral, .. }) => if op
                    == Operation::Connect && peripheral@ == target {
                    Some(Err(ErrorKind::ConnectionFailed))
                } else {
                    None
                },
                BridgeItem::Event(CentralEvent::Disconnect { peripheral, error }) => if op
                    == Operation::Disconnect && peripheral@ == target {
                    if error is None {
                        Some(Ok(()))
                    } else {
                        Some(Err(ErrorKind::ConnectionFailed))
                    }
                } else {
                    None
                },
                _ => None,
            }
        },
    }
}

/// The native error text that a failure report carries; empty if none.
pub open spec fn native_error_text(item: BridgeItem) -> Seq<char> {
    match item {
        BridgeItem::Event(CentralEvent::ConnectFailed { error: Some(t), .. }) => t@,
        BridgeItem::Event(CentralEvent::Disconnect { error: Some(t), .. }) => t@,
        _ => Seq::empty(),
    }
}

/// A pending connect or disconnect of one device.
#[derive(Clone, Debug)]
pub struct ConnectionWait {
    pub target: DeviceId,
    pub operation: Operation,
}

/// Checks that a connect or disconnect may start.
pub fn begin_operation(powered_on: bool) -> (r: Result<(), Error>)
    ensures
        result_kind(r) == operation_start(powered_on),
{
    if powered_on {
        Ok(())
    } else {
        Err(Error::new(ErrorKind::AdapterUnavailable, "adapter is not available".to_owned()))
    }
}

fn native_error(error: &Option<String>) -> (r: Error)
    ensures
        r.kind == ErrorKind::ConnectionFailed,
        r.message@ == match error {
            Some(t) => t@,
            None => Seq::<char>::empty(),
        },
{
    match error {
        Some(t) => Error::new(ErrorKind::ConnectionFailed, t.clone()),
        None => Error::from_kind(ErrorKind::ConnectionFailed),
    }
}

impl ConnectionWait {
    pub fn new(target: DeviceId, operation: Operation) -> (r: ConnectionWait)
        ensures
            r.target@ == target@,
            r.operation == operation,
    {
        ConnectionWait { target, operation }
    }

    /// The wait after one more item.
    pub fn step(&self, item: &BridgeItem, powered_on: bool) -> (r: Progress)
        ensures
            progress_view(r) == connection_step(self.operation, self.target@, *item, powered_on),
            match r {
                Progress::Done(Err(e)) => e.kind == ErrorKind::ConnectionFailed ==> e.message@
                    == native_error_text(*item),
                _ => true,
            },
    {
        match item {
            BridgeItem::Closed => {
                return Progress::Done(
                    Err(Error::new(ErrorKind::Internal, "event stream closed unexpectedly".to_owned())),
                );
            },
            _ => {},
        }
        if !powered_on {
            return Progress::Done(
                Err(Error::new(ErrorKind::AdapterUnavailable, "adapter is not available".to_owned())),
            );
        }
        match item {
            BridgeItem::Event(CentralEvent::Connect { peripheral }) => {
                if self.operation == Operation::Connect && *peripheral == self.target {
                    Progress::Done(Ok(()))
                } else {
                    Progress::Pending
                }
            },
            BridgeItem::Event(CentralEvent::ConnectFailed { peripheral, error }) => {
                if self.operation == Operation::Connect && *peripheral == self.target {
                    Progress::Done(Err(native_error(error)))
                } else {
                    Progress::Pending
                }
            },
            BridgeItem::Event(CentralEvent::Disconnect { peripheral, error }) => {
                if self.operation == Operation::Disconnect && *peripheral == self.target {
                    if error.is_none() {
                        Progress::Done(Ok(()))
                    } else {
                        Progress::Done(Err(native_error(error)))
                    }
                } else {
                    Progress::Pending
                }
            },
            _ => Progress::Pending,
        }
    }
}

/// A wait for `op` on `target` fed `inputs`: the index of the item that
/// settled it and the result, or `None` if none did.
pub open spec fn connection_resolution(
    op: Operation,
    target: Seq<char>,
    inputs: Seq<(BridgeItem, bool)>,
) -> Option<(int, Result<(), ErrorKind>)>
    decreases inputs.len(),
{
    if inputs.len() == 0 {
        None
    } else {
        match connection_step(op, target, inputs[0].0, inputs[0].1) {
            Some(r) => Some((0, r)),
            None => match connection_resolution(op, target, inputs.drop_first()) {
                Some((k, r)) => Some((k + 1, r)),
                None => None,
            },
        }
    }
}

/// How such a wait ends, if it does.
pub open spec fn connection_outcome(
    op: Operation,
    target: Seq<char>,
    inputs: Seq<(BridgeItem, bool)>,
) -> Option<Result<(), ErrorKind>> {
    match connection_resolution(op, target, inputs) {
        Some((_, r)) => Some(r),
        None => None,
    }
}

/// A connect succeeds only at a connect report for the target device, read
/// while the adapter is available.
pub proof fn lemma_connect_succeeds_only_on_its_report(target: Seq<char>, inputs: Seq<(BridgeItem, bool)>)
    requires
        connection_resolution(Operation::Connect, target, inputs) matches Some((_, Ok(_))),
    ensures
        ({
            let i = connection_resolution(Operation::Connect, target, inputs)->Some_0.0;
            &&& 0 <= i < inputs.len()
            &&& inputs[i].1
            &&& inputs[i].0 matches BridgeItem::Event(CentralEvent::Connect { peripheral })
                && peripheral@ == target
        }),
    decreases inputs.len(),
{
    if connection_step(Operation::Connect, target, inputs[0].0, inputs[0].1) is None {
        lemma_connect_succeeds_only_on_its_report(target, inputs.drop_first());
    }
}

/// A report about another device, read while the adapter is available,
/// neither settles a connect or disconnect nor changes how it ends.
pub proof fn lemma_other_devices_ignored(
    op: Operation,
    target: Seq<char>,
    before: Seq<(BridgeItem, bool)>,
    e: CentralEvent,
    after: Seq<(BridgeItem, bool)>,
)
    requires
        !concerns(e, target),
    ensures
        connection_step(op, target, BridgeItem::Event(e), true) is None,
        connection_outcome(op, target, before + seq![(BridgeItem::Event(e), true)] + after)
            == connection_outcome(op, target, before + after),
    decreases before.len(),
{
    let x = (BridgeItem::Event(e), true);
    if before.len() == 0 {
        assert(before + seq![x] + after =~= seq![x] + after);
        assert(before + after =~= after);
        assert((seq![x] + after).drop_first() =~= after);
    } else {
        lemma_other_devices_ignored(op, target, before.drop_first(), e, after);
        assert((before + seq![x] + after).drop_first() =~= before.drop_first() + seq![x] + after);
        assert((before + after).drop_first() =~= before.drop_first() + after);
    }
}

} // verus!
