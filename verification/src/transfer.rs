//! The completion path of one in-flight asynchronous bulk read. The
//! transport's dispatch context invokes a completion callback outside the
//! caller's control flow; the callback tries a non-blocking acquisition of
//! the session lock, decodes the payload where it got the lock and drops it
//! where it did not, and then either marks the transfer finished or
//! resubmits it for continued streaming. The lock itself and the
//! resubmission live with the transport glue; this module holds every
//! decision the callback makes.
use vstd::prelude::*;
use crate::constants::LIBUSB_TRANSFER_CANCELLED;
use crate::packet::spec_strip_status;
use crate::packet::strip_status_bytes;

verus! {

/// One in-flight asynchronous bulk read: its completion marker, `0` while
/// the transfer is still streaming.
#[derive(Clone, Copy, PartialEq, Eq, Structural, Debug)]
pub struct ftdi_transfer_control {
    /// `0` while streaming; `LIBUSB_TRANSFER_CANCELLED` once the transport
    /// cancelled the transfer; `1` once a resubmission failed.
    pub completed: i32,
}

/// What one completion callback decided: the decoded payload (`None` where
/// the session lock could not be acquired and the data was dropped), and
/// the completion marker to store.
pub struct CallbackOutcome {
    /// The payload with the status bytes stripped; `None` where the
    /// callback could not take the session lock and dropped the data.
    pub payload: Option<Vec<u8>>,
    /// The completion marker after this callback: unchanged `0` while the
    /// transfer keeps streaming.
    pub completed: i32,
}

/// The completion marker one callback invocation leaves behind: a
/// cancelled transfer is marked cancelled and never resubmitted; otherwise
/// the transfer was resubmitted, and a failed resubmission marks the
/// transfer finished with an error.
pub open spec fn spec_completion_marker(cancelled: bool, resubmit_status: Option<i32>) -> i32 {
    if cancelled {
        LIBUSB_TRANSFER_CANCELLED
    } else if resubmit_status matches Some(st) && st < 0 {
        1i32
    } else {
        0i32
    }
}

/// Runs the decisions of one bulk-read completion callback: where the
/// session lock was acquired, the just-completed payload has its status
/// bytes stripped for delivery; where it was not, the payload is dropped
/// for this invocation. A cancelled transfer is marked cancelled; any
/// other transfer was resubmitted, and a failed resubmission marks the
/// transfer finished with an error.
pub fn ftdi_read_data_callback(
    locked: bool,
    raw: &Vec<u8>,
    max_packet_size: usize,
    cancelled: bool,
    resubmit_status: Option<i32>,
) -> (r: CallbackOutcome)
    requires
        max_packet_size > 2,
        // No transfer is resubmitted after a cancellation signal.
        resubmit_status is Some <==> !cancelled,
    ensures
        locked ==> r.payload is Some && r.payload->Some_0@ == spec_strip_status(
            raw@,
            max_packet_size as int,
        ),
        !locked ==> r.payload is None,
        r.completed == spec_completion_marker(cancelled, resubmit_status),
{
    let payload: Option<Vec<u8>> = if locked {
        Some(strip_status_bytes(raw, max_packet_size))
    } else {
        // The dispatch context could not take the session lock: degrade
        // gracefully and drop this payload rather than stall the dispatch.
        None
    };
    let completed: i32 = if cancelled {
        LIBUSB_TRANSFER_CANCELLED
    } else {
        match resubmit_status {
            Some(st) => if st < 0 {
                1
            } else {
                0
            },
            None => 0,
        }
    };
    CallbackOutcome { payload, completed }
}

} // verus!
