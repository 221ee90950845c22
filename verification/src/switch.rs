//! The protocol that stages a payload in device memory and starts it.
//!
//! Every step of the protocol is one transfer on the bus. The transfers are
//! the caller's; an [`Execution`] says which one is due and takes its
//! outcome. In order:
//!
//! 1. the device ID is read, which the device needs before it accepts data;
//! 2. the payload is written in packets, each of which flips the toggle
//!    between the two copy buffers of the device;
//! 3. where that leaves the toggle low, one packet of zeros follows;
//! 4. a control transfer asks for more than the high buffer holds, up to the
//!    end of the stack. The device copies past its stack and into the
//!    payload, and answers no more: the timeout of this transfer is the
//!    success of the whole.

use vstd::prelude::*;

use crate::buffer::{lemma_toggle_parity, BufferState};
use crate::device::{ENDPOINT_IN, ENDPOINT_OUT, TIMEOUT_SECONDS};
use crate::error::{SwitchError, UsbError};
use crate::payload::{is_image, lemma_is_image_length, Payload, BUILT_PAYLOAD_MAX_LENGTH};

verus! {

/// Length of a packet of the staged write.
pub const PACKET_SIZE: usize = 0x1000;

/// The most that is ever staged.
pub const MAX_LENGTH: usize = 0x30298;

/// Where the stack of the boot ROM ends.
pub const STACK_END: usize = 0x4001_0000;

/// Length of the device ID.
pub const DEVICE_ID_LENGTH: usize = 16;

/// The type of the request that triggers: a standard request, from the
/// device to the host, to an endpoint.
pub const TRIGGER_REQUEST_TYPE: u8 = 0x82;

/// The request that triggers: the status is asked for.
pub const GET_STATUS: u8 = 0x00;

/// A transfer that failed.
#[derive(Debug, Clone, PartialEq, Eq)]
pub struct TransferError {
    /// Whether the transfer ended because its time ran out.
    pub timed_out: bool,
    /// The failure as it is reported to the user.
    pub error: SwitchError,
}

impl TransferError {
    /// A failure that the USB library reported.
    pub fn from(failure: UsbError) -> (error: TransferError)
        ensures
            error.timed_out == (failure == UsbError::Timeout),
            error.error.reports(failure),
    {
        let timed_out = match failure {
            UsbError::Timeout => true,
            _ => false,
        };
        TransferError { timed_out, error: SwitchError::from(failure) }
    }
}

/// The transfer that is due. Each is given `TIMEOUT_SECONDS`.
#[derive(Debug, Clone, Copy, PartialEq, Eq, Structural)]
pub enum Request {
    /// A bulk read of `length` bytes from the endpoint.
    ReadDeviceId { endpoint: u8, length: usize },
    /// A bulk write to the endpoint of the bytes from `start` up to `end`
    /// of the payload.
    WritePayload { endpoint: u8, start: usize, end: usize },
    /// A bulk write to the endpoint of `length` zero bytes.
    WriteZeros { endpoint: u8, length: usize },
    /// A control transfer of this type and request, with value and index
    /// 0, that asks the device for `length` bytes.
    Trigger { request_type: u8, request: u8, length: usize },
    /// None: the payload runs.
    Finished,
}

impl Request {
    /// The seconds that the transfer is given: the same for each.
    pub fn timeout_seconds(&self) -> (seconds: u64)
        ensures
            seconds == TIMEOUT_SECONDS,
    {
        TIMEOUT_SECONDS
    }
}

/// How far an execution has come.
#[derive(Debug, Clone, Copy, PartialEq, Eq, Structural)]
pub enum Stage {
    /// The interface is claimed; nothing was transferred.
    Claimed,
    /// The device ID was read; the payload is being written.
    IdRead,
    /// Everything was written, and the toggle between the buffers is high.
    Staged,
    /// The device was made to copy past its stack and answered no more.
    Triggered,
}

/// What an execution is made of.
pub struct ExecutionView {
    /// The payload's bytes.
    pub image: Seq<u8>,
    pub stage: Stage,
    /// The state of the toggle between the copy buffers, which every
    /// packet flips.
    pub buffer: BufferState,
    /// The number of packets written.
    pub packets: nat,
    /// The number of bytes of the payload handed over.
    pub sent: nat,
    /// The number of bytes that the device took, as the transfers reported.
    pub total_written: nat,
}

impl ExecutionView {
    /// The number of packets that the payload is written in.
    pub open spec fn payload_packets(self) -> nat {
        self.image.len() / (PACKET_SIZE as nat)
    }

    /// Whether a packet of zeros has to follow the payload: where the
    /// payload alone leaves the toggle low.
    pub open spec fn needs_zeros(self) -> bool {
        self.payload_packets() % 2 == 0
    }

    /// What holds of every execution.
    pub open spec fn wf(self) -> bool {
        &&& is_image(self.image)
        &&& self.sent <= self.image.len()
        &&& self.sent % (PACKET_SIZE as nat) == 0
        &&& self.buffer == BufferState::Low.toggled(self.packets)
        &&& self.total_written <= usize::MAX
        &&& match self.stage {
            Stage::Claimed => self.sent == 0 && self.packets == 0,
            Stage::IdRead => self.packets == self.sent / (PACKET_SIZE as nat) && (self.sent
                == self.image.len() ==> self.needs_zeros()),
            Stage::Staged | Stage::Triggered => self.sent == self.image.len() && self.packets
                == self.payload_packets() + (if self.needs_zeros() {
                1nat
            } else {
                0nat
            }),
        }
    }

    /// The execution of a payload before its first transfer.
    pub open spec fn start(image: Seq<u8>) -> ExecutionView {
        ExecutionView {
            image,
            stage: Stage::Claimed,
            buffer: BufferState::Low,
            packets: 0,
            sent: 0,
            total_written: 0,
        }
    }

    /// The number of packets that are written in all.
    pub open spec fn total_packets(self) -> nat {
        self.payload_packets() + (if self.needs_zeros() {
            1nat
        } else {
            0nat
        })
    }

    /// The number of transfers that are due before the one that triggers.
    pub open spec fn transfers_before_trigger(self) -> nat {
        match self.stage {
            Stage::Claimed => 1 + self.total_packets(),
            Stage::IdRead => (self.total_packets() - self.packets) as nat,
            Stage::Staged | Stage::Triggered => 0,
        }
    }

    /// What the execution comes to over a series of transfers, each taken as
    /// the outcome of the one that was due: the first error ends it.
    pub open spec fn run(self, transfers: Seq<Result<usize, TransferError>>) -> Result<
        ExecutionView,
        SwitchError,
    >
        decreases transfers.len(),
    {
        if transfers.len() == 0 {
            Ok(self)
        } else {
            match self.respond(transfers[0]) {
                Ok(next) => next.run(transfers.drop_first()),
                Err(error) => Err(error),
            }
        }
    }

    /// The end of the packet of the payload that starts at `sent`.
    pub open spec fn packet_end(self) -> nat {
        if self.sent + PACKET_SIZE <= self.image.len() {
            (self.sent + PACKET_SIZE) as nat
        } else {
            self.image.len()
        }
    }

    /// The transfer that is due.
    pub open spec fn request(self) -> Request {
        match self.stage {
            Stage::Claimed => Request::ReadDeviceId {
                endpoint: ENDPOINT_IN,
                length: DEVICE_ID_LENGTH,
            },
            Stage::IdRead => if self.sent < self.image.len() {
                Request::WritePayload {
                    endpoint: ENDPOINT_OUT,
                    start: self.sent as usize,
                    end: self.packet_end() as usize,
                }
            } else {
                Request::WriteZeros { endpoint: ENDPOINT_OUT, length: PACKET_SIZE }
            },
            Stage::Staged => Request::Trigger {
                request_type: TRIGGER_REQUEST_TYPE,
                request: GET_STATUS,
                length: (STACK_END - self.buffer.spec_address()) as usize,
            },
            Stage::Triggered => Request::Finished,
        }
    }

    /// The execution after one more packet was written and `written` bytes
    /// of it were reported as taken.
    pub open spec fn after_packet(self, written: usize) -> ExecutionView {
        let sent = if self.sent < self.image.len() {
            self.packet_end()
        } else {
            self.sent
        };
        let buffer = self.buffer.flipped();
        ExecutionView {
            image: self.image,
            stage: if sent == self.image.len() && buffer == BufferState::High {
                Stage::Staged
            } else {
                Stage::IdRead
            },
            buffer,
            packets: self.packets + 1,
            sent,
            total_written: if self.total_written + written <= usize::MAX {
                (self.total_written + written) as nat
            } else {
                usize::MAX as nat
            },
        }
    }

    /// What the execution comes to when the transfer that was due ends in
    /// `transfer`: the execution to go on with, or the error that ends it.
    pub open spec fn respond(self, transfer: Result<usize, TransferError>) -> Result<
        ExecutionView,
        SwitchError,
    > {
        match self.stage {
            Stage::Claimed => match transfer {
                Ok(_) => Ok(ExecutionView { stage: Stage::IdRead, ..self }),
                Err(failure) => Err(failure.error),
            },
            Stage::IdRead => match transfer {
                Ok(written) => Ok(self.after_packet(written)),
                Err(failure) => Err(failure.error),
            },
            Stage::Staged => match transfer {
                Err(failure) if failure.timed_out => Ok(
                    ExecutionView { stage: Stage::Triggered, ..self },
                ),
                _ => Err(SwitchError::ExpectedError),
            },
            Stage::Triggered => Ok(self),
        }
    }
}

/// An RCM connection whose interface is claimed and that has transferred
/// nothing yet.
#[derive(Debug)]
pub struct Handle {
    current_buffer: BufferState,
    total_written: usize,
}

impl Handle {
    #[verifier::type_invariant]
    spec fn fresh(self) -> bool {
        self.current_buffer == BufferState::Low && self.total_written == 0
    }

    /// The state of the toggle between the copy buffers.
    pub closed spec fn spec_current_buffer(&self) -> BufferState {
        self.current_buffer
    }

    /// The number of bytes written.
    pub closed spec fn spec_total_written(&self) -> usize {
        self.total_written
    }

    /// The handle of a device whose interface was claimed a moment ago.
    pub fn new() -> (handle: Handle)
        ensures
            handle.spec_current_buffer() == BufferState::Low,
            handle.spec_total_written() == 0,
    {
        Handle { current_buffer: BufferState::Low, total_written: 0 }
    }

    /// The state of the toggle between the copy buffers: low, as nothing
    /// was written.
    #[verifier::when_used_as_spec(spec_current_buffer)]
    pub fn current_buffer(&self) -> (buffer: BufferState)
        ensures
            buffer == self.spec_current_buffer(),
            buffer == BufferState::Low,
    {
        proof {
            use_type_invariant(self);
        }
        self.current_buffer
    }

    /// The number of bytes written: none.
    #[verifier::when_used_as_spec(spec_total_written)]
    pub fn total_written(&self) -> (total: usize)
        ensures
            total == self.spec_total_written(),
            total == 0,
    {
        proof {
            use_type_invariant(self);
        }
        self.total_written
    }

    /// Starts the execution of the payload on the connected device. This
    /// consumes the handle.
    pub fn execute(self, payload: &Payload) -> (execution: Execution)
        ensures
            execution@.wf(),
            execution@ == ExecutionView::start(payload@),
            payload@.len() <= MAX_LENGTH,
    {
        proof {
            use_type_invariant(&self);
        }
        let copy = payload.clone();
        let data = copy.data();
        proof {
            lemma_toggle_parity(BufferState::Low, 0);
        }
        Execution {
            payload: copy,
            stage: Stage::Claimed,
            current_buffer: self.current_buffer,
            packets: 0,
            sent: 0,
            total_written: self.total_written,
        }
    }
}

/// A payload on its way into the device.
#[derive(Debug)]
pub struct Execution {
    payload: Payload,
    stage: Stage,
    current_buffer: BufferState,
    packets: usize,
    sent: usize,
    total_written: usize,
}

impl View for Execution {
    type V = ExecutionView;

    closed spec fn view(&self) -> ExecutionView {
        ExecutionView {
            image: self.payload@,
            stage: self.stage,
            buffer: self.current_buffer,
            packets: self.packets as nat,
            sent: self.sent as nat,
            total_written: self.total_written as nat,
        }
    }
}

impl Execution {
    #[verifier::type_invariant]
    spec fn well_formed(self) -> bool {
        self@.wf()
    }

    /// How far the execution has come.
    pub fn stage(&self) -> (stage: Stage)
        ensures
            stage == self@.stage,
    {
        self.stage
    }

    /// The state of the toggle between the copy buffers: low after an even
    /// number of packets and high after an odd number.
    pub fn current_buffer(&self) -> (buffer: BufferState)
        ensures
            buffer == self@.buffer,
            buffer == BufferState::Low.toggled(self@.packets),
            buffer == (if self@.packets % 2 == 1 {
                BufferState::High
            } else {
                BufferState::Low
            }),
    {
        proof {
            use_type_invariant(self);
            lemma_toggle_parity(BufferState::Low, self@.packets);
        }
        self.current_buffer
    }

    /// The number of bytes that the device took so far, as the transfers
    /// reported.
    pub fn total_written(&self) -> (total: usize)
        ensures
            total == self@.total_written,
    {
        self.total_written
    }

    /// Whether nothing is left to do.
    pub fn is_finished(&self) -> (finished: bool)
        ensures
            finished == (self@.stage == Stage::Triggered),
    {
        match self.stage {
            Stage::Triggered => true,
            _ => false,
        }
    }

    /// The transfer that is due.
    pub fn request(&self) -> (request: Request)
        ensures
            self@.wf(),
            request == self@.request(),
            request matches Request::WritePayload { endpoint, start, end } ==> start < end
                <= self@.image.len() && end - start <= PACKET_SIZE,
            request matches Request::Trigger { request_type, request, length } ==> length
                == STACK_END - BufferState::High.spec_address(),
    {
        proof {
            use_type_invariant(self);
            lemma_is_image_length(self.payload@);
            lemma_toggle_parity(BufferState::Low, self@.packets);
        }
        let length = self.payload.data().len();
        match self.stage {
            Stage::Claimed => Request::ReadDeviceId {
                endpoint: ENDPOINT_IN,
                length: DEVICE_ID_LENGTH,
            },
            Stage::IdRead => {
                if self.sent < length {
                    let end = if length - self.sent >= PACKET_SIZE {
                        self.sent + PACKET_SIZE
                    } else {
                        length
                    };
                    Request::WritePayload { endpoint: ENDPOINT_OUT, start: self.sent, end }
                } else {
                    Request::WriteZeros { endpoint: ENDPOINT_OUT, length: PACKET_SIZE }
                }
            },
            Stage::Staged => Request::Trigger {
                request_type: TRIGGER_REQUEST_TYPE,
                request: GET_STATUS,
                length: STACK_END - self.current_buffer.address(),
            },
            Stage::Triggered => Request::Finished,
        }
    }

    /// Takes the outcome of the transfer that was due: the number of bytes
    /// transferred, or the failure.
    ///
    /// A failure to read the device ID or to write a packet ends the
    /// execution with that failure. The last transfer is the other way
    /// round: it has to run out of time. Whatever else it comes to, a
    /// number of bytes or another failure, ends the execution with
    /// `ExpectedError`.
    pub fn respond(self, transfer: Result<usize, TransferError>) -> (result: Result<
        Execution,
        SwitchError,
    >)
        ensures
            match self@.respond(transfer) {
                Ok(next) => result matches Ok(execution) && execution@ == next && next.wf(),
                Err(error) => result == Err::<Execution, SwitchError>(error),
            },
    {
        proof {
            use_type_invariant(&self);
            lemma_is_image_length(self.payload@);
        }
        let length = self.payload.data().len();
        match self.stage {
            Stage::Claimed => match transfer {
                Ok(_) => Ok(
                    Execution {
                        payload: self.payload,
                        stage: Stage::IdRead,
                        current_buffer: self.current_buffer,
                        packets: self.packets,
                        sent: self.sent,
                        total_written: self.total_written,
                    },
                ),
                Err(failure) => Err(failure.error),
            },
            Stage::IdRead => match transfer {
                Ok(written) => {
                    let sent = if self.sent < length {
                        if length - self.sent >= PACKET_SIZE {
                            self.sent + PACKET_SIZE
                        } else {
                            length
                        }
                    } else {
                        self.sent
                    };
                    let mut buffer = self.current_buffer;
                    buffer.toggle();
                    let staged = sent == length && buffer == BufferState::High;
                    proof {
                        lemma_packets(self@, written);
                    }
                    Ok(
                        Execution {
                            payload: self.payload,
                            stage: if staged {
                                Stage::Staged
                            } else {
                                Stage::IdRead
                            },
                            current_buffer: buffer,
                            packets: self.packets + 1,
                            sent,
                            total_written: self.total_written.saturating_add(written),
                        },
                    )
                },
                Err(failure) => Err(failure.error),
            },
            Stage::Staged => match transfer {
                Err(failure) => {
                    if failure.timed_out {
                        Ok(
                            Execution {
                                payload: self.payload,
                                stage: Stage::Triggered,
                                current_buffer: self.current_buffer,
                                packets: self.packets,
                                sent: self.sent,
                                total_written: self.total_written,
                            },
                        )
                    } else {
                        Err(SwitchError::ExpectedError)
                    }
                },
                Ok(_) => Err(SwitchError::ExpectedError),
            },
            Stage::Triggered => Ok(self),
        }
    }
}

/// Writing a packet keeps an execution well formed, and the number of its
/// packets stays within that of the largest payload and one more.
pub proof fn lemma_packets(execution: ExecutionView, written: usize)
    requires
        execution.wf(),
        execution.stage == Stage::IdRead,
    ensures
        execution.after_packet(written).wf(),
        execution.packets <= BUILT_PAYLOAD_MAX_LENGTH / PACKET_SIZE,
{
    lemma_is_image_length(execution.image);
    lemma_toggle_parity(BufferState::Low, execution.packets);
    lemma_toggle_parity(BufferState::Low, execution.packets + 1);
    crate::buffer::lemma_toggle_step(BufferState::Low, execution.packets);
}

/// Whether a transfer ended because its time ran out.
pub open spec fn timed_out(transfer: Result<usize, TransferError>) -> bool {
    transfer matches Err(failure) && failure.timed_out
}

/// The transfer that triggers succeeds by running out of time, and by that
/// alone: whatever else it comes to is reported as `ExpectedError`.
pub proof fn lemma_trigger_semantics(
    execution: ExecutionView,
    transfer: Result<usize, TransferError>,
)
    requires
        execution.stage == Stage::Staged,
    ensures
        timed_out(transfer) ==> execution.respond(transfer) == Ok::<ExecutionView, SwitchError>(
            ExecutionView { stage: Stage::Triggered, ..execution },
        ),
        !timed_out(transfer) ==> execution.respond(transfer) == Err::<ExecutionView, SwitchError>(
            SwitchError::ExpectedError,
        ),
{
}

/// Before the trigger, a transfer that succeeds brings the execution one
/// transfer closer to it, and a transfer that fails ends the execution with
/// its failure.
pub proof fn lemma_step(execution: ExecutionView, transfer: Result<usize, TransferError>)
    requires
        execution.wf(),
        execution.stage == Stage::Claimed || execution.stage == Stage::IdRead,
    ensures
        execution.transfers_before_trigger() >= 1,
        transfer matches Err(failure) ==> execution.respond(transfer) == Err::<
            ExecutionView,
            SwitchError,
        >(failure.error),
        transfer is Ok ==> (execution.respond(transfer) matches Ok(next) && next.wf() && next.image
            == execution.image && next.transfers_before_trigger()
            == execution.transfers_before_trigger() - 1 && next.stage != Stage::Triggered && (
        next.stage == Stage::Staged <==> next.transfers_before_trigger() == 0)),
{
    lemma_is_image_length(execution.image);
    if execution.stage == Stage::IdRead {
        if let Ok(written) = transfer {
            lemma_packets(execution, written);
            lemma_toggle_parity(BufferState::Low, execution.packets + 1);
        }
    }
}

/// An execution whose transfers all succeed up to the one that triggers ends
/// as that one ends: where it ran out of time the payload runs, with all of
/// it written and the toggle between the buffers high; else the execution
/// fails with `ExpectedError`.
pub proof fn lemma_run(execution: ExecutionView, transfers: Seq<Result<usize, TransferError>>)
    requires
        execution.wf(),
        execution.stage != Stage::Triggered,
        transfers.len() == execution.transfers_before_trigger() + 1,
        forall|i: int| 0 <= i < transfers.len() - 1 ==> (#[trigger] transfers[i]) is Ok,
    ensures
        timed_out(transfers.last()) ==> (execution.run(transfers) matches Ok(end) && end.wf()
            && end.stage == Stage::Triggered && end.image == execution.image && end.sent
            == end.image.len() && end.buffer == BufferState::High),
        !timed_out(transfers.last()) ==> execution.run(transfers) == Err::<
            ExecutionView,
            SwitchError,
        >(SwitchError::ExpectedError),
    decreases transfers.len(),
{
    let rest = transfers.drop_first();
    if execution.stage == Stage::Staged {
        assert(transfers.len() == 1);
        assert(transfers.last() == transfers[0]);
        lemma_trigger_semantics(execution, transfers[0]);
        assert(rest.len() == 0);
        if timed_out(transfers[0]) {
            let end = execution.respond(transfers[0])->Ok_0;
            assert(execution.run(transfers) == end.run(rest));
            assert(end.run(rest) == Ok::<ExecutionView, SwitchError>(end));
            lemma_toggle_parity(BufferState::Low, execution.packets);
        }
    } else {
        lemma_step(execution, transfers[0]);
        assert(transfers[0] is Ok);
        let next = execution.respond(transfers[0])->Ok_0;
        assert(rest.last() == transfers.last());
        assert forall|i: int| 0 <= i < rest.len() - 1 implies (#[trigger] rest[i]) is Ok by {
            assert(rest[i] == transfers[i + 1]);
        }
        lemma_run(next, rest);
    }
}

/// An execution ends with the first failure among the transfers that come
/// before the one that triggers.
pub proof fn lemma_run_failure(
    execution: ExecutionView,
    transfers: Seq<Result<usize, TransferError>>,
    at: int,
)
    requires
        execution.wf(),
        0 <= at < transfers.len(),
        at < execution.transfers_before_trigger(),
        forall|i: int| 0 <= i < at ==> (#[trigger] transfers[i]) is Ok,
        transfers[at] is Err,
    ensures
        execution.run(transfers) == Err::<ExecutionView, SwitchError>(
            transfers[at]->Err_0.error,
        ),
    decreases at,
{
    lemma_step(execution, transfers[0]);
    if at > 0 {
        let rest = transfers.drop_first();
        let next = execution.respond(transfers[0])->Ok_0;
        assert forall|i: int| 0 <= i < at - 1 implies (#[trigger] rest[i]) is Ok by {
            assert(rest[i] == transfers[i + 1]);
        }
        assert(rest[at - 1] == transfers[at]);
        lemma_run_failure(next, rest, at - 1);
    }
}

/// A payload is written in as many packets as it has blocks, and in one
/// more where that number is even; the packets are an odd number in all.
pub proof fn lemma_total_packets(image: Seq<u8>)
    requires
        is_image(image),
    ensures
        ExecutionView::start(image).wf(),
        ExecutionView::start(image).total_packets() % 2 == 1,
        ExecutionView::start(image).payload_packets() * PACKET_SIZE == image.len(),
        BufferState::Low.toggled(ExecutionView::start(image).total_packets()) == BufferState::High,
{
    lemma_is_image_length(image);
    lemma_toggle_parity(BufferState::Low, ExecutionView::start(image).total_packets());
}

} // verus!
