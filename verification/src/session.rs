//! The exchange of CMSIS-DAP requests and responses with the host.
//!
//! The session waits for the host, reads a request, has it carried out, and writes the response.
//! [`DapSession`] says what comes next; reading, carrying out and writing are done by its caller.

use vstd::prelude::*;

verus! {

/// The size of the request buffer and of the response buffer, in bytes.
pub const BUFFER_LEN: usize = 1024;

/// The packet size of the bus endpoints, in bytes.
pub const PACKET_SIZE: u16 = 64;

/// The most devices in a JTAG scan chain.
pub const MAX_SCAN_CHAIN_LENGTH: usize = 8;

/// What the session has to do next.
#[derive(Clone, Copy, Debug, PartialEq, Eq, Structural)]
pub enum DapAction {
    /// Wait until the host has enabled the interface.
    WaitConnection,
    /// Read a request into the request buffer.
    ReadRequest,
    /// Carry out the request in the first bytes of the request buffer, this many of them.
    ProcessCommand(usize),
    /// Write the response in the first bytes of the response buffer, this many of them.
    WriteResponse(usize),
}

/// What has come of an action.
#[derive(Clone, Copy, Debug, PartialEq, Eq, Structural)]
pub enum DapEvent {
    /// The host has enabled the interface.
    Connected,
    /// A request of this length was read.
    RequestRead(usize),
    /// No request could be read.
    ReadFailed,
    /// The request was carried out, and the response has this length.
    CommandProcessed(usize),
    /// The response was written.
    ResponseWritten,
    /// The response could not be written.
    WriteFailed,
}

impl DapAction {
    /// Whether an event can come of the action.
    pub open spec fn awaits(self, event: DapEvent) -> bool {
        match event {
            DapEvent::Connected => self is WaitConnection,
            DapEvent::RequestRead(_) => self is ReadRequest,
            DapEvent::ReadFailed => self is ReadRequest,
            DapEvent::CommandProcessed(_) => self is ProcessCommand,
            DapEvent::ResponseWritten => self is WriteResponse,
            DapEvent::WriteFailed => self is WriteResponse,
        }
    }

    /// The lengths in the action fit the buffers.
    pub open spec fn fits(self) -> bool {
        match self {
            DapAction::ProcessCommand(len) => len <= BUFFER_LEN,
            DapAction::WriteResponse(len) => len <= BUFFER_LEN,
            _ => true,
        }
    }

    /// The action that follows. An event that does not come of the action leaves it to be done
    /// again.
    pub open spec fn after(self, event: DapEvent) -> DapAction {
        if !self.awaits(event) {
            self
        } else {
            match event {
                DapEvent::Connected => DapAction::ReadRequest,
                DapEvent::RequestRead(req_len) => DapAction::ProcessCommand(req_len),
                DapEvent::ReadFailed => DapAction::WaitConnection,
                DapEvent::CommandProcessed(resp_len) => DapAction::WriteResponse(resp_len),
                DapEvent::ResponseWritten => DapAction::WaitConnection,
                DapEvent::WriteFailed => DapAction::WaitConnection,
            }
        }
    }

    /// The action that follows a sequence of events.
    pub open spec fn after_events(self, events: Seq<DapEvent>) -> DapAction
        decreases events.len(),
    {
        if events.len() == 0 {
            self
        } else {
            self.after_events(events.drop_last()).after(events.last())
        }
    }

    /// Whether every event of a sequence comes of the action that it finds.
    pub open spec fn awaits_all(self, events: Seq<DapEvent>) -> bool
        decreases events.len(),
    {
        events.len() > 0 ==> {
            &&& self.awaits_all(events.drop_last())
            &&& self.after_events(events.drop_last()).awaits(events.last())
        }
    }

    /// The number of requests that were read and for which no response has been tried yet.
    pub open spec fn outstanding(self) -> nat {
        if self is ProcessCommand || self is WriteResponse {
            1
        } else {
            0
        }
    }
}

impl DapEvent {
    /// The length in the event fits the buffer that it speaks of.
    pub open spec fn fits(self) -> bool {
        match self {
            DapEvent::RequestRead(req_len) => req_len <= BUFFER_LEN,
            DapEvent::CommandProcessed(resp_len) => resp_len <= BUFFER_LEN,
            _ => true,
        }
    }
}

/// The number of requests that were read in a sequence of events.
pub open spec fn requests_read(events: Seq<DapEvent>) -> nat
    decreases events.len(),
{
    if events.len() == 0 {
        0
    } else {
        requests_read(events.drop_last()) + if events.last() is RequestRead {
            1nat
        } else {
            0nat
        }
    }
}

/// The number of responses of which the writing was tried in a sequence of events.
pub open spec fn responses_tried(events: Seq<DapEvent>) -> nat
    decreases events.len(),
{
    if events.len() == 0 {
        0
    } else {
        responses_tried(events.drop_last()) + if events.last() is ResponseWritten
            || events.last() is WriteFailed {
            1nat
        } else {
            0nat
        }
    }
}

/// A session with the host.
#[derive(Debug)]
pub struct DapSession {
    action: DapAction,
}

impl View for DapSession {
    type V = DapAction;

    closed spec fn view(&self) -> DapAction {
        self.action
    }
}

impl DapSession {
    /// The lengths that the session holds fit the buffers.
    pub open spec fn wf(self) -> bool {
        self@.fits()
    }

    /// Starts a session. It begins by waiting for the host.
    pub fn new() -> (session: DapSession)
        ensures
            session.wf(),
            session@ == DapAction::WaitConnection,
    {
        DapSession { action: DapAction::WaitConnection }
    }

    /// What to do next.
    pub fn action(&self) -> (action: DapAction)
        ensures
            action == self@,
    {
        self.action
    }

    /// Takes in what has come of the last action and says what to do next. After a failure to
    /// read or to write, the session goes back to waiting for the host.
    pub fn step(&mut self, event: DapEvent) -> (action: DapAction)
        requires
            old(self).wf(),
            event.fits(),
        ensures
            final(self).wf(),
            final(self)@ == old(self)@.after(event),
            action == final(self)@,
    {
        self.action = match (self.action, event) {
            (DapAction::WaitConnection, DapEvent::Connected) => DapAction::ReadRequest,
            (DapAction::ReadRequest, DapEvent::RequestRead(req_len)) => DapAction::ProcessCommand(
                req_len,
            ),
            (DapAction::ReadRequest, DapEvent::ReadFailed) => DapAction::WaitConnection,
            (
                DapAction::ProcessCommand(_),
                DapEvent::CommandProcessed(resp_len),
            ) => DapAction::WriteResponse(resp_len),
            (DapAction::WriteResponse(_), DapEvent::ResponseWritten) => DapAction::WaitConnection,
            (DapAction::WriteResponse(_), DapEvent::WriteFailed) => DapAction::WaitConnection,
            (action, _) => action,
        };
        self.action
    }
}

/// Every request is answered once: in any run of a session the requests read are as many as the
/// responses tried, but for the one that is being worked on.
pub proof fn every_request_is_answered_once(events: Seq<DapEvent>)
    requires
        DapAction::WaitConnection.awaits_all(events),
    ensures
        requests_read(events) == responses_tried(events) + DapAction::WaitConnection.after_events(
            events,
        ).outstanding(),
    decreases events.len(),
{
    if events.len() > 0 {
        every_request_is_answered_once(events.drop_last());
    }
}

/// A response is written only for a request that was carried out just before, with the length
/// that carrying it out gave, and a request is carried out only when it was read just before,
/// with the length that was read.
pub proof fn responses_follow_requests(action: DapAction, event: DapEvent, len: usize)
    requires
        action.awaits(event),
    ensures
        action.after(event) == DapAction::WriteResponse(len) <==> action is ProcessCommand && event
            == DapEvent::CommandProcessed(len),
        action.after(event) == DapAction::ProcessCommand(len) <==> action is ReadRequest && event
            == DapEvent::RequestRead(len),
{
}

/// After a failure to read or to write, and after a response, the session waits for the host with
/// no request outstanding.
pub proof fn session_returns_to_waiting(action: DapAction, event: DapEvent)
    requires
        action.awaits(event),
        event is ReadFailed || event is WriteFailed || event is ResponseWritten,
    ensures
        action.after(event) == DapAction::WaitConnection,
        action.after(event).outstanding() == 0,
{
}

/// The session moves on with whatever comes of its action: once the host is there it reads; every
/// request read is carried out, whatever its length; every result is written as the response,
/// whatever its length; and after the writing, or a failure to read, it waits for the host.
pub proof fn session_moves_on(req_len: usize, resp_len: usize, action_len: usize)
    ensures
        DapAction::WaitConnection.after(DapEvent::Connected) == DapAction::ReadRequest,
        DapAction::ReadRequest.after(DapEvent::RequestRead(req_len)) == DapAction::ProcessCommand(
            req_len,
        ),
        DapAction::ReadRequest.after(DapEvent::ReadFailed) == DapAction::WaitConnection,
        DapAction::ProcessCommand(action_len).after(DapEvent::CommandProcessed(resp_len))
            == DapAction::WriteResponse(resp_len),
        DapAction::WriteResponse(action_len).after(DapEvent::ResponseWritten)
            == DapAction::WaitConnection,
        DapAction::WriteResponse(action_len).after(DapEvent::WriteFailed)
            == DapAction::WaitConnection,
{
}

/// An event that is not of the session's action changes nothing: a request is taken in only while
/// the session reads, a result only while a request is carried out, the end of the writing only
/// while a response is written, and the host's arrival only while it is waited for.
pub proof fn session_ignores_other_events(action: DapAction, len: usize)
    ensures
        !(action is WaitConnection) ==> action.after(DapEvent::Connected) == action,
        !(action is ReadRequest) ==> action.after(DapEvent::RequestRead(len)) == action,
        !(action is ReadRequest) ==> action.after(DapEvent::ReadFailed) == action,
        !(action is ProcessCommand) ==> action.after(DapEvent::CommandProcessed(len)) == action,
        !(action is WriteResponse) ==> action.after(DapEvent::ResponseWritten) == action,
        !(action is WriteResponse) ==> action.after(DapEvent::WriteFailed) == action,
{
}

/// A session that waits for the host carries out the request that it then reads, writes the
/// response, and waits again, for requests and responses of every length.
pub proof fn request_is_carried_out_and_answered(req_len: usize, resp_len: usize, written: bool)
    ensures
        ({
            let waiting = DapAction::WaitConnection;
            let events = seq![
                DapEvent::Connected,
                DapEvent::RequestRead(req_len),
                DapEvent::CommandProcessed(resp_len),
                if written {
                    DapEvent::ResponseWritten
                } else {
                    DapEvent::WriteFailed
                },
            ];
            &&& waiting.after_events(events.take(2)) == DapAction::ProcessCommand(req_len)
            &&& waiting.after_events(events.take(3)) == DapAction::WriteResponse(resp_len)
            &&& waiting.after_events(events) == waiting
            &&& waiting.awaits_all(events)
        }),
{
    let waiting = DapAction::WaitConnection;
    let events = seq![
        DapEvent::Connected,
        DapEvent::RequestRead(req_len),
        DapEvent::CommandProcessed(resp_len),
        if written {
            DapEvent::ResponseWritten
        } else {
            DapEvent::WriteFailed
        },
    ];
    assert(events.take(1).drop_last() =~= Seq::<DapEvent>::empty());
    assert(events.take(2).drop_last() =~= events.take(1));
    assert(events.take(3).drop_last() =~= events.take(2));
    assert(events.drop_last() =~= events.take(3));
    assert(waiting.after_events(Seq::<DapEvent>::empty()) == waiting);
    assert(waiting.awaits_all(Seq::<DapEvent>::empty()));
    assert(waiting.after_events(events.take(1)) == DapAction::ReadRequest);
    assert(waiting.awaits_all(events.take(1)));
    assert(waiting.after_events(events.take(2)) == DapAction::ProcessCommand(req_len));
    assert(waiting.awaits_all(events.take(2)));
    assert(waiting.after_events(events.take(3)) == DapAction::WriteResponse(resp_len));
    assert(waiting.awaits_all(events.take(3)));
}

/// A request or a response fits exactly if it is no longer than the buffer of 1024 bytes, which
/// holds a whole number of packets, and nothing else is asked of an event or an action.
pub proof fn lengths_up_to_the_buffer_fit(event: DapEvent, action: DapAction, len: usize)
    ensures
        event == DapEvent::RequestRead(len) ==> event.fits() == (len <= 1024),
        event == DapEvent::CommandProcessed(len) ==> event.fits() == (len <= 1024),
        !(event is RequestRead) && !(event is CommandProcessed) ==> event.fits(),
        action == DapAction::ProcessCommand(len) ==> action.fits() == (len <= 1024),
        action == DapAction::WriteResponse(len) ==> action.fits() == (len <= 1024),
        action is WaitConnection || action is ReadRequest ==> action.fits(),
        PACKET_SIZE == 64 && BUFFER_LEN == 16 * PACKET_SIZE,
        MAX_SCAN_CHAIN_LENGTH == 8,
{
}

} // verus!
