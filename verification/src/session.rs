//! Adapter session state machine.
//!
//! The session sequences the command and data packets over an injected
//! transport and holds the adapter-visible error counters. The transport
//! itself — the OS serial port with its blocking reads and writes — is an
//! external collaborator: every method here is a pure decision step that
//! hands the caller the bytes to write, or consumes the bytes the caller
//! read, and moves the state machine `Closed -> Configuring -> Ready ->
//! Closed`. The caller performs the I/O between steps.
use vstd::prelude::*;
use crate::codec::encode;
use crate::codec::spec_encode;
use crate::config::Baudrate;
use crate::config::ConfigCommand;
use crate::config::OperationMode;
use crate::config::config_bytes;
use crate::frame::Frame;
use crate::status::StatusCommand;
use crate::status::StatusResponse;
use crate::status::parse_status_response;
use crate::status::status_bytes;
use crate::status::status_response_well_formed;

verus! {

/// Where a session stands in its lifecycle.
#[derive(Debug, PartialEq, Eq, Structural, Clone, Copy)]
pub enum SessionState {
    /// No transport is attached; nothing may be sent.
    Closed,
    /// The configuration packet is on its way to the adapter.
    Configuring,
    /// The adapter is configured; data and status packets may flow.
    Ready,
}

/// Why a session operation failed.
#[derive(Debug, PartialEq, Eq, Structural, Clone, Copy)]
pub enum SessionError {
    /// The underlying transport could not be opened or configured.
    TransportUnavailable,
    /// A status response did not arrive or did not parse.
    StatusUnavailable,
    /// The operation is not legal in the session's current state.
    InvalidState,
}

/// One adapter session: the lifecycle state and the two adapter-reported
/// error counters, updated only by a parsed status response.
pub struct AdapterSession {
    state: SessionState,
    rx_error_count: u8,
    tx_error_count: u8,
}

impl AdapterSession {
    /// The session's lifecycle state.
    pub closed spec fn spec_state(self) -> SessionState {
        self.state
    }

    /// The adapter-reported receive error counter.
    pub closed spec fn spec_rx_errors(self) -> u8 {
        self.rx_error_count
    }

    /// The adapter-reported transmit error counter.
    pub closed spec fn spec_tx_errors(self) -> u8 {
        self.tx_error_count
    }

    /// A fresh session: closed, with both counters at zero.
    pub fn new() -> (r: AdapterSession)
        ensures
            r.spec_state() == SessionState::Closed,
            r.spec_rx_errors() == 0,
            r.spec_tx_errors() == 0,
    {
        AdapterSession {
            state: SessionState::Closed,
            rx_error_count: 0,
            tx_error_count: 0,
        }
    }

    /// The session's lifecycle state.
    pub fn state(&self) -> (r: SessionState)
        ensures
            r == self.spec_state(),
    {
        self.state
    }

    /// The receive error counter, as last reported by the adapter.
    pub fn rx_error_count(&self) -> (r: u8)
        ensures
            r == self.spec_rx_errors(),
    {
        self.rx_error_count
    }

    /// The transmit error counter, as last reported by the adapter.
    pub fn tx_error_count(&self) -> (r: u8)
        ensures
            r == self.spec_tx_errors(),
    {
        self.tx_error_count
    }

    /// Begins opening the session. Legal only while closed: the session
    /// moves to `Configuring` and the caller receives the configuration
    /// packet to write to the freshly opened transport. In any other state
    /// nothing changes and the call fails.
    pub fn open_request(&mut self, baud: Baudrate, mode: OperationMode) -> (r: Result<
        Vec<u8>,
        SessionError,
    >)
        ensures
            old(self).spec_state() == SessionState::Closed <==> r is Ok,
            r matches Ok(packet) ==> {
                &&& packet@ == config_bytes(baud, mode)
                &&& final(self).spec_state() == SessionState::Configuring
            },
            r is Err ==> r == Err::<Vec<u8>, SessionError>(SessionError::InvalidState)
                && final(self).spec_state() == old(self).spec_state(),
            final(self).spec_rx_errors() == old(self).spec_rx_errors(),
            final(self).spec_tx_errors() == old(self).spec_tx_errors(),
    {
        match self.state {
            SessionState::Closed => {
                self.state = SessionState::Configuring;
                let command = ConfigCommand::new(baud, mode);
                Ok(command.encode())
            },
            _ => Err(SessionError::InvalidState),
        }
    }

    /// Finishes opening: the caller reports whether the configuration
    /// write succeeded. Legal only while configuring: on success the
    /// session becomes `Ready`; on failure it falls back to `Closed` and
    /// the caller is told the transport is unavailable.
    pub fn open_result(&mut self, write_ok: bool) -> (r: Result<(), SessionError>)
        ensures
            old(self).spec_state() == SessionState::Configuring && write_ok ==> r is Ok
                && final(self).spec_state() == SessionState::Ready,
            old(self).spec_state() == SessionState::Configuring && !write_ok ==> r == Err::<
                (),
                SessionError,
            >(SessionError::TransportUnavailable) && final(self).spec_state()
                == SessionState::Closed,
            old(self).spec_state() != SessionState::Configuring ==> r == Err::<(), SessionError>(
                SessionError::InvalidState,
            ) && final(self).spec_state() == old(self).spec_state(),
            final(self).spec_rx_errors() == old(self).spec_rx_errors(),
            final(self).spec_tx_errors() == old(self).spec_tx_errors(),
    {
        match self.state {
            SessionState::Configuring => {
                if write_ok {
                    self.state = SessionState::Ready;
                    Ok(())
                } else {
                    self.state = SessionState::Closed;
                    Err(SessionError::TransportUnavailable)
                }
            },
            _ => Err(SessionError::InvalidState),
        }
    }

    /// Encodes one frame for transmission. Legal only while ready — in
    /// particular, a closed session refuses rather than silently writing.
    /// The caller writes the returned bytes to the transport.
    pub fn send(&self, frame: &Frame) -> (r: Result<Vec<u8>, SessionError>)
        requires
            frame.wf(),
        ensures
            self.spec_state() == SessionState::Ready <==> r is Ok,
            r matches Ok(packet) ==> packet@ == spec_encode(*frame),
            r is Err ==> r == Err::<Vec<u8>, SessionError>(SessionError::InvalidState),
    {
        match self.state {
            SessionState::Ready => Ok(encode(frame)),
            _ => Err(SessionError::InvalidState),
        }
    }

    /// Builds the status query for the caller to write. Legal only while
    /// ready.
    pub fn poll_status_request(&self) -> (r: Result<Vec<u8>, SessionError>)
        ensures
            self.spec_state() == SessionState::Ready <==> r is Ok,
            r matches Ok(packet) ==> packet@ == status_bytes(),
            r is Err ==> r == Err::<Vec<u8>, SessionError>(SessionError::InvalidState),
    {
        match self.state {
            SessionState::Ready => {
                let command = StatusCommand::new();
                Ok(command.encode())
            },
            _ => Err(SessionError::InvalidState),
        }
    }

    /// Consumes the bytes the caller read back after a status query. Legal
    /// only while ready. A well-formed response updates both error
    /// counters to the adapter-reported values; a short or corrupted one
    /// leaves them untouched and yields `StatusUnavailable`, which is not
    /// fatal: the session stays ready.
    pub fn poll_status_response(&mut self, bytes: &[u8]) -> (r: Result<
        StatusResponse,
        SessionError,
    >)
        ensures
            final(self).spec_state() == old(self).spec_state(),
            old(self).spec_state() != SessionState::Ready ==> r == Err::<
                StatusResponse,
                SessionError,
            >(SessionError::InvalidState) && final(self).spec_rx_errors()
                == old(self).spec_rx_errors() && final(self).spec_tx_errors()
                == old(self).spec_tx_errors(),
            old(self).spec_state() == SessionState::Ready ==> (r is Ok
                <==> status_response_well_formed(bytes@)),
            old(self).spec_state() == SessionState::Ready && !status_response_well_formed(bytes@)
                ==> r == Err::<StatusResponse, SessionError>(SessionError::StatusUnavailable)
                && final(self).spec_rx_errors() == old(self).spec_rx_errors()
                && final(self).spec_tx_errors() == old(self).spec_tx_errors(),
            r matches Ok(s) ==> {
                &&& s.status_flags == bytes@[3]
                &&& s.rx_errors == bytes@[4]
                &&& s.tx_errors == bytes@[5]
                &&& final(self).spec_rx_errors() == s.rx_errors
                &&& final(self).spec_tx_errors() == s.tx_errors
            },
    {
        match self.state {
            SessionState::Ready => {
                match parse_status_response(bytes) {
                    Some(response) => {
                        self.rx_error_count = response.rx_errors;
                        self.tx_error_count = response.tx_errors;
                        Ok(response)
                    },
                    None => Err(SessionError::StatusUnavailable),
                }
            },
            _ => Err(SessionError::InvalidState),
        }
    }

    /// Closes the session. Idempotent: the state is `Closed` afterwards
    /// whatever it was before; the counters keep their last reported
    /// values.
    pub fn close(&mut self)
        ensures
            final(self).spec_state() == SessionState::Closed,
            final(self).spec_rx_errors() == old(self).spec_rx_errors(),
            final(self).spec_tx_errors() == old(self).spec_tx_errors(),
    {
        self.state = SessionState::Closed;
    }
}

} // verus!
