use vstd::prelude::*;

verus! {

/// A message of the logout handshake. On the wire each message is one byte.
#[derive(Clone, Copy, Debug, PartialEq, Eq, Structural)]
pub enum IpcRequest {
    Logout,
    Ack,
}

/// Why a read from a handshake socket is not a message.
#[derive(Clone, Copy, Debug, PartialEq, Eq, Structural)]
pub enum ProtocolError {
    /// One byte arrived, but it encodes no message.
    UnknownByte(u8),
    /// The read gave zero bytes or more than one.
    InvalidLength(usize),
}

/// The byte that encodes a message.
pub open spec fn encode_spec(msg: IpcRequest) -> u8 {
    match msg {
        IpcRequest::Logout => 0,
        IpcRequest::Ack => 1,
    }
}

/// The message that a byte encodes, if any.
pub open spec fn decode_spec(b: u8) -> Option<IpcRequest> {
    if b == 0 {
        Some(IpcRequest::Logout)
    } else if b == 1 {
        Some(IpcRequest::Ack)
    } else {
        None
    }
}

/// What a read of `bytes` amounts to: a message only when exactly one byte
/// arrived and that byte encodes one.
pub open spec fn read_spec(bytes: Seq<u8>) -> Result<IpcRequest, ProtocolError> {
    if bytes.len() != 1 {
        Err(ProtocolError::InvalidLength(bytes.len() as usize))
    } else {
        match decode_spec(bytes[0]) {
            Some(m) => Ok(m),
            None => Err(ProtocolError::UnknownByte(bytes[0])),
        }
    }
}

impl From<IpcRequest> for u8 {
    fn from(msg: IpcRequest) -> (r: u8)
        ensures
            r == encode_spec(msg),
    {
        match msg {
            IpcRequest::Logout => 0,
            IpcRequest::Ack => 1,
        }
    }
}

impl vstd::std_specs::convert::FromSpecImpl<IpcRequest> for u8 {
    open spec fn obeys_from_spec() -> bool {
        true
    }

    open spec fn from_spec(msg: IpcRequest) -> u8 {
        encode_spec(msg)
    }
}

impl IpcRequest {
    /// Decodes one byte: 0 is `Logout`, 1 is `Ack`, every other byte is refused.
    pub fn try_from(num: u8) -> (r: Result<IpcRequest, ProtocolError>)
        ensures
            decode_spec(num) matches Some(m) ==> r == Ok::<IpcRequest, ProtocolError>(m),
            decode_spec(num) is None ==> r == Err::<IpcRequest, ProtocolError>(
                ProtocolError::UnknownByte(num),
            ),
    {
        match num {
            0 => Ok(IpcRequest::Logout),
            1 => Ok(IpcRequest::Ack),
            _ => Err(ProtocolError::UnknownByte(num)),
        }
    }
}

/// Interprets the bytes that one read from a handshake socket gave.
pub fn read_message(bytes: &[u8]) -> (r: Result<IpcRequest, ProtocolError>)
    ensures
        r == read_spec(bytes@),
{
    if bytes.len() != 1 {
        Err(ProtocolError::InvalidLength(bytes.len()))
    } else {
        IpcRequest::try_from(bytes[0])
    }
}

/// Decoding the encoding of a message gives the message back, and no byte
/// other than the two encodings decodes to a message.
pub proof fn lemma_round_trip(msg: IpcRequest, b: u8)
    ensures
        decode_spec(encode_spec(msg)) == Some(msg),
        read_spec(seq![encode_spec(msg)]) == Ok::<IpcRequest, ProtocolError>(msg),
        b != 0 && b != 1 ==> read_spec(seq![b]) == Err::<IpcRequest, ProtocolError>(
            ProtocolError::UnknownByte(b),
        ),
{
}

/// What the accept loop obtained from one incoming connection.
#[derive(Clone, Debug)]
pub enum Delivery {
    /// The connection was accepted and one read gave these bytes.
    Received(Vec<u8>),
    /// The connection was accepted but reading from it failed.
    ReadFailed,
    /// Accepting the connection failed.
    AcceptFailed,
}

/// What the accept loop does after a connection has been handled.
#[derive(Clone, Copy, Debug, PartialEq, Eq, Structural)]
pub enum LoopControl {
    Continue,
    Stop,
}

/// The message that a delivery hands to the handler: only a read of exactly
/// one valid byte does; everything else is logged and dropped.
pub open spec fn delivered_spec(d: Delivery) -> Option<IpcRequest> {
    match d {
        Delivery::Received(bytes) => match read_spec(bytes@) {
            Ok(m) => Some(m),
            Err(_) => None,
        },
        _ => None,
    }
}

/// The supervisor's handler: `Logout` is acknowledged and stops the loop,
/// anything else lets it go on.
pub open spec fn logout_handler_spec(req: IpcRequest) -> LoopControl {
    match req {
        IpcRequest::Logout => LoopControl::Stop,
        IpcRequest::Ack => LoopControl::Continue,
    }
}

/// Whether the supervisor's accept loop stops on this delivery.
pub open spec fn stops_on(d: Delivery) -> bool {
    delivered_spec(d) == Some(IpcRequest::Logout)
}

/// The position at which the supervisor's accept loop, fed these
/// deliveries in order, stops; `None` when it is still running after them.
pub open spec fn stop_index(ds: Seq<Delivery>) -> Option<int>
    decreases ds.len(),
{
    if ds.len() == 0 {
        None
    } else if stops_on(ds[0]) {
        Some(0)
    } else {
        match stop_index(ds.drop_first()) {
            Some(i) => Some(i + 1),
            None => None,
        }
    }
}

/// The message, if any, that one connection of the accept loop delivers.
pub fn accept_request(d: &Delivery) -> (r: Option<IpcRequest>)
    ensures
        r == delivered_spec(*d),
{
    match d {
        Delivery::Received(bytes) => match read_message(bytes.as_slice()) {
            Ok(m) => Some(m),
            Err(_) => None,
        },
        _ => None,
    }
}

/// Decides what the supervisor's accept loop does with a request. On `Stop`
/// the caller replies `Ack` on the outbox before leaving the loop.
pub fn logout_handler(req: IpcRequest) -> (r: LoopControl)
    ensures
        r == logout_handler_spec(req),
{
    match req {
        IpcRequest::Logout => LoopControl::Stop,
        IpcRequest::Ack => LoopControl::Continue,
    }
}

/// One turn of the supervisor's accept loop: malformed reads, failed reads
/// and failed accepts never stop it; a well-formed `Logout` does.
pub fn block_handle_step(d: &Delivery) -> (r: LoopControl)
    ensures
        r == LoopControl::Stop <==> stops_on(*d),
{
    match accept_request(d) {
        Some(req) => logout_handler(req),
        None => LoopControl::Continue,
    }
}

/// The accept loop stops at the first `Logout` that arrives, and at no
/// delivery before it, whatever malformed or other messages precede it.
pub proof fn lemma_loop_stops_exactly_at_logout(ds: Seq<Delivery>, i: int)
    ensures
        stop_index(ds) == Some(i) <==> (0 <= i < ds.len() && stops_on(ds[i]) && forall|j: int|
            0 <= j < i ==> !stops_on(#[trigger] ds[j])),
        stop_index(ds) is None <==> forall|j: int| 0 <= j < ds.len() ==> !stops_on(#[trigger] ds[j]),
    decreases ds.len(),
{
    if ds.len() > 0 {
        let rest = ds.drop_first();
        lemma_loop_stops_exactly_at_logout(rest, i - 1);
        assert forall|j: int| 0 < j < ds.len() implies ds[j] == rest[j - 1] by {}
        if !stops_on(ds[0]) {
            if stop_index(rest) is None {
                assert forall|j: int| 0 <= j < ds.len() implies !stops_on(#[trigger] ds[j]) by {
                    if j > 0 {
                        assert(!stops_on(rest[j - 1]));
                    }
                }
            }
            if (forall|j: int| 0 <= j < ds.len() ==> !stops_on(#[trigger] ds[j])) {
                assert forall|j: int| 0 <= j < rest.len() implies !stops_on(#[trigger] rest[j]) by {
                    assert(!stops_on(ds[j + 1]));
                }
            }
            if 0 <= i < ds.len() && stops_on(ds[i]) && (forall|j: int|
                0 <= j < i ==> !stops_on(#[trigger] ds[j])) {
                assert forall|j: int| 0 <= j < i - 1 implies !stops_on(#[trigger] rest[j]) by {
                    assert(!stops_on(ds[j + 1]));
                }
            }
            if stop_index(ds) == Some(i) {
                assert forall|j: int| 0 <= j < i implies !stops_on(#[trigger] ds[j]) by {
                    if j > 0 {
                        assert(!stops_on(rest[j - 1]));
                    }
                }
            }
        } else {
            assert(!(forall|j: int| 0 <= j < ds.len() ==> !stops_on(#[trigger] ds[j])));
        }
    }
}

/// Why a logout request failed.
#[derive(Clone, Debug, PartialEq, Eq)]
pub enum LogoutError {
    /// Binding the outbox or reaching the inbox was refused for lack of privilege.
    PermissionDenied,
    /// No acknowledgement arrived within the wait.
    TimedOut,
    /// The reply was one byte, but not the encoding of `Ack`.
    UnexpectedReply(u8),
    /// The reply was zero bytes or more than one.
    InvalidReplyLength(usize),
    /// Any other failure, with its detail.
    Io(String),
}

/// Checks the reply that a logout request read from its outbox: only the
/// single byte of `Ack` is success.
pub fn check_logout_reply(bytes: &[u8]) -> (r: Result<(), LogoutError>)
    ensures
        r is Ok <==> read_spec(bytes@) == Ok::<IpcRequest, ProtocolError>(IpcRequest::Ack),
        bytes@.len() != 1 ==> r == Err::<(), LogoutError>(
            LogoutError::InvalidReplyLength(bytes@.len() as usize),
        ),
        bytes@.len() == 1 && bytes@[0] != 1 ==> r == Err::<(), LogoutError>(
            LogoutError::UnexpectedReply(bytes@[0]),
        ),
{
    match read_message(bytes) {
        Ok(IpcRequest::Ack) => Ok(()),
        Ok(IpcRequest::Logout) => Err(LogoutError::UnexpectedReply(bytes[0])),
        Err(ProtocolError::UnknownByte(b)) => Err(LogoutError::UnexpectedReply(b)),
        Err(ProtocolError::InvalidLength(n)) => Err(LogoutError::InvalidReplyLength(n)),
    }
}

} // verus!
