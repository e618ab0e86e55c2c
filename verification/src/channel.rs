//! One command/response exchange: a bounded write, then a bounded read, each
//! attempted once, and the classification of what the transport reported.

use vstd::prelude::*;
use crate::command::{Command, FRAME_LEN, IDENTIFY_REPLY_MAX};
use crate::transport::{received, Fault, Link, Operation, Target, Transport};

verus! {

/// Time bound of a frame write, in milliseconds.
pub const WRITE_TIMEOUT_MS: u64 = 20;

/// Time bound of a frame read, in milliseconds.
pub const READ_TIMEOUT_MS: u64 = 100;

/// Time bound of every operation on the serial line, in milliseconds.
pub const SERIAL_TIMEOUT_MS: u64 = 1000;

/// Why an exchange failed.
#[derive(Clone, Copy, Debug, PartialEq, Eq, Structural)]
pub enum ChannelError {
    /// The transport took fewer bytes than the command has.
    ShortWrite { written: usize, requested: usize },
    /// The write did not complete within its time bound.
    WriteTimeout,
    /// The write failed at the transport.
    WriteError,
    /// The transport returned fewer bytes than the response must have.
    ShortRead { received: usize, expected: usize },
    /// The read did not complete within its time bound.
    ReadTimeout,
    /// The read failed at the transport.
    ReadError,
}

/// How long a response may be.
#[derive(Clone, Copy, Debug, PartialEq, Eq, Structural)]
pub enum ResponseLength {
    /// A fixed frame of exactly this many bytes.
    Exactly(usize),
    /// Free text of at most this many bytes.
    AtMost(usize),
}

impl ResponseLength {
    /// The size of the buffer that a read is given.
    pub open spec fn capacity(self) -> usize {
        match self {
            ResponseLength::Exactly(length) => length,
            ResponseLength::AtMost(length) => length,
        }
    }

    /// The size of the buffer that a read is given.
    pub fn buffer_size(self) -> (size: usize)
        ensures
            size == self.capacity(),
    {
        match self {
            ResponseLength::Exactly(length) => length,
            ResponseLength::AtMost(length) => length,
        }
    }
}

/// One command with the bounds of its exchange.
#[derive(Clone, Debug, PartialEq, Eq)]
pub struct Request {
    /// The bytes to write.
    pub command: Vec<u8>,
    /// Time bound of the write, in milliseconds.
    pub write_timeout_ms: u64,
    /// Time bound of the read, in milliseconds. It is independent of the write's.
    pub read_timeout_ms: u64,
    /// How long the response may be.
    pub response: ResponseLength,
}

/// A request as a mathematical value.
pub struct RequestView {
    pub command: Seq<u8>,
    pub write_timeout_ms: u64,
    pub read_timeout_ms: u64,
    pub response: ResponseLength,
}

impl View for Request {
    type V = RequestView;

    open spec fn view(&self) -> RequestView {
        RequestView {
            command: self.command@,
            write_timeout_ms: self.write_timeout_ms,
            read_timeout_ms: self.read_timeout_ms,
            response: self.response,
        }
    }
}

impl RequestView {
    /// The request that sends `command` with the bounds that belong to it:
    /// 20 ms for the write, 100 ms for the read and a frame in return for
    /// the two frame commands; 1000 ms either way and free text in return
    /// for the identification query.
    pub open spec fn of(command: Command) -> RequestView {
        if command.is_frame() {
            RequestView {
                command: command.wire(),
                write_timeout_ms: WRITE_TIMEOUT_MS,
                read_timeout_ms: READ_TIMEOUT_MS,
                response: ResponseLength::Exactly(FRAME_LEN),
            }
        } else {
            RequestView {
                command: command.wire(),
                write_timeout_ms: SERIAL_TIMEOUT_MS,
                read_timeout_ms: SERIAL_TIMEOUT_MS,
                response: ResponseLength::AtMost(IDENTIFY_REPLY_MAX),
            }
        }
    }

    /// Whether the request is the initialisation probe, whose read is
    /// expected to time out: the device takes that frame and stays silent.
    /// No other command shares this.
    pub open spec fn tolerates_silence(self) -> bool {
        self.command == Command::Init.wire()
    }
}

impl Request {
    /// The request that sends `command` with the bounds that belong to it.
    pub fn for_command(command: Command) -> (request: Request)
        ensures
            request@ == RequestView::of(command),
    {
        match command {
            Command::Identify => Request {
                command: command.encode(),
                write_timeout_ms: SERIAL_TIMEOUT_MS,
                read_timeout_ms: SERIAL_TIMEOUT_MS,
                response: ResponseLength::AtMost(IDENTIFY_REPLY_MAX),
            },
            _ => Request {
                command: command.encode(),
                write_timeout_ms: WRITE_TIMEOUT_MS,
                read_timeout_ms: READ_TIMEOUT_MS,
                response: ResponseLength::Exactly(FRAME_LEN),
            },
        }
    }
}

/// What an exchange yields when it succeeds.
#[derive(Clone, Debug, PartialEq, Eq)]
pub enum Reply {
    /// The bytes that came back.
    Frame(Vec<u8>),
    /// Nothing came back, and nothing was to: the initialisation probe was
    /// met with silence.
    Silence,
}

/// A reply as a mathematical value.
pub enum ReplyView {
    Frame(Seq<u8>),
    Silence,
}

impl View for Reply {
    type V = ReplyView;

    open spec fn view(&self) -> ReplyView {
        match self {
            Reply::Frame(bytes) => ReplyView::Frame(bytes@),
            Reply::Silence => ReplyView::Silence,
        }
    }
}

/// What a transport reports of the two steps of an exchange.
pub struct Reports {
    /// What it reports of the write.
    pub written: Result<usize, Fault>,
    /// What it reports of the read, where one is made.
    pub read: Result<Seq<u8>, Fault>,
}

/// How the write step ends, given what the transport reported of it: `None`
/// where the whole command was written and the read is due, else the error
/// that ends the exchange there.
///
/// A transport that claims to have written more than it was given is at
/// fault.
pub open spec fn write_verdict(requested: nat, outcome: Result<usize, Fault>) -> Option<
    ChannelError,
> {
    match outcome {
        Ok(written) => if written == requested {
            None
        } else if written < requested {
            Some(ChannelError::ShortWrite { written, requested: requested as usize })
        } else {
            Some(ChannelError::WriteError)
        },
        Err(Fault::Timeout) => Some(ChannelError::WriteTimeout),
        Err(Fault::Other) => Some(ChannelError::WriteError),
    }
}

/// How the read step ends, given what the transport reported of it.
///
/// A timeout is a fault, except where silence is the expected answer. A
/// transport that returns more than the buffer holds is at fault.
pub open spec fn read_verdict(request: RequestView, outcome: Result<Seq<u8>, Fault>) -> Result<
    ReplyView,
    ChannelError,
> {
    match outcome {
        Ok(bytes) => if bytes.len() > request.response.capacity() {
            Err(ChannelError::ReadError)
        } else if request.response is Exactly && bytes.len() < request.response.capacity() {
            Err(
                ChannelError::ShortRead {
                    received: bytes.len() as usize,
                    expected: request.response.capacity(),
                },
            )
        } else {
            Ok(ReplyView::Frame(bytes))
        },
        Err(Fault::Timeout) => if request.tolerates_silence() {
            Ok(ReplyView::Silence)
        } else {
            Err(ChannelError::ReadTimeout)
        },
        Err(Fault::Other) => Err(ChannelError::ReadError),
    }
}

/// What a whole exchange yields, given what the transport reports. The
/// report of the read counts only after a complete write.
pub open spec fn exchange_verdict(request: RequestView, reports: Reports) -> Result<
    ReplyView,
    ChannelError,
> {
    match write_verdict(request.command.len(), reports.written) {
        Some(error) => Err(error),
        None => read_verdict(request, reports.read),
    }
}

/// The operations that an exchange asks the transport for, given what the
/// transport reports: the write, and after a complete write the read.
/// After a write that failed or fell short there is no read.
pub open spec fn transfers(
    write_to: Target,
    read_from: Target,
    request: RequestView,
    reports: Reports,
) -> Seq<Operation> {
    let write = Operation::Write {
        target: write_to,
        data: request.command,
        timeout_ms: request.write_timeout_ms,
        written: reports.written,
    };
    if write_verdict(request.command.len(), reports.written) is None {
        seq![
            write,
            Operation::Read {
                target: read_from,
                capacity: request.response.capacity(),
                timeout_ms: request.read_timeout_ms,
                received: reports.read,
            },
        ]
    } else {
        seq![write]
    }
}

/// The result of an exchange as a mathematical value.
pub open spec fn viewed(result: Result<Reply, ChannelError>) -> Result<ReplyView, ChannelError> {
    match result {
        Ok(reply) => Ok(reply@),
        Err(error) => Err(error),
    }
}

/// The write comes first, and the read follows a complete write only: an
/// exchange asks for one operation or for two, the first is the write of
/// the command, and a second is the read, asked for exactly when the whole
/// command was written.
pub proof fn lemma_read_follows_a_complete_write(
    write_to: Target,
    read_from: Target,
    request: RequestView,
    reports: Reports,
)
    requires
        request.command.len() <= usize::MAX,
    ensures
        ({
            let operations = transfers(write_to, read_from, request, reports);
            &&& 1 <= operations.len() <= 2
            &&& operations[0] is Write
            &&& operations.len() == 2 <==> reports.written == Ok::<usize, Fault>(
                request.command.len() as usize,
            )
            &&& operations.len() == 2 ==> operations[1] is Read
        }),
{
}

/// A transport that takes fewer bytes than the command has ends the
/// exchange with `ShortWrite`, and the read is not attempted: the write is
/// the only operation, and whatever a read would have reported has no part
/// in the result.
pub proof fn lemma_short_write_ends_exchange(
    write_to: Target,
    read_from: Target,
    request: RequestView,
    reports: Reports,
)
    requires
        request.command.len() <= usize::MAX,
        reports.written matches Ok(written) && written < request.command.len(),
    ensures
        exchange_verdict(request, reports) == Err::<ReplyView, ChannelError>(
            ChannelError::ShortWrite {
                written: reports.written->Ok_0,
                requested: request.command.len() as usize,
            },
        ),
        transfers(write_to, read_from, request, reports).len() == 1,
        transfers(write_to, read_from, request, reports)[0] is Write,
{
}

/// A read that does not complete within its time bound ends the exchange
/// with `ReadTimeout`, unless the command is the initialisation probe:
/// then, and only then, the exchange succeeds with silence.
pub proof fn lemma_read_timeout(request: RequestView, reports: Reports)
    requires
        request.command.len() <= usize::MAX,
        reports.written == Ok::<usize, Fault>(request.command.len() as usize),
        reports.read == Err::<Seq<u8>, Fault>(Fault::Timeout),
    ensures
        request.command == Command::Init.wire() ==> exchange_verdict(request, reports) == Ok::<
            ReplyView,
            ChannelError,
        >(ReplyView::Silence),
        request.command != Command::Init.wire() ==> exchange_verdict(request, reports) == Err::<
            ReplyView,
            ChannelError,
        >(ChannelError::ReadTimeout),
        forall|command: Command|
            RequestView::of(command).tolerates_silence() <==> command == Command::Init,
{
}

/// An exchange succeeds with silence for the initialisation probe alone,
/// and with a frame only of an admissible length.
pub proof fn lemma_replies_are_admissible(request: RequestView, reports: Reports)
    ensures
        exchange_verdict(request, reports) == Ok::<ReplyView, ChannelError>(ReplyView::Silence)
            ==> request.tolerates_silence(),
        exchange_verdict(request, reports) matches Ok(ReplyView::Frame(bytes)) ==> bytes.len()
            <= request.response.capacity() && (request.response is Exactly ==> bytes.len()
            == request.response.capacity()),
{
}

/// Whether two byte strings are the same.
pub fn same_bytes(left: &[u8], right: &[u8]) -> (same: bool)
    ensures
        same <==> left@ == right@,
{
    if left.len() != right.len() {
        return false;
    }
    let mut index: usize = 0;
    while index < left.len()
        invariant
            left@.len() == right@.len(),
            index <= left@.len(),
            forall|i: int| 0 <= i < index ==> left@[i] == right@[i],
        decreases left@.len() - index,
    {
        if left[index] != right[index] {
            return false;
        }
        index += 1;
    }
    assert(left@ =~= right@);
    true
}

/// Classifies the outcome of the write step.
///
/// `Ok` means that the whole command was written and the read is due. An
/// error ends the exchange: no read follows it.
pub fn judge_write(request: &Request, outcome: Result<usize, Fault>) -> (verdict: Result<
    (),
    ChannelError,
>)
    ensures
        verdict is Ok <==> write_verdict(request@.command.len(), outcome) is None,
        verdict matches Err(error) ==> write_verdict(request@.command.len(), outcome) == Some(
            error,
        ),
{
    let requested = request.command.len();
    match outcome {
        Ok(written) => if written == requested {
            Ok(())
        } else if written < requested {
            Err(ChannelError::ShortWrite { written, requested })
        } else {
            Err(ChannelError::WriteError)
        },
        Err(Fault::Timeout) => Err(ChannelError::WriteTimeout),
        Err(Fault::Other) => Err(ChannelError::WriteError),
    }
}

/// Classifies the outcome of the read step.
pub fn judge_read(request: &Request, outcome: Result<Vec<u8>, Fault>) -> (verdict: Result<
    Reply,
    ChannelError,
>)
    ensures
        viewed(verdict) == read_verdict(request@, received(outcome)),
{
    match outcome {
        Ok(bytes) => {
            let capacity = request.response.buffer_size();
            if bytes.len() > capacity {
                Err(ChannelError::ReadError)
            } else {
                match request.response {
                    ResponseLength::Exactly(expected) => if bytes.len() < expected {
                        Err(ChannelError::ShortRead { received: bytes.len(), expected })
                    } else {
                        Ok(Reply::Frame(bytes))
                    },
                    ResponseLength::AtMost(_) => Ok(Reply::Frame(bytes)),
                }
            }
        },
        Err(Fault::Timeout) => {
            let init = Command::Init.encode();
            if same_bytes(request.command.as_slice(), init.as_slice()) {
                Ok(Reply::Silence)
            } else {
                Err(ChannelError::ReadTimeout)
            }
        },
        Err(Fault::Other) => Err(ChannelError::ReadError),
    }
}

/// Performs one exchange over `link`: writes the command once, and, only if
/// all of it was written, reads the response once. Nothing is retried.
///
/// The journal of the link grows by exactly these operations, with the
/// request's bytes, targets and time bounds handed to them. The transport
/// decides what is reported of each; the result is what
/// [`exchange_verdict`] makes of the reports.
pub fn exchange<T: Transport>(
    link: &mut Link<T>,
    write_to: Target,
    read_from: Target,
    request: &Request,
) -> (result: Result<Reply, ChannelError>)
    ensures
        ({
            let added = final(link)@.skip(old(link)@.len() as int);
            let reports = Reports { written: added[0]->written, read: added.last()->received };
            &&& final(link)@ == old(link)@ + added
            &&& added == transfers(write_to, read_from, request@, reports)
            &&& viewed(result) == exchange_verdict(request@, reports)
        }),
{
    let written = link.write(write_to, request.command.as_slice(), request.write_timeout_ms);
    match judge_write(request, written) {
        Err(error) => Err(error),
        Ok(()) => {
            let outcome = link.read(
                read_from,
                request.response.buffer_size(),
                request.read_timeout_ms,
            );
            judge_read(request, outcome)
        },
    }
}

} // verus!
