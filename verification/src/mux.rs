//! Many streams over one connection: how a client announces them, and what the task
//! that drives such a connection does.
use vstd::prelude::*;

verus! {

/// The first byte of a TCP connection that carries many streams.
pub const TCP_MUX_MAGIC: u8 = 0x5A;

/// Whether a connection carries many streams, told by its first byte.
pub fn is_mux(first: u8) -> (b: bool)
    ensures
        b == (first == TCP_MUX_MAGIC),
{
    first == TCP_MUX_MAGIC
}

/// What a server makes of a connection to its control port.
#[derive(Debug, PartialEq, Eq, Structural)]
pub struct ControlClass {
    /// Whether it carries many streams. Then its first byte is taken off first.
    pub mux: bool,
    /// Whether it is encrypted. Work connections are encrypted alike.
    pub secure: bool,
}

/// What a server makes of a connection to its control port. `first` is the first
/// byte, where one came.
pub fn classify_control_conn(first: Option<u8>, tls_available: bool) -> (c: ControlClass)
    ensures
        c.mux == (first == Some(TCP_MUX_MAGIC)),
        c.secure == tls_available,
{
    let mux: bool = match first {
        Some(b) => is_mux(b),
        None => false,
    };
    ControlClass { mux, secure: tls_available }
}

/// What a stream of a connection carries.
#[derive(Debug, PartialEq, Eq, Structural)]
pub enum StreamRole {
    Control,
    Work,
}

/// What a stream carries, told by how many were opened before it: the first is the
/// control connection, all others are work connections.
pub fn stream_role(before: usize) -> (r: StreamRole)
    ensures
        r == (if before == 0 {
            StreamRole::Control
        } else {
            StreamRole::Work
        }),
{
    if before == 0 {
        StreamRole::Control
    } else {
        StreamRole::Work
    }
}

/// Which source of events of a connection is ready.
pub struct Ready {
    /// What came from the other side.
    pub inbound: Inbound,
    /// Whether a stream that was asked for is open, or could not be opened.
    pub outbound: bool,
    pub command: Command,
}

/// What came from the other side.
#[derive(Clone, Copy, PartialEq, Eq, Structural)]
pub enum Inbound {
    Nothing,
    /// A stream.
    Stream,
    /// The end of the connection, or an error.
    End,
}

/// What the users of a connection ask for.
#[derive(Clone, Copy, PartialEq, Eq, Structural)]
pub enum Command {
    Nothing,
    /// A stream to the other side.
    Open,
    /// An orderly end.
    Close,
    /// There are no users any more.
    Gone,
}

/// What the driver does next.
#[derive(PartialEq, Eq, Structural)]
pub enum MuxStep {
    /// Hand out the stream that the other side opened.
    Deliver,
    /// Tell the first who waits for a stream how it went.
    Answer,
    /// Put the one who asks for a stream last in the queue.
    Enqueue,
    /// End the connection in good order, and stop.
    CloseAndStop,
    Stop,
    /// Wait until something is ready.
    Wait,
}

/// What comes first: what the other side sends, then streams that were asked for,
/// then what users ask for.
pub open spec fn step_of(r: Ready, waiting: nat) -> MuxStep {
    match r.inbound {
        Inbound::Stream => MuxStep::Deliver,
        Inbound::End => MuxStep::Stop,
        Inbound::Nothing => if waiting > 0 && r.outbound {
            MuxStep::Answer
        } else {
            match r.command {
                Command::Open => MuxStep::Enqueue,
                Command::Close => MuxStep::CloseAndStop,
                Command::Gone => MuxStep::Stop,
                Command::Nothing => MuxStep::Wait,
            }
        },
    }
}

/// The task that drives a connection. `R` stands for one who waits for a stream.
pub struct MuxDriver<R> {
    pending_opens: Vec<R>,
    closed: bool,
}

impl<R> MuxDriver<R> {
    /// Those who wait for a stream, the first to be served first.
    pub closed spec fn waiting(self) -> Seq<R> {
        self.pending_opens@
    }

    pub closed spec fn is_over(self) -> bool {
        self.closed
    }

    pub fn new() -> (d: Self)
        ensures
            d.waiting() == Seq::<R>::empty(),
            !d.is_over(),
    {
        MuxDriver { pending_opens: Vec::new(), closed: false }
    }

    /// Whether somebody waits for a stream.
    pub fn wants_outbound(&self) -> (b: bool)
        ensures
            b == (self.waiting().len() > 0),
    {
        self.pending_opens.len() > 0
    }

    /// What to do next.
    pub fn step(&self, r: &Ready) -> (s: MuxStep)
        ensures
            s == step_of(*r, self.waiting().len()),
    {
        match r.inbound {
            Inbound::Stream => {
                return MuxStep::Deliver;
            },
            Inbound::End => {
                return MuxStep::Stop;
            },
            Inbound::Nothing => {},
        }
        if self.pending_opens.len() > 0 && r.outbound {
            return MuxStep::Answer;
        }
        match r.command {
            Command::Open => MuxStep::Enqueue,
            Command::Close => MuxStep::CloseAndStop,
            Command::Gone => MuxStep::Stop,
            Command::Nothing => MuxStep::Wait,
        }
    }

    /// Puts one who asks for a stream last in the queue.
    pub fn enqueue(&mut self, reply: R)
        ensures
            final(self).waiting() == old(self).waiting().push(reply),
            final(self).is_over() == old(self).is_over(),
    {
        self.pending_opens.push(reply);
    }

    /// Takes the first who waits for a stream from the queue.
    pub fn next_waiting(&mut self) -> (r: Option<R>)
        ensures
            match r {
                Some(x) => old(self).waiting().len() > 0 && x == old(self).waiting()[0]
                    && final(self).waiting() == old(self).waiting().drop_first(),
                None => old(self).waiting().len() == 0 && final(self).waiting() == old(
                    self,
                ).waiting(),
            },
            final(self).is_over() == old(self).is_over(),
    {
        if self.pending_opens.len() == 0 {
            return None;
        }
        let ghost before = self.pending_opens@;
        let r: R = self.pending_opens.remove(0);
        assert(self.pending_opens@ =~= before.drop_first());
        Some(r)
    }

    /// The driver stopped.
    pub fn stopped(&mut self)
        ensures
            final(self).is_over(),
            final(self).waiting() == old(self).waiting(),
    {
        self.closed = true;
    }

    /// Whether the driver stopped: then no stream can be opened or accepted.
    pub fn is_closed(&self) -> (b: bool)
        ensures
            b == self.is_over(),
    {
        self.closed
    }
}

/// While somebody waits for a stream, what the other side sends is still read first:
/// the acknowledgements that the waiting depends on come that way.
pub proof fn law_inbound_comes_first(r: Ready, waiting: nat)
    ensures
        r.inbound is Stream ==> step_of(r, waiting) == MuxStep::Deliver,
        r.inbound is End ==> step_of(r, waiting) == MuxStep::Stop,
        step_of(r, waiting) == MuxStep::Answer ==> r.inbound is Nothing && waiting > 0,
{
}

} // verus!
