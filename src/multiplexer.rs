use vstd::prelude::*;
use crate::error::{ConnectError, MultiplexError, ReceiveError, SendError};
use crate::fragment::{fragment, fragments};
use crate::number_allocator::NumberAllocator;
use crate::receive_buffer::{total_bytes, Pop, ReceiveBuffer};
use crate::send_lock::{reserve_ok, SendLock};

verus! {

broadcast use ReceiveBuffer::lemma_flags_len;

/// Recognised options of a multiplexer.
#[derive(Clone, Copy, Debug, PartialEq, Eq, Structural)]
pub struct Cfg {
    /// Largest number of channels open at once; ports range below it.
    pub max_channels: u32,
    /// Bytes a channel buffers before the remote sender must wait.
    pub receive_window: u32,
    /// Consumed bytes after which credit is returned to the remote sender.
    pub credit_threshold: u32,
    /// Largest payload of one data message.
    pub max_chunk: u32,
    /// Milliseconds an open request waits for confirmation.
    pub connect_timeout_ms: u64,
    /// Milliseconds between keep-alive pings.
    pub ping_interval_ms: u64,
}

impl Cfg {
    pub open spec fn wf(&self) -> bool {
        &&& 0 < self.credit_threshold <= self.receive_window
        &&& 0 < self.max_chunk <= self.receive_window
    }

    /// The default options: 1024 channels, a 64 KiB window returned in
    /// halves, 16 KiB chunks, a 60 s connect timeout and a 10 s ping.
    pub fn default_cfg() -> (r: Cfg)
        ensures
            r.wf(),
            r.max_channels == 1024,
            r.receive_window == 65536,
            r.credit_threshold == 32768,
            r.max_chunk == 16384,
            r.connect_timeout_ms == 60000,
            r.ping_interval_ms == 10000,
    {
        Cfg {
            max_channels: 1024,
            receive_window: 65536,
            credit_threshold: 32768,
            max_chunk: 16384,
            connect_timeout_ms: 60000,
            ping_interval_ms: 10000,
        }
    }
}

/// The wire-level envelope exchanged by two multiplexers. Except for
/// `OpenChannel`, the port is the addressed endpoint's own port.
#[derive(Debug)]
pub enum MultiplexMsg {
    /// Asks for a new channel; `port` is the opener's port, `window` the
    /// opener's receive window.
    OpenChannel { port: u32, window: u32 },
    /// Accepts an open request; `remote_port` is the acceptor's port.
    ConfirmChannel { port: u32, remote_port: u32, window: u32 },
    /// Refuses an open request.
    RejectChannel { port: u32 },
    /// A chunk of payload; `last` ends a message.
    Data { port: u32, payload: Vec<u8>, last: bool },
    /// Returns consumed capacity to the sender.
    CreditGrant { port: u32, amount: u64 },
    /// The sending side of the channel has finished.
    Hangup { port: u32 },
    /// The receiving side has closed; the sender should stop.
    ReceiverClosed { port: u32 },
    /// Keep-alive.
    Ping,
    /// The sender is shutting down the whole multiplexer.
    Goodbye,
}

/// Whether the multiplexer runs, ended normally, or failed.
#[derive(Clone, Copy, Debug, PartialEq, Eq, Structural)]
pub enum MuxStatus {
    Running,
    Terminated,
    Failed(MultiplexError),
}

/// The local state of one channel.
pub struct Channel {
    /// The peer's port for this channel, once confirmed.
    pub remote_port: u32,
    /// False while the open request awaits confirmation.
    pub confirmed: bool,
    /// Our sending side has hung up.
    pub local_done: bool,
    /// The peer's sending side has hung up.
    pub remote_done: bool,
    /// Our receiving side was closed; later data is discarded.
    pub recv_closed: bool,
    /// The peer's receiving side has closed; it grants no more credit.
    pub peer_recv_closed: bool,
    /// Received, unconsumed data.
    pub recv: ReceiveBuffer,
    /// Credit for sending.
    pub send: SendLock,
}

/// Projection of a channel onto the states of its life cycle.
#[derive(Clone, Copy, Debug, PartialEq, Eq, Structural)]
pub enum ChannelState {
    Connecting,
    Open,
    HalfClosedLocal,
    HalfClosedRemote,
    Closed,
}

/// The life-cycle state of a channel slot; a free slot is closed.
pub open spec fn state_of(c: Option<Channel>) -> ChannelState {
    match c {
        None => ChannelState::Closed,
        Some(c) => if !c.confirmed {
            ChannelState::Connecting
        } else if c.local_done && c.remote_done {
            ChannelState::Closed
        } else if c.local_done {
            ChannelState::HalfClosedLocal
        } else if c.remote_done {
            ChannelState::HalfClosedRemote
        } else {
            ChannelState::Open
        },
    }
}

/// The error a send on `port` meets, if any.
pub open spec fn send_error(status: MuxStatus, c: Option<Channel>) -> Option<SendError> {
    match status {
        MuxStatus::Terminated => Some(SendError::Terminated),
        MuxStatus::Failed(e) => Some(SendError::Failed(e)),
        MuxStatus::Running => match c {
            Some(c) => if c.confirmed && !c.local_done && !c.send.spec_closed() {
                None
            } else {
                Some(SendError::Closed)
            },
            None => Some(SendError::Closed),
        },
    }
}

/// The error a receive on `port` meets, if any.
pub open spec fn receive_error(status: MuxStatus) -> Option<ReceiveError> {
    match status {
        MuxStatus::Terminated => Some(ReceiveError::Terminated),
        MuxStatus::Failed(e) => Some(ReceiveError::Failed(e)),
        MuxStatus::Running => None,
    }
}

/// What became of a send that no error stopped.
#[derive(Debug)]
pub enum SendStep {
    /// The data message to put on the transport.
    Sent(MultiplexMsg),
    /// Not enough credit: the payload comes back, to be sent again after
    /// the next credit grant.
    Wait(Vec<u8>),
}

/// A channel the peer has just asked for or answered.
#[derive(Clone, Copy, Debug, PartialEq, Eq, Structural)]
pub enum MuxEvent {
    /// Nothing for the application.
    Nothing,
    /// The peer asks for a channel (its port and window): accept or reject.
    Incoming { remote_port: u32, window: u32 },
    /// Our open request on the port was confirmed.
    Connected { port: u32 },
    /// Our open request on the port was confirmed after it had timed out:
    /// the channel is wound down, and the peer's port must be sent a
    /// `Hangup` and a `ReceiverClosed`. The port is freed once the peer has
    /// hung up and closed its receiver in turn.
    LateConfirm { port: u32, remote_port: u32 },
    /// Our open request on the port was refused; the port is free again.
    Refused { port: u32 },
    /// The peer shut the multiplexer down.
    PeerGoodbye,
}

/// The coordinator of one multiplexer instance: the table of channels by
/// port, the port allocator, and the protocol rules applied to each message
/// from the peer and each request of a local channel handle.
pub struct Multiplexer {
    cfg: Cfg,
    ports: NumberAllocator,
    table: Vec<Option<Channel>>,
    status: MuxStatus,
}

impl Multiplexer {
    pub closed spec fn spec_cfg(&self) -> Cfg {
        self.cfg
    }

    pub closed spec fn status(&self) -> MuxStatus {
        self.status
    }

    /// Ports in use.
    pub closed spec fn live(&self) -> Set<u32> {
        self.ports.live()
    }

    /// The channel on `port`, if the port is in use.
    pub closed spec fn slot(&self, port: u32) -> Option<Channel> {
        if (port as int) < self.table@.len() {
            self.table@[port as int]
        } else {
            None
        }
    }

    pub closed spec fn wf(&self) -> bool {
        &&& self.wf_base()
        &&& forall|p: u32| #[trigger] self.slot(p) is Some <==> self.ports.live().contains(p)
        &&& forall|p: u32| #[trigger] self.slot(p) matches Some(c) ==> Self::channel_wf(c, self.cfg)
    }

    closed spec fn wf_base(&self) -> bool {
        &&& self.cfg.wf()
        &&& self.ports.wf()
        &&& self.ports.spec_limit() == self.cfg.max_channels
        &&& self.table@.len() == self.cfg.max_channels
    }

    /// Well-formed but for the slot of `port`, which is live and empty.
    closed spec fn wf_hole(&self, port: u32) -> bool {
        &&& self.wf_base()
        &&& port < self.cfg.max_channels
        &&& self.ports.live().contains(port)
        &&& self.slot(port) is None
        &&& forall|q: u32| q != port ==> (#[trigger] self.slot(q) is Some <==> self.ports.live().contains(q))
        &&& forall|q: u32| q != port ==> (#[trigger] self.slot(q) matches Some(c) ==> Self::channel_wf(c, self.cfg))
    }

    pub open spec fn channel_wf(c: Channel, cfg: Cfg) -> bool {
        &&& c.recv.wf()
        &&& c.recv.spec_window() == cfg.receive_window
        &&& c.recv.spec_threshold() == cfg.credit_threshold
        &&& c.recv.spec_eof() == c.remote_done
    }

    /// Every slot but `port` is as before.
    pub open spec fn others_kept(&self, before: &Multiplexer, port: u32) -> bool {
        forall|q: u32| q != port ==> #[trigger] self.slot(q) == before.slot(q)
    }

    /// A running multiplexer with no channels.
    pub fn new(cfg: Cfg) -> (r: Self)
        requires
            cfg.wf(),
        ensures
            r.wf(),
            r.spec_cfg() == cfg,
            r.status() == MuxStatus::Running,
            r.live() == Set::<u32>::empty(),
            forall|p: u32| #[trigger] r.slot(p) is None,
    {
        let mut table: Vec<Option<Channel>> = Vec::new();
        let mut i: u32 = 0;
        while i < cfg.max_channels
            invariant
                i <= cfg.max_channels,
                table@.len() == i,
                forall|k: int| 0 <= k < table@.len() ==> table@[k] is None,
            decreases cfg.max_channels - i,
        {
            table.push(None);
            i = i + 1;
        }
        let r = Multiplexer { cfg, ports: NumberAllocator::new(cfg.max_channels), table, status: MuxStatus::Running };
        assert forall|p: u32| #[trigger] r.slot(p) is None by {}
        r
    }

    pub fn cfg(&self) -> (r: Cfg)
        ensures
            r == self.spec_cfg(),
    {
        self.cfg
    }

    pub fn mux_status(&self) -> (r: MuxStatus)
        ensures
            r == self.status(),
    {
        self.status
    }

    /// A channel record in its initial state.
    fn fresh_channel(cfg: Cfg, remote_port: u32, confirmed: bool, credit: u64) -> (c: Channel)
        requires
            cfg.wf(),
        ensures
            Self::channel_wf(c, cfg),
            c.remote_port == remote_port,
            c.confirmed == confirmed,
            !c.local_done && !c.remote_done && !c.recv_closed && !c.peer_recv_closed,
            c.recv.contents() == Seq::<Seq<u8>>::empty(),
            c.recv.spec_consumed() == 0,
            c.send.spec_available() == credit,
            !c.send.spec_closed(),
    {
        Channel {
            remote_port,
            confirmed,
            local_done: false,
            remote_done: false,
            recv_closed: false,
            peer_recv_closed: false,
            recv: ReceiveBuffer::new(cfg.receive_window, cfg.credit_threshold),
            send: SendLock::new(credit),
        }
    }

    /// Takes the channel out of its slot, leaving the slot empty.
    fn take_slot(&mut self, port: u32) -> (r: Option<Channel>)
        requires
            (port as int) < old(self).table@.len(),
        ensures
            r == old(self).slot(port),
            final(self).table@ == old(self).table@.update(port as int, None),
            final(self).cfg == old(self).cfg,
            final(self).ports == old(self).ports,
            final(self).status == old(self).status,
    {
        let mut tmp: Option<Channel> = None;
        std::mem::swap(&mut tmp, &mut self.table[port as usize]);
        tmp
    }

    /// Takes the live channel on `port` out of the table for an update.
    fn take_live(&mut self, port: u32) -> (c: Channel)
        requires
            old(self).wf(),
            old(self).slot(port) is Some,
        ensures
            final(self).wf_hole(port),
            Some(c) == old(self).slot(port),
            Self::channel_wf(c, old(self).cfg),
            final(self).others_kept(old(self), port),
            final(self).cfg == old(self).cfg,
            final(self).status == old(self).status,
            final(self).ports == old(self).ports,
    {
        assert(self.ports.live().contains(port));
        let r = self.take_slot(port);
        assert forall|q: u32| q != port implies #[trigger] self.slot(q) == old(self).slot(q) by {}
        r.unwrap()
    }

    /// Puts a channel back into the slot that `take_live` emptied.
    fn put_back(&mut self, port: u32, c: Channel)
        requires
            old(self).wf_hole(port),
            Self::channel_wf(c, old(self).cfg),
        ensures
            final(self).wf(),
            final(self).slot(port) == Some(c),
            final(self).others_kept(old(self), port),
            final(self).cfg == old(self).cfg,
            final(self).status == old(self).status,
            final(self).ports == old(self).ports,
    {
        let ghost before = *self;
        self.table.set(port as usize, Some(c));
        assert forall|q: u32| q != port implies #[trigger] self.slot(q) == before.slot(q) by {}
        assert(self.slot(port) == Some(c));
    }

    /// Frees the port of the channel that `take_live` took out.
    fn release_hole(&mut self, port: u32)
        requires
            old(self).wf_hole(port),
        ensures
            final(self).wf(),
            final(self).slot(port) is None,
            final(self).live() == old(self).live().remove(port),
            final(self).others_kept(old(self), port),
            final(self).cfg == old(self).cfg,
            final(self).status == old(self).status,
    {
        let ghost before = *self;
        self.ports.release(port);
        assert forall|q: u32| q != port implies #[trigger] self.slot(q) == before.slot(q) by {}
    }

    /// Registers a new channel on the lowest free port.
    fn add_channel(&mut self, remote_port: u32, confirmed: bool, credit: u64) -> (r: Result<u32, ConnectError>)
        requires
            old(self).wf(),
        ensures
            final(self).wf(),
            final(self).spec_cfg() == old(self).spec_cfg(),
            final(self).status() == old(self).status(),
            match r {
                Ok(p) => {
                    &&& !old(self).live().contains(p)
                    &&& final(self).live() == old(self).live().insert(p)
                    &&& final(self).others_kept(old(self), p)
                    &&& final(self).slot(p) matches Some(c) && c.remote_port == remote_port
                        && c.confirmed == confirmed && !c.local_done && !c.remote_done
                        && !c.recv_closed && c.recv.contents().len() == 0
                        && c.send.spec_available() == credit && !c.send.spec_closed()
                },
                Err(e) => {
                    &&& e == ConnectError::PortsExhausted
                    &&& forall|p: u32| p < old(self).spec_cfg().max_channels ==> old(self).live().contains(p)
                    &&& *final(self) == *old(self)
                },
            },
    {
        let ghost before = *self;
        match self.ports.allocate() {
            Ok(p) => {
                let c = Self::fresh_channel(self.cfg, remote_port, confirmed, credit);
                self.table.set(p as usize, Some(c));
                assert forall|q: u32| q != p implies #[trigger] self.slot(q) == before.slot(q) by {}
                assert forall|q: u32| #[trigger] self.slot(q) is Some <==> self.ports.live().contains(q) by {
                    if q != p {
                        assert(self.slot(q) == before.slot(q));
                        assert(before.slot(q) is Some <==> before.ports.live().contains(q));
                    }
                }
                assert(self.slot(p) == Some(c));
                assert forall|q: u32| #[trigger] self.slot(q) matches Some(c) ==> Self::channel_wf(c, self.cfg) by {
                    if q != p {
                        assert(self.slot(q) == before.slot(q));
                    }
                }
                Ok(p)
            },
            Err(_) => Err(ConnectError::PortsExhausted),
        }
    }

    /// The error that an open or accept meets on a multiplexer that is not
    /// running.
    pub open spec fn connect_error(status: MuxStatus) -> Option<ConnectError> {
        match status {
            MuxStatus::Running => None,
            MuxStatus::Terminated => Some(ConnectError::Terminated),
            MuxStatus::Failed(e) => Some(ConnectError::Failed(e)),
        }
    }

    fn check_running(&self) -> (r: Option<ConnectError>)
        ensures
            r == Self::connect_error(self.status()),
    {
        match self.status {
            MuxStatus::Running => None,
            MuxStatus::Terminated => Some(ConnectError::Terminated),
            MuxStatus::Failed(e) => Some(ConnectError::Failed(e)),
        }
    }

    /// Starts opening a channel: takes the lowest free port for it, in the
    /// connecting state, and returns the port with the request to send.
    pub fn open(&mut self) -> (r: Result<(u32, MultiplexMsg), ConnectError>)
        requires
            old(self).wf(),
        ensures
            final(self).wf(),
            final(self).spec_cfg() == old(self).spec_cfg(),
            final(self).status() == old(self).status(),
            Self::connect_error(old(self).status()) matches Some(e) ==> {
                &&& r == Err::<(u32, MultiplexMsg), ConnectError>(e)
                &&& *final(self) == *old(self)
            },
            old(self).status() == MuxStatus::Running ==> match r {
                Ok((p, msg)) => {
                    &&& !old(self).live().contains(p)
                    &&& final(self).live() == old(self).live().insert(p)
                    &&& final(self).others_kept(old(self), p)
                    &&& state_of(final(self).slot(p)) == ChannelState::Connecting
                    &&& final(self).slot(p) matches Some(c) && !c.local_done && !c.remote_done
                        && !c.recv_closed && c.recv.contents().len() == 0 && !c.send.spec_closed()
                    &&& msg matches MultiplexMsg::OpenChannel { port, window }
                        && port == p && window == old(self).spec_cfg().receive_window
                },
                Err(e) => {
                    &&& e == ConnectError::PortsExhausted
                    &&& forall|p: u32| p < old(self).spec_cfg().max_channels ==> old(self).live().contains(p)
                    &&& *final(self) == *old(self)
                },
            },
    {
        if let Some(e) = self.check_running() {
            return Err(e);
        }
        let p = self.add_channel(0, false, 0)?;
        Ok((p, MultiplexMsg::OpenChannel { port: p, window: self.cfg.receive_window }))
    }

    /// Accepts the peer's request for a channel from its port `remote_port`
    /// with receive window `window`: the channel opens on the lowest free
    /// port, and the confirmation to send is returned. When no port is free
    /// the result is the error, with the refusal to send.
    pub fn accept(&mut self, remote_port: u32, window: u32) -> (r: Result<(u32, MultiplexMsg), (ConnectError, MultiplexMsg)>)
        requires
            old(self).wf(),
        ensures
            final(self).wf(),
            final(self).spec_cfg() == old(self).spec_cfg(),
            final(self).status() == old(self).status(),
            Self::connect_error(old(self).status()) matches Some(e) ==> {
                &&& *final(self) == *old(self)
                &&& r matches Err((e2, MultiplexMsg::RejectChannel { port })) && e2 == e && port == remote_port
            },
            old(self).status() == MuxStatus::Running ==> match r {
                Ok((p, msg)) => {
                    &&& !old(self).live().contains(p)
                    &&& final(self).live() == old(self).live().insert(p)
                    &&& final(self).others_kept(old(self), p)
                    &&& state_of(final(self).slot(p)) == ChannelState::Open
                    &&& final(self).slot(p) matches Some(c) && c.remote_port == remote_port
                        && c.send.spec_available() == window && !c.send.spec_closed() && !c.local_done
                        && !c.remote_done && !c.recv_closed && c.recv.contents().len() == 0
                    &&& msg matches MultiplexMsg::ConfirmChannel { port, remote_port: mine, window: w }
                        && port == remote_port && mine == p && w == old(self).spec_cfg().receive_window
                },
                Err((e, msg)) => {
                    &&& e == ConnectError::PortsExhausted
                    &&& forall|p: u32| p < old(self).spec_cfg().max_channels ==> old(self).live().contains(p)
                    &&& *final(self) == *old(self)
                    &&& msg matches MultiplexMsg::RejectChannel { port } && port == remote_port
                },
            },
    {
        if let Some(e) = self.check_running() {
            return Err((e, MultiplexMsg::RejectChannel { port: remote_port }));
        }
        match self.add_channel(remote_port, true, window as u64) {
            Ok(p) => Ok((p, MultiplexMsg::ConfirmChannel { port: remote_port, remote_port: p, window: self.cfg.receive_window })),
            Err(e) => Err((e, MultiplexMsg::RejectChannel { port: remote_port })),
        }
    }

    /// Cuts one logical message into the chunks that `send` takes, each of
    /// at most `max_chunk` bytes and so within the receive window; sent in
    /// order with `last` on the final one, they arrive as the message.
    pub fn fragment_payload(&self, data: &Vec<u8>) -> (r: Vec<Vec<u8>>)
        requires
            self.wf(),
        ensures
            r@.map_values(|c: Vec<u8>| c@) == fragments(data@, self.spec_cfg().max_chunk as nat),
    {
        fragment(data, self.cfg.max_chunk as usize)
    }

    /// Refuses the peer's request for a channel from its port `remote_port`.
    pub fn reject(&self, remote_port: u32) -> (r: MultiplexMsg)
        ensures
            r matches MultiplexMsg::RejectChannel { port } && port == remote_port,
    {
        MultiplexMsg::RejectChannel { port: remote_port }
    }

    /// Whether `msg` breaks the protocol given the current table: it
    /// answers an open request that is not pending, carries data for a port
    /// that cannot receive or beyond the advertised window, overflows the
    /// credit counter, or hangs up a port twice or one that is not in use.
    pub open spec fn violation(&self, msg: MultiplexMsg) -> bool {
        match msg {
            MultiplexMsg::OpenChannel { .. } => false,
            MultiplexMsg::ConfirmChannel { port, .. } => !(self.slot(port) matches Some(c) && !c.confirmed),
            MultiplexMsg::RejectChannel { port } => !(self.slot(port) matches Some(c) && !c.confirmed),
            MultiplexMsg::Data { port, payload, .. } => match self.slot(port) {
                None => true,
                Some(c) => !c.confirmed || c.remote_done || (!c.recv_closed && total_bytes(c.recv.contents())
                    + payload@.len() > self.spec_cfg().receive_window),
            },
            MultiplexMsg::CreditGrant { port, amount } => match self.slot(port) {
                None => false,
                Some(c) => !c.confirmed || c.send.spec_available() + amount > u64::MAX,
            },
            MultiplexMsg::Hangup { port } => match self.slot(port) {
                None => true,
                Some(c) => !c.confirmed || c.remote_done,
            },
            MultiplexMsg::ReceiverClosed { port } => match self.slot(port) {
                None => false,
                Some(c) => !c.confirmed,
            },
            MultiplexMsg::Ping => false,
            MultiplexMsg::Goodbye => false,
        }
    }

    /// The effect of a message that breaks no rule on a running
    /// multiplexer: `new` and the event `ev` follow from `self` and `msg`.
    pub open spec fn handled(&self, new: &Multiplexer, msg: MultiplexMsg, ev: MuxEvent) -> bool {
        match msg {
            MultiplexMsg::OpenChannel { port, window } => {
                &&& *new == *self
                &&& ev == (MuxEvent::Incoming { remote_port: port, window })
            },
            MultiplexMsg::ConfirmChannel { port, remote_port, window } => {
                &&& new.status() == self.status()
                &&& new.live() == self.live()
                &&& new.others_kept(self, port)
                &&& new.slot(port) matches Some(c2) && self.slot(port) matches Some(c) && {
                    &&& ev == if c.local_done {
                        MuxEvent::LateConfirm { port, remote_port }
                    } else {
                        MuxEvent::Connected { port }
                    }
                    &&& c2.confirmed && c2.remote_port == remote_port
                    &&& c2.send.spec_available() == window && c2.send.spec_closed() == c.local_done
                    &&& c2.recv == c.recv
                    &&& c2.local_done == c.local_done && c2.remote_done == c.remote_done
                    &&& c2.recv_closed == c.recv_closed && c2.peer_recv_closed == c.peer_recv_closed
                }
            },
            MultiplexMsg::RejectChannel { port } => {
                &&& new.status() == self.status()
                &&& new.live() == self.live().remove(port)
                &&& new.slot(port) is None
                &&& new.others_kept(self, port)
                &&& ev == (MuxEvent::Refused { port })
            },
            MultiplexMsg::Data { port, payload, last } => {
                &&& new.status() == self.status()
                &&& new.live() == self.live()
                &&& new.others_kept(self, port)
                &&& ev == MuxEvent::Nothing
                &&& new.slot(port) matches Some(c2) && self.slot(port) matches Some(c) && {
                    &&& c2.remote_port == c.remote_port && c2.confirmed == c.confirmed
                    &&& c2.local_done == c.local_done && c2.remote_done == c.remote_done
                    &&& c2.recv_closed == c.recv_closed && c2.peer_recv_closed == c.peer_recv_closed
                    &&& c2.send == c.send
                    &&& c2.recv.spec_consumed() == c.recv.spec_consumed()
                    &&& if c.recv_closed {
                        c2.recv == c.recv
                    } else {
                        &&& c2.recv.contents() == c.recv.contents().push(payload@)
                        &&& c2.recv.last_flags() == c.recv.last_flags().push(last)
                    }
                }
            },
            MultiplexMsg::CreditGrant { port, amount } => {
                &&& new.status() == self.status()
                &&& new.live() == self.live()
                &&& new.others_kept(self, port)
                &&& ev == MuxEvent::Nothing
                &&& match self.slot(port) {
                    None => new.slot(port) is None,
                    Some(c) => new.slot(port) matches Some(c2) && {
                        &&& c2.remote_port == c.remote_port && c2.confirmed == c.confirmed
                        &&& c2.local_done == c.local_done && c2.remote_done == c.remote_done
                        &&& c2.recv_closed == c.recv_closed && c2.peer_recv_closed == c.peer_recv_closed && c2.recv == c.recv
                        &&& c2.send.spec_closed() == c.send.spec_closed()
                        &&& c2.send.spec_available() == c.send.spec_available() + amount
                    },
                }
            },
            MultiplexMsg::Hangup { port } => {
                &&& new.status() == self.status()
                &&& new.others_kept(self, port)
                &&& ev == MuxEvent::Nothing
                &&& self.slot(port) matches Some(c) && if c.local_done && c.recv_closed && c.peer_recv_closed {
                    &&& new.slot(port) is None
                    &&& new.live() == self.live().remove(port)
                } else {
                    &&& new.live() == self.live()
                    &&& new.slot(port) matches Some(c2) && {
                        &&& c2.remote_port == c.remote_port && c2.confirmed == c.confirmed
                        &&& c2.local_done == c.local_done && c2.remote_done
                        &&& c2.recv_closed == c.recv_closed && c2.peer_recv_closed == c.peer_recv_closed && c2.send == c.send
                        &&& c2.recv.contents() == c.recv.contents()
                        &&& c2.recv.last_flags() == c.recv.last_flags()
                        &&& c2.recv.spec_consumed() == c.recv.spec_consumed()
                        &&& c2.recv.spec_eof()
                    }
                }
            },
            MultiplexMsg::ReceiverClosed { port } => {
                &&& new.status() == self.status()
                &&& new.others_kept(self, port)
                &&& ev == MuxEvent::Nothing
                &&& match self.slot(port) {
                    None => new.slot(port) is None && new.live() == self.live(),
                    Some(c) => if c.local_done && c.remote_done && c.recv_closed {
                        &&& new.slot(port) is None
                        &&& new.live() == self.live().remove(port)
                    } else {
                        &&& new.live() == self.live()
                        &&& new.slot(port) matches Some(c2) && {
                            &&& c2.remote_port == c.remote_port && c2.confirmed == c.confirmed
                            &&& c2.local_done == c.local_done && c2.remote_done == c.remote_done
                            &&& c2.recv_closed == c.recv_closed && c2.peer_recv_closed && c2.recv == c.recv
                            &&& c2.send.spec_closed()
                            &&& c2.send.spec_available() == c.send.spec_available()
                        }
                    },
                }
            },
            MultiplexMsg::Ping => {
                &&& *new == *self
                &&& ev == MuxEvent::Nothing
            },
            MultiplexMsg::Goodbye => {
                &&& new.status() == MuxStatus::Terminated
                &&& forall|q: u32| #[trigger] new.slot(q) == self.slot(q)
                &&& new.live() == self.live()
                &&& ev == MuxEvent::PeerGoodbye
            },
        }
    }

    /// Applies one message from the peer. A message that breaks the protocol
    /// ends the whole multiplexer with a protocol failure, which every
    /// channel then reports; the table is left as it was. A multiplexer that
    /// has ended ignores further messages.
    pub fn handle(&mut self, msg: MultiplexMsg) -> (r: Result<MuxEvent, MultiplexError>)
        requires
            old(self).wf(),
        ensures
            final(self).wf(),
            final(self).spec_cfg() == old(self).spec_cfg(),
            old(self).status() != MuxStatus::Running ==> {
                &&& *final(self) == *old(self)
                &&& r == Ok::<MuxEvent, MultiplexError>(MuxEvent::Nothing)
            },
            old(self).status() == MuxStatus::Running && old(self).violation(msg) ==> {
                &&& r == Err::<MuxEvent, MultiplexError>(MultiplexError::Protocol)
                &&& final(self).status() == MuxStatus::Failed(MultiplexError::Protocol)
                &&& forall|q: u32| #[trigger] final(self).slot(q) == old(self).slot(q)
                &&& final(self).live() == old(self).live()
            },
            old(self).status() == MuxStatus::Running && !old(self).violation(msg) ==> {
                r matches Ok(ev) && old(self).handled(final(self), msg, ev)
            },
    {
        match self.status {
            MuxStatus::Running => {},
            _ => return Ok(MuxEvent::Nothing),
        }
        let r = match msg {
            MultiplexMsg::OpenChannel { port, window } => Ok(MuxEvent::Incoming { remote_port: port, window }),
            MultiplexMsg::ConfirmChannel { port, remote_port, window } => self.on_confirm(port, remote_port, window),
            MultiplexMsg::RejectChannel { port } => self.on_reject(port),
            MultiplexMsg::Data { port, payload, last } => self.on_data(port, payload, last),
            MultiplexMsg::CreditGrant { port, amount } => self.on_credit(port, amount),
            MultiplexMsg::Hangup { port } => self.on_hangup(port),
            MultiplexMsg::ReceiverClosed { port } => self.on_receiver_closed(port),
            MultiplexMsg::Ping => Ok(MuxEvent::Nothing),
            MultiplexMsg::Goodbye => {
                self.set_status(MuxStatus::Terminated);
                Ok(MuxEvent::PeerGoodbye)
            },
        };
        match r {
            Err(e) => {
                self.set_status(MuxStatus::Failed(e));
                Err(e)
            },
            Ok(ev) => Ok(ev),
        }
    }

    /// Changes the status alone.
    fn set_status(&mut self, status: MuxStatus)
        requires
            old(self).wf(),
        ensures
            final(self).wf(),
            final(self).status() == status,
            final(self).spec_cfg() == old(self).spec_cfg(),
            final(self).live() == old(self).live(),
            forall|q: u32| #[trigger] final(self).slot(q) == old(self).slot(q),
    {
        self.status = status;
        assert forall|q: u32| #[trigger] self.slot(q) == old(self).slot(q) by {}
    }

    /// The channel on `port`, if the port is in use.
    fn slot_ref(&self, port: u32) -> (r: Option<&Channel>)
        requires
            self.wf(),
        ensures
            r matches Some(c) ==> self.slot(port) == Some(*c),
            r is None ==> self.slot(port) is None,
    {
        if (port as usize) < self.table.len() {
            match &self.table[port as usize] {
                Some(c) => Some(c),
                None => None,
            }
        } else {
            None
        }
    }

    fn on_confirm(&mut self, port: u32, remote_port: u32, window: u32) -> (r: Result<MuxEvent, MultiplexError>)
        requires
            old(self).wf(),
            old(self).status() == MuxStatus::Running,
        ensures
            final(self).wf(),
            final(self).spec_cfg() == old(self).spec_cfg(),
            old(self).violation(MultiplexMsg::ConfirmChannel { port, remote_port, window }) ==> {
                &&& r == Err::<MuxEvent, MultiplexError>(MultiplexError::Protocol)
                &&& *final(self) == *old(self)
            },
            !old(self).violation(MultiplexMsg::ConfirmChannel { port, remote_port, window }) ==> {
                r matches Ok(ev) && old(self).handled(final(self), MultiplexMsg::ConfirmChannel { port, remote_port, window }, ev)
            },
    {
        match self.slot_ref(port) {
            Some(c) => if c.confirmed {
                return Err(MultiplexError::Protocol);
            },
            None => return Err(MultiplexError::Protocol),
        }
        let mut c = self.take_live(port);
        c.confirmed = true;
        c.remote_port = remote_port;
        c.send = SendLock::new(window as u64);
        if c.local_done {
            c.send.close();
            self.put_back(port, c);
            Ok(MuxEvent::LateConfirm { port, remote_port })
        } else {
            self.put_back(port, c);
            Ok(MuxEvent::Connected { port })
        }
    }

    fn on_reject(&mut self, port: u32) -> (r: Result<MuxEvent, MultiplexError>)
        requires
            old(self).wf(),
            old(self).status() == MuxStatus::Running,
        ensures
            final(self).wf(),
            final(self).spec_cfg() == old(self).spec_cfg(),
            old(self).violation(MultiplexMsg::RejectChannel { port }) ==> {
                &&& r == Err::<MuxEvent, MultiplexError>(MultiplexError::Protocol)
                &&& *final(self) == *old(self)
            },
            !old(self).violation(MultiplexMsg::RejectChannel { port }) ==> {
                r matches Ok(ev) && old(self).handled(final(self), MultiplexMsg::RejectChannel { port }, ev)
            },
    {
        match self.slot_ref(port) {
            Some(c) => if c.confirmed {
                return Err(MultiplexError::Protocol);
            },
            None => return Err(MultiplexError::Protocol),
        }
        let _c = self.take_live(port);
        self.release_hole(port);
        Ok(MuxEvent::Refused { port })
    }

    fn on_data(&mut self, port: u32, payload: Vec<u8>, last: bool) -> (r: Result<MuxEvent, MultiplexError>)
        requires
            old(self).wf(),
            old(self).status() == MuxStatus::Running,
        ensures
            final(self).wf(),
            final(self).spec_cfg() == old(self).spec_cfg(),
            old(self).violation(MultiplexMsg::Data { port, payload, last }) ==> {
                &&& r == Err::<MuxEvent, MultiplexError>(MultiplexError::Protocol)
                &&& *final(self) == *old(self)
            },
            !old(self).violation(MultiplexMsg::Data { port, payload, last }) ==> {
                r matches Ok(ev) && old(self).handled(final(self), MultiplexMsg::Data { port, payload, last }, ev)
            },
    {
        match self.slot_ref(port) {
            Some(c) => {
                if !c.confirmed || c.remote_done {
                    return Err(MultiplexError::Protocol);
                }
                if c.recv_closed {
                    return Ok(MuxEvent::Nothing);
                }
                if payload.len() as u64 > c.recv.window_left() {
                    return Err(MultiplexError::Protocol);
                }
            },
            None => return Err(MultiplexError::Protocol),
        }
        let mut c = self.take_live(port);
        let _ = c.recv.push(payload, last);
        self.put_back(port, c);
        Ok(MuxEvent::Nothing)
    }

    fn on_credit(&mut self, port: u32, amount: u64) -> (r: Result<MuxEvent, MultiplexError>)
        requires
            old(self).wf(),
            old(self).status() == MuxStatus::Running,
        ensures
            final(self).wf(),
            final(self).spec_cfg() == old(self).spec_cfg(),
            old(self).violation(MultiplexMsg::CreditGrant { port, amount }) ==> {
                &&& r == Err::<MuxEvent, MultiplexError>(MultiplexError::Protocol)
                &&& *final(self) == *old(self)
            },
            !old(self).violation(MultiplexMsg::CreditGrant { port, amount }) ==> {
                r matches Ok(ev) && old(self).handled(final(self), MultiplexMsg::CreditGrant { port, amount }, ev)
            },
    {
        match self.slot_ref(port) {
            Some(c) => {
                if !c.confirmed || amount > u64::MAX - c.send.available() {
                    return Err(MultiplexError::Protocol);
                }
            },
            None => return Ok(MuxEvent::Nothing),
        }
        let mut c = self.take_live(port);
        let _ = c.send.grant(amount);
        self.put_back(port, c);
        Ok(MuxEvent::Nothing)
    }

    fn on_hangup(&mut self, port: u32) -> (r: Result<MuxEvent, MultiplexError>)
        requires
            old(self).wf(),
            old(self).status() == MuxStatus::Running,
        ensures
            final(self).wf(),
            final(self).spec_cfg() == old(self).spec_cfg(),
            old(self).violation(MultiplexMsg::Hangup { port }) ==> {
                &&& r == Err::<MuxEvent, MultiplexError>(MultiplexError::Protocol)
                &&& *final(self) == *old(self)
            },
            !old(self).violation(MultiplexMsg::Hangup { port }) ==> {
                r matches Ok(ev) && old(self).handled(final(self), MultiplexMsg::Hangup { port }, ev)
            },
    {
        match self.slot_ref(port) {
            Some(c) => {
                if !c.confirmed || c.remote_done {
                    return Err(MultiplexError::Protocol);
                }
            },
            None => return Err(MultiplexError::Protocol),
        }
        let mut c = self.take_live(port);
        if c.local_done && c.recv_closed && c.peer_recv_closed {
            self.release_hole(port);
        } else {
            c.remote_done = true;
            c.recv.set_eof();
            self.put_back(port, c);
        }
        Ok(MuxEvent::Nothing)
    }

    fn on_receiver_closed(&mut self, port: u32) -> (r: Result<MuxEvent, MultiplexError>)
        requires
            old(self).wf(),
            old(self).status() == MuxStatus::Running,
        ensures
            final(self).wf(),
            final(self).spec_cfg() == old(self).spec_cfg(),
            old(self).violation(MultiplexMsg::ReceiverClosed { port }) ==> {
                &&& r == Err::<MuxEvent, MultiplexError>(MultiplexError::Protocol)
                &&& *final(self) == *old(self)
            },
            !old(self).violation(MultiplexMsg::ReceiverClosed { port }) ==> {
                r matches Ok(ev) && old(self).handled(final(self), MultiplexMsg::ReceiverClosed { port }, ev)
            },
    {
        match self.slot_ref(port) {
            Some(c) => {
                if !c.confirmed {
                    return Err(MultiplexError::Protocol);
                }
            },
            None => return Ok(MuxEvent::Nothing),
        }
        let mut c = self.take_live(port);
        if c.local_done && c.remote_done && c.recv_closed {
            self.release_hole(port);
        } else {
            c.send.close();
            c.peer_recv_closed = true;
            self.put_back(port, c);
        }
        Ok(MuxEvent::Nothing)
    }

    /// Sends one chunk of payload on `port` (`last` ends a message). The
    /// send fails as `send_error` says; otherwise it takes credit for the
    /// payload and yields the data message for the peer's port, or, without
    /// enough credit, changes nothing and hands the payload back.
    pub fn send(&mut self, port: u32, payload: Vec<u8>, last: bool) -> (r: Result<SendStep, SendError>)
        requires
            old(self).wf(),
        ensures
            final(self).wf(),
            final(self).spec_cfg() == old(self).spec_cfg(),
            final(self).status() == old(self).status(),
            final(self).live() == old(self).live(),
            final(self).others_kept(old(self), port),
            send_error(old(self).status(), old(self).slot(port)) matches Some(e) ==> {
                &&& r == Err::<SendStep, SendError>(e)
                &&& *final(self) == *old(self)
            },
            send_error(old(self).status(), old(self).slot(port)) is None ==> {
                old(self).slot(port) matches Some(c) && if reserve_ok(c.send.spec_available(), false, payload@.len()) {
                    &&& r matches Ok(SendStep::Sent(MultiplexMsg::Data { port: to, payload: sent, last: l }))
                        && to == c.remote_port && sent == payload && l == last
                    &&& final(self).slot(port) matches Some(c2) && c2.send.spec_available()
                        == c.send.spec_available() - payload@.len() && !c2.send.spec_closed()
                        && c2.recv == c.recv && c2.remote_port == c.remote_port && c2.confirmed
                        && c2.local_done == c.local_done && c2.remote_done == c.remote_done
                        && c2.recv_closed == c.recv_closed && c2.peer_recv_closed == c.peer_recv_closed
                } else {
                    &&& r matches Ok(SendStep::Wait(back)) && back == payload
                    &&& *final(self) == *old(self)
                }
            },
    {
        let blocked = match self.status {
            MuxStatus::Terminated => Some(SendError::Terminated),
            MuxStatus::Failed(e) => Some(SendError::Failed(e)),
            MuxStatus::Running => match self.slot_ref(port) {
                Some(c) => if c.confirmed && !c.local_done && !c.send.is_closed() {
                    None
                } else {
                    Some(SendError::Closed)
                },
                None => Some(SendError::Closed),
            },
        };
        if let Some(e) = blocked {
            return Err(e);
        }
        match self.slot_ref(port) {
            Some(c) => if payload.len() as u64 > c.send.available() {
                return Ok(SendStep::Wait(payload));
            },
            None => {},
        }
        let mut c = self.take_live(port);
        let _ = c.send.try_reserve(payload.len() as u64);
        let to = c.remote_port;
        self.put_back(port, c);
        Ok(SendStep::Sent(MultiplexMsg::Data { port: to, payload, last }))
    }

    /// Whether sending on `port` is over: the port holds no channel, the
    /// channel's sender has hung up, or the peer's receiver has closed.
    pub open spec fn sender_closed(&self, port: u32) -> bool {
        match self.slot(port) {
            None => true,
            Some(c) => c.local_done || c.send.spec_closed(),
        }
    }

    /// Whether `close_sender` on `port` has something to close.
    pub open spec fn sender_open(&self, port: u32) -> bool {
        &&& self.status() == MuxStatus::Running
        &&& self.slot(port) matches Some(c) && c.confirmed && !c.local_done
    }

    /// Whether `port` holds an open request that still awaits its answer.
    pub open spec fn awaiting_confirm(&self, port: u32) -> bool {
        self.slot(port) matches Some(c) && !c.confirmed && !c.local_done
    }

    /// Whether `close_receiver` on `port` has something to close.
    pub open spec fn receiver_open(&self, port: u32) -> bool {
        &&& self.status() == MuxStatus::Running
        &&& self.slot(port) matches Some(c) && c.confirmed && !c.recv_closed
    }

    /// Whether sending on `port` is over, or the multiplexer has ended.
    pub fn is_sender_closed(&self, port: u32) -> (r: bool)
        requires
            self.wf(),
        ensures
            r == (self.status() != MuxStatus::Running || self.sender_closed(port)),
    {
        match self.status {
            MuxStatus::Running => {},
            _ => return true,
        }
        match self.slot_ref(port) {
            Some(c) => c.local_done || c.send.is_closed(),
            None => true,
        }
    }

    /// Ends the sending side of `port`, on an explicit close as well as when
    /// a sender handle is dropped. On a running multiplexer with a confirmed
    /// channel whose sender had not hung up, the hangup for the peer is
    /// returned, and the port is freed when both directions have ended and
    /// the peer's receiver has closed; otherwise nothing changes.
    pub fn close_sender(&mut self, port: u32) -> (r: Option<MultiplexMsg>)
        requires
            old(self).wf(),
        ensures
            final(self).wf(),
            final(self).spec_cfg() == old(self).spec_cfg(),
            final(self).status() == old(self).status(),
            final(self).others_kept(old(self), port),
            !old(self).sender_open(port) ==> {
                &&& r is None
                &&& *final(self) == *old(self)
            },
            old(self).sender_open(port) ==> {
                let c = old(self).slot(port).unwrap();
                &&& r matches Some(MultiplexMsg::Hangup { port: to }) && to == c.remote_port
                &&& if c.remote_done && c.recv_closed && c.peer_recv_closed {
                    &&& final(self).slot(port) is None
                    &&& final(self).live() == old(self).live().remove(port)
                } else {
                    &&& final(self).live() == old(self).live()
                    &&& final(self).slot(port) matches Some(c2) && c2.local_done && c2.send.spec_closed()
                        && c2.recv == c.recv && c2.remote_port == c.remote_port && c2.confirmed
                        && c2.remote_done == c.remote_done && c2.recv_closed == c.recv_closed && c2.peer_recv_closed == c.peer_recv_closed
                }
            },
    {
        match self.status {
            MuxStatus::Running => {},
            _ => return None,
        }
        match self.slot_ref(port) {
            Some(c) => if !c.confirmed || c.local_done {
                return None;
            },
            None => return None,
        }
        let mut c = self.take_live(port);
        let to = c.remote_port;
        if c.remote_done && c.recv_closed && c.peer_recv_closed {
            self.release_hole(port);
        } else {
            c.local_done = true;
            c.send.close();
            self.put_back(port, c);
        }
        Some(MultiplexMsg::Hangup { port: to })
    }

    /// Takes the next chunk received on `port`, with the credit grant for
    /// the peer when enough has been consumed. The receive fails as
    /// `receive_error` says. A port without a channel, or whose receiver has
    /// closed, is at end of stream. Reaching end of stream closes the
    /// receiver and yields the notice of that for the peer; the port is
    /// freed once the peer can send nothing more on it, that is once it has
    /// hung up and closed its receiver and our sender has hung up.
    pub fn recv(&mut self, port: u32) -> (r: Result<(Pop, Option<MultiplexMsg>), ReceiveError>)
        requires
            old(self).wf(),
        ensures
            final(self).wf(),
            final(self).spec_cfg() == old(self).spec_cfg(),
            final(self).status() == old(self).status(),
            final(self).others_kept(old(self), port),
            receive_error(old(self).status()) matches Some(e) ==> {
                &&& r == Err::<(Pop, Option<MultiplexMsg>), ReceiveError>(e)
                &&& *final(self) == *old(self)
            },
            old(self).status() == MuxStatus::Running ==> match old(self).slot(port) {
                None => r matches Ok((Pop::EndOfStream, None)) && *final(self) == *old(self),
                Some(c) => if c.recv_closed {
                    r matches Ok((Pop::EndOfStream, None)) && *final(self) == *old(self)
                } else if c.recv.contents().len() == 0 {
                    if c.remote_done {
                        let done = c.local_done && c.peer_recv_closed;
                        &&& r matches Ok((Pop::EndOfStream, Some(MultiplexMsg::ReceiverClosed { port: to })))
                            && to == c.remote_port
                        &&& done ==> final(self).slot(port) is None
                            && final(self).live() == old(self).live().remove(port)
                        &&& !done ==> final(self).live() == old(self).live()
                        &&& !done ==> (final(self).slot(port) matches Some(c2) && c2.recv_closed
                            && c2.recv == c.recv && c2.send == c.send && c2.remote_port == c.remote_port
                            && c2.confirmed == c.confirmed && c2.remote_done && c2.local_done == c.local_done
                            && c2.peer_recv_closed == c.peer_recv_closed)
                    } else {
                        r matches Ok((Pop::Empty, None)) && *final(self) == *old(self)
                    }
                } else {
                    let used = c.recv.spec_consumed() + c.recv.contents()[0].len();
                    &&& final(self).live() == old(self).live()
                    &&& r matches Ok((Pop::Chunk(data, last), grant)) && data@ == c.recv.contents()[0]
                        && last == c.recv.last_flags()[0]
                        && (used >= c.recv.spec_threshold() ==> (grant matches Some(
                            MultiplexMsg::CreditGrant { port: to, amount }) && to == c.remote_port && amount == used))
                        && (used < c.recv.spec_threshold() ==> grant is None)
                    &&& final(self).slot(port) matches Some(c2)
                        && c2.recv.contents() == c.recv.contents().drop_first()
                        && c2.recv.last_flags() == c.recv.last_flags().drop_first()
                        && c2.send == c.send && c2.remote_port == c.remote_port && c2.confirmed == c.confirmed
                        && c2.local_done == c.local_done && c2.remote_done == c.remote_done && !c2.recv_closed
                },
            },
    {
        match self.status {
            MuxStatus::Running => {},
            MuxStatus::Terminated => return Err(ReceiveError::Terminated),
            MuxStatus::Failed(e) => return Err(ReceiveError::Failed(e)),
        }
        match self.slot_ref(port) {
            Some(c) => {
                if c.recv_closed {
                    return Ok((Pop::EndOfStream, None));
                }
                if c.recv.is_empty() && !c.remote_done {
                    return Ok((Pop::Empty, None));
                }
            },
            None => return Ok((Pop::EndOfStream, None)),
        }
        let mut c = self.take_live(port);
        if c.recv.is_empty() {
            let to = c.remote_port;
            if c.local_done && c.peer_recv_closed {
                self.release_hole(port);
            } else {
                c.recv_closed = true;
                self.put_back(port, c);
            }
            return Ok((Pop::EndOfStream, Some(MultiplexMsg::ReceiverClosed { port: to })));
        }
        let (item, grant) = c.recv.pop();
        match item {
            Pop::EndOfStream => {
                self.put_back(port, c);
                Ok((Pop::EndOfStream, None))
            },
            Pop::Empty => {
                self.put_back(port, c);
                Ok((Pop::Empty, None))
            },
            Pop::Chunk(data, last) => {
                let to = c.remote_port;
                self.put_back(port, c);
                if grant > 0 {
                    Ok((Pop::Chunk(data, last), Some(MultiplexMsg::CreditGrant { port: to, amount: grant })))
                } else {
                    Ok((Pop::Chunk(data, last), None))
                }
            },
        }
    }

    /// Closes the receiving side of `port`: later data is discarded and the
    /// peer's sender is told to stop. On a running multiplexer with a
    /// confirmed channel whose receiver was open, that notice is returned,
    /// and the port is freed when both directions have ended and the peer's
    /// receiver has closed; otherwise nothing changes.
    pub fn close_receiver(&mut self, port: u32) -> (r: Option<MultiplexMsg>)
        requires
            old(self).wf(),
        ensures
            final(self).wf(),
            final(self).spec_cfg() == old(self).spec_cfg(),
            final(self).status() == old(self).status(),
            final(self).others_kept(old(self), port),
            !old(self).receiver_open(port) ==> {
                &&& r is None
                &&& *final(self) == *old(self)
            },
            old(self).receiver_open(port) ==> {
                let c = old(self).slot(port).unwrap();
                &&& r matches Some(MultiplexMsg::ReceiverClosed { port: to }) && to == c.remote_port
                &&& if c.remote_done && c.local_done && c.peer_recv_closed {
                    &&& final(self).slot(port) is None
                    &&& final(self).live() == old(self).live().remove(port)
                } else {
                    &&& final(self).live() == old(self).live()
                    &&& final(self).slot(port) matches Some(c2) && c2.recv_closed
                        && c2.send == c.send && c2.remote_port == c.remote_port && c2.confirmed
                        && c2.remote_done == c.remote_done && c2.local_done == c.local_done
                }
            },
    {
        match self.status {
            MuxStatus::Running => {},
            _ => return None,
        }
        match self.slot_ref(port) {
            Some(c) => if !c.confirmed || c.recv_closed {
                return None;
            },
            None => return None,
        }
        let mut c = self.take_live(port);
        let to = c.remote_port;
        if c.remote_done && c.local_done && c.peer_recv_closed {
            self.release_hole(port);
        } else {
            c.recv_closed = true;
            self.put_back(port, c);
        }
        Some(MultiplexMsg::ReceiverClosed { port: to })
    }

    /// Gives up an open request that was not confirmed in time: the opener
    /// gets the timeout error and the channel is abandoned, its sender and
    /// receiver ended. The port stays in use until the peer answers, so
    /// that a late answer cannot reach a channel that reuses the port: a
    /// refusal then frees it, a confirmation winds the channel down. Any
    /// other port is left alone.
    pub fn connect_timed_out(&mut self, port: u32) -> (r: Option<ConnectError>)
        requires
            old(self).wf(),
        ensures
            final(self).wf(),
            final(self).spec_cfg() == old(self).spec_cfg(),
            final(self).status() == old(self).status(),
            final(self).others_kept(old(self), port),
            final(self).live() == old(self).live(),
            old(self).awaiting_confirm(port) ==> {
                let c = old(self).slot(port).unwrap();
                &&& r == Some(ConnectError::Timeout)
                &&& final(self).slot(port) matches Some(c2) && !c2.confirmed && c2.local_done
                    && c2.recv_closed && c2.send.spec_closed() && c2.recv == c.recv
                    && c2.remote_done == c.remote_done && c2.remote_port == c.remote_port
            },
            !old(self).awaiting_confirm(port) ==> {
                &&& r is None
                &&& *final(self) == *old(self)
            },
    {
        match self.slot_ref(port) {
            Some(c) => if c.confirmed || c.local_done {
                return None;
            },
            None => return None,
        }
        let mut c = self.take_live(port);
        c.local_done = true;
        c.recv_closed = true;
        c.send.close();
        self.put_back(port, c);
        Some(ConnectError::Timeout)
    }

    /// Records that the transport failed: a running multiplexer fails with
    /// a transport error, which every channel then reports.
    pub fn transport_failed(&mut self)
        requires
            old(self).wf(),
        ensures
            final(self).wf(),
            final(self).spec_cfg() == old(self).spec_cfg(),
            final(self).live() == old(self).live(),
            forall|q: u32| #[trigger] final(self).slot(q) == old(self).slot(q),
            old(self).status() == MuxStatus::Running ==> final(self).status() == MuxStatus::Failed(MultiplexError::Transport),
            old(self).status() != MuxStatus::Running ==> final(self).status() == old(self).status(),
    {
        if self.status == MuxStatus::Running {
            self.set_status(MuxStatus::Failed(MultiplexError::Transport));
        }
    }

    /// Shuts the multiplexer down: a running one ends normally and the
    /// goodbye for the peer is returned; one that has ended stays as it is.
    pub fn shutdown(&mut self) -> (r: Option<MultiplexMsg>)
        requires
            old(self).wf(),
        ensures
            final(self).wf(),
            final(self).spec_cfg() == old(self).spec_cfg(),
            final(self).live() == old(self).live(),
            forall|q: u32| #[trigger] final(self).slot(q) == old(self).slot(q),
            old(self).status() == MuxStatus::Running ==> {
                &&& final(self).status() == MuxStatus::Terminated
                &&& r matches Some(MultiplexMsg::Goodbye)
            },
            old(self).status() != MuxStatus::Running ==> {
                &&& final(self).status() == old(self).status()
                &&& r is None
            },
    {
        if self.status == MuxStatus::Running {
            self.set_status(MuxStatus::Terminated);
            Some(MultiplexMsg::Goodbye)
        } else {
            None
        }
    }
}


/// A fatal error reaches every channel: once the multiplexer has failed,
/// whether through a protocol violation that `handle` met or a transport
/// failure, every port's sends and receives and every open request fail
/// with that error, not only the channel that the bad message addressed.
pub proof fn lemma_failure_reaches_every_channel(m: Multiplexer, e: MultiplexError)
    requires
        m.status() == MuxStatus::Failed(e),
    ensures
        forall|port: u32| send_error(m.status(), #[trigger] m.slot(port)) == Some(SendError::Failed(e)),
        receive_error(m.status()) == Some(ReceiveError::Failed(e)),
        Multiplexer::connect_error(m.status()) == Some(ConnectError::Failed(e)),
{
}

/// A closed receiver stops its peer's sender: when the notice that
/// `close_receiver` returns reaches the peer and is handled, the peer's
/// sender on that channel counts as closed and its next send fails with the
/// closed-channel error, whether or not data was exchanged before.
pub proof fn lemma_receiver_close_stops_sender(a: Multiplexer, a2: Multiplexer, port: u32, ev: MuxEvent)
    requires
        a.status() == MuxStatus::Running,
        a.slot(port) is Some,
        !a.violation(MultiplexMsg::ReceiverClosed { port }),
        a.handled(&a2, MultiplexMsg::ReceiverClosed { port }, ev),
    ensures
        a2.sender_closed(port),
        send_error(a2.status(), a2.slot(port)) == Some(SendError::Closed),
{
}

/// A sender that hangs up, explicitly or by being dropped (both go through
/// `close_sender`), ends the peer's stream: once its hangup is handled, the
/// peer's channel keeps its pending data and is marked at end of stream, so
/// that `recv` yields that data and then end of stream.
pub proof fn lemma_hangup_ends_stream(b: Multiplexer, b2: Multiplexer, port: u32, ev: MuxEvent)
    requires
        b.status() == MuxStatus::Running,
        b.slot(port) matches Some(c) && !c.recv_closed,
        !b.violation(MultiplexMsg::Hangup { port }),
        b.handled(&b2, MultiplexMsg::Hangup { port }, ev),
    ensures
        b2.status() == MuxStatus::Running,
        b2.slot(port) matches Some(c2) && {
            &&& c2.remote_done && !c2.recv_closed && c2.recv.spec_eof()
            &&& c2.recv.contents() == b.slot(port).unwrap().recv.contents()
        },
{
}

/// Data arrives whole and in order: a data message handled on a channel
/// whose receiver is open joins the end of the pending chunks, after every
/// chunk received before it, with its bytes unchanged.
pub proof fn lemma_data_kept_in_order(
    b: Multiplexer,
    b2: Multiplexer,
    port: u32,
    payload: Vec<u8>,
    last: bool,
    ev: MuxEvent,
)
    requires
        b.status() == MuxStatus::Running,
        b.slot(port) matches Some(c) && !c.recv_closed,
        !b.violation(MultiplexMsg::Data { port, payload, last }),
        b.handled(&b2, MultiplexMsg::Data { port, payload, last }, ev),
    ensures
        b2.slot(port) matches Some(c2) && {
            let before = b.slot(port).unwrap().recv.contents();
            &&& c2.recv.contents().len() == before.len() + 1
            &&& forall|i: int| 0 <= i < before.len() ==> c2.recv.contents()[i] == before[i]
            &&& c2.recv.contents().last() == payload@
        },
{
}

/// A send that waits for credit goes through once enough credit arrives:
/// if `n` bytes exceed the channel's credit, so that `send` hands the
/// payload back, then after the peer's grant of `amount` bytes is handled,
/// with `n` within the new credit, a reservation of `n` bytes succeeds.
pub proof fn lemma_grant_releases_send(a: Multiplexer, a2: Multiplexer, port: u32, amount: u64, n: nat, ev: MuxEvent)
    requires
        a.status() == MuxStatus::Running,
        a.slot(port) matches Some(c) && c.send.spec_available() < n <= c.send.spec_available() + amount,
        !a.violation(MultiplexMsg::CreditGrant { port, amount }),
        a.handled(&a2, MultiplexMsg::CreditGrant { port, amount }, ev),
    ensures
        !reserve_ok(a.slot(port).unwrap().send.spec_available(), false, n),
        a2.slot(port) matches Some(c2) && reserve_ok(c2.send.spec_available(), false, n),
{
}

} // verus!
