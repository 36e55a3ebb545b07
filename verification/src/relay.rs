//! The bidirectional byte relay pairing one local connection with one
//! SSH channel.
//!
//! The relay repeatedly waits for readiness on either side; whichever side
//! yields bytes first has them written, unchanged and in order, to the
//! other side. A zero-length read (orderly end of stream), a read error, or
//! a write failure on either side stops the relay, after which the
//! embedding program drops both the local stream and the channel, closing
//! their sockets. The relay itself never reorders, drops, or invents bytes;
//! the two directions are independent streams.
//!
//! The embedding program performs the reads and writes and feeds what it
//! observed in as events; each step answers with the write (or the stop)
//! that must follow.

use vstd::prelude::*;

verus! {

/// What one wait on the two sides observed (bytes as abstract sequences).
pub enum RelayIo {
    /// The local stream yielded these bytes (empty means end of stream).
    LocalBytes(Seq<u8>),
    /// The channel yielded these bytes (empty means end of stream).
    RemoteBytes(Seq<u8>),
    /// Reading the local stream failed.
    LocalReadFailed,
    /// Reading the channel failed.
    RemoteReadFailed,
    /// Writing to the local stream failed.
    LocalWriteFailed,
    /// Writing to the channel failed.
    RemoteWriteFailed,
}

/// One relay's history: the bytes handed to each side so far, in order,
/// and whether the relay is still live.
pub struct RelayModel {
    /// Every byte written to the channel, in the order it was read from
    /// the local stream.
    pub to_remote: Seq<u8>,
    /// Every byte written to the local stream, in the order it was read
    /// from the channel.
    pub to_local: Seq<u8>,
    /// False once either side has ended, after which nothing moves.
    pub running: bool,
}

/// The relay a freshly paired connection starts with.
pub open spec fn relay_init() -> RelayModel {
    RelayModel { to_remote: Seq::empty(), to_local: Seq::empty(), running: true }
}

/// Whether this observation stops the relay: an end of stream, a read
/// error, or a write failure on either side.
pub open spec fn io_stops(io: RelayIo) -> bool {
    match io {
        RelayIo::LocalBytes(b) => b.len() == 0,
        RelayIo::RemoteBytes(b) => b.len() == 0,
        RelayIo::LocalReadFailed => true,
        RelayIo::RemoteReadFailed => true,
        RelayIo::LocalWriteFailed => true,
        RelayIo::RemoteWriteFailed => true,
    }
}

/// One relay transition: bytes read from a side extend, unchanged, the
/// transcript bound for the other side; anything else stops the relay; a
/// stopped relay absorbs every further observation unchanged.
pub open spec fn relay_model_step(m: RelayModel, io: RelayIo) -> RelayModel {
    if !m.running {
        m
    } else {
        match io {
            RelayIo::LocalBytes(b) => if b.len() > 0 {
                RelayModel { to_remote: m.to_remote + b, to_local: m.to_local, running: true }
            } else {
                RelayModel { to_remote: m.to_remote, to_local: m.to_local, running: false }
            },
            RelayIo::RemoteBytes(b) => if b.len() > 0 {
                RelayModel { to_remote: m.to_remote, to_local: m.to_local + b, running: true }
            } else {
                RelayModel { to_remote: m.to_remote, to_local: m.to_local, running: false }
            },
            _ => RelayModel { to_remote: m.to_remote, to_local: m.to_local, running: false },
        }
    }
}

/// Runs a relay through a sequence of observations.
pub open spec fn run_relay(m: RelayModel, ios: Seq<RelayIo>) -> RelayModel
    decreases ios.len(),
{
    if ios.len() == 0 {
        m
    } else {
        run_relay(relay_model_step(m, ios.first()), ios.drop_first())
    }
}

/// What one wait on the two sides observed (bytes in hand).
#[derive(Debug)]
pub enum RelayEvent {
    /// n > 0 bytes read from the local stream.
    LocalData(Vec<u8>),
    /// n > 0 bytes read from the channel.
    RemoteData(Vec<u8>),
    /// The local stream ended (zero-length read) or its read failed.
    LocalClosed,
    /// The channel ended (zero-length read) or its read failed.
    RemoteClosed,
    /// Writing to the local stream failed.
    LocalWriteFailed,
    /// Writing to the channel failed.
    RemoteWriteFailed,
}

/// What the observation means for the relay's history. A closed side
/// stands for an end of stream; the model does not care whether it was a
/// zero-length read or a read error, both stop the relay.
pub open spec fn io_of(ev: RelayEvent) -> RelayIo {
    match ev {
        RelayEvent::LocalData(b) => RelayIo::LocalBytes(b@),
        RelayEvent::RemoteData(b) => RelayIo::RemoteBytes(b@),
        RelayEvent::LocalClosed => RelayIo::LocalReadFailed,
        RelayEvent::RemoteClosed => RelayIo::RemoteReadFailed,
        RelayEvent::LocalWriteFailed => RelayIo::LocalWriteFailed,
        RelayEvent::RemoteWriteFailed => RelayIo::RemoteWriteFailed,
    }
}

/// What must happen next on the wire.
#[derive(Debug)]
pub enum RelayAction {
    /// Write exactly these bytes to the channel, then wait again.
    WriteRemote(Vec<u8>),
    /// Write exactly these bytes to the local stream, then wait again.
    WriteLocal(Vec<u8>),
    /// Stop: drop the local stream and the channel, closing both sockets.
    Stop,
}

/// One live relay: its liveness flag and its history.
pub struct Relay {
    pub running: bool,
    pub model: Ghost<RelayModel>,
}

impl Relay {
    /// The liveness flag agrees with the history.
    pub open spec fn wf(self) -> bool {
        self.running == self.model@.running
    }

    /// Pairs a freshly accepted connection with its channel: nothing has
    /// moved yet, both directions are live.
    pub fn new() -> (r: Relay)
        ensures
            r.wf(),
            r.model@ == relay_init(),
    {
        Relay { running: true, model: Ghost(relay_init()) }
    }

    /// Services one observation: bytes from one side are answered with the
    /// write of exactly those bytes to the other side; an end of stream, a
    /// read error, or a write failure is answered with Stop. The history
    /// advances by exactly this observation.
    pub fn step(&mut self, ev: RelayEvent) -> (a: RelayAction)
        requires
            old(self).wf(),
            old(self).running,
            (ev matches RelayEvent::LocalData(b) ==> b@.len() > 0),
            (ev matches RelayEvent::RemoteData(b) ==> b@.len() > 0),
        ensures
            final(self).wf(),
            final(self).model@ == relay_model_step(old(self).model@, io_of(ev)),
            match ev {
                RelayEvent::LocalData(b) => (a matches RelayAction::WriteRemote(w) && w@ == b@)
                    && final(self).running,
                RelayEvent::RemoteData(b) => (a matches RelayAction::WriteLocal(w) && w@ == b@)
                    && final(self).running,
                RelayEvent::LocalClosed => a is Stop && !final(self).running,
                RelayEvent::RemoteClosed => a is Stop && !final(self).running,
                RelayEvent::LocalWriteFailed => a is Stop && !final(self).running,
                RelayEvent::RemoteWriteFailed => a is Stop && !final(self).running,
            },
    {
        let ghost m0 = self.model@;
        let ghost io = io_of(ev);
        self.model = Ghost(relay_model_step(m0, io));
        match ev {
            RelayEvent::LocalData(b) => RelayAction::WriteRemote(b),
            RelayEvent::RemoteData(b) => RelayAction::WriteLocal(b),
            RelayEvent::LocalClosed => {
                self.running = false;
                RelayAction::Stop
            },
            RelayEvent::RemoteClosed => {
                self.running = false;
                RelayAction::Stop
            },
            RelayEvent::LocalWriteFailed => {
                self.running = false;
                RelayAction::Stop
            },
            RelayEvent::RemoteWriteFailed => {
                self.running = false;
                RelayAction::Stop
            },
        }
    }
}

/// A stopped relay moves nothing, whatever is still observed: its
/// transcripts and its liveness never change again.
pub proof fn lemma_stopped_absorbs(m: RelayModel, ios: Seq<RelayIo>)
    requires
        !m.running,
    ensures
        run_relay(m, ios) == m,
    decreases ios.len(),
{
    if ios.len() > 0 {
        lemma_stopped_absorbs(relay_model_step(m, ios.first()), ios.drop_first());
    }
}

/// Whether every observation in a run carries bytes: neither side ends,
/// errors, or fails a write anywhere in it.
pub open spec fn all_data(ios: Seq<RelayIo>) -> bool {
    forall|k: int| 0 <= k < ios.len() ==> !io_stops(#[trigger] ios[k])
}

/// The bytes the local stream yielded over a run, in reading order.
pub open spec fn local_payloads(ios: Seq<RelayIo>) -> Seq<u8>
    decreases ios.len(),
{
    if ios.len() == 0 {
        Seq::empty()
    } else {
        (match ios.first() {
            RelayIo::LocalBytes(b) => b,
            _ => Seq::empty(),
        }) + local_payloads(ios.drop_first())
    }
}

/// The bytes the channel yielded over a run, in reading order.
pub open spec fn remote_payloads(ios: Seq<RelayIo>) -> Seq<u8>
    decreases ios.len(),
{
    if ios.len() == 0 {
        Seq::empty()
    } else {
        (match ios.first() {
            RelayIo::RemoteBytes(b) => b,
            _ => Seq::empty(),
        }) + remote_payloads(ios.drop_first())
    }
}

/// Over any run in which neither side ends, the relay forwards exactly
/// what was read: each side's transcript grows by precisely the bytes the
/// other side yielded, byte-for-byte and in reading order, and the two
/// directions never interleave into one another.
pub proof fn lemma_relay_forwards_exactly(m: RelayModel, ios: Seq<RelayIo>)
    requires
        m.running,
        all_data(ios),
    ensures
        run_relay(m, ios).running,
        run_relay(m, ios).to_remote == m.to_remote + local_payloads(ios),
        run_relay(m, ios).to_local == m.to_local + remote_payloads(ios),
    decreases ios.len(),
{
    if ios.len() == 0 {
        assert(m.to_remote + local_payloads(ios) =~= m.to_remote);
        assert(m.to_local + remote_payloads(ios) =~= m.to_local);
    } else {
        let io = ios.first();
        let rest = ios.drop_first();
        let m1 = relay_model_step(m, io);
        assert(!io_stops(io));
        assert(all_data(rest)) by {
            assert(forall|k: int| 0 <= k < rest.len() ==> rest[k] == ios[k + 1]);
        }
        lemma_relay_forwards_exactly(m1, rest);
        match io {
            RelayIo::LocalBytes(b) => {
                assert((m.to_remote + b) + local_payloads(rest) =~= m.to_remote + (b
                    + local_payloads(rest)));
                assert(m.to_local + (Seq::<u8>::empty() + remote_payloads(rest)) =~= m.to_local
                    + remote_payloads(rest));
            }
            RelayIo::RemoteBytes(b) => {
                assert((m.to_local + b) + remote_payloads(rest) =~= m.to_local + (b
                    + remote_payloads(rest)));
                assert(m.to_remote + (Seq::<u8>::empty() + local_payloads(rest)) =~= m.to_remote
                    + local_payloads(rest));
            }
            _ => {}
        }
    }
}

/// Bytes are forwarded byte-for-byte and in order, each direction
/// independently: two successive local reads extend the remote-bound
/// transcript by exactly their payloads, concatenated in reading order,
/// and leave the local-bound transcript untouched.
pub proof fn lemma_local_bytes_in_order(m: RelayModel, a: Seq<u8>, b: Seq<u8>)
    requires
        m.running,
        a.len() > 0,
        b.len() > 0,
    ensures
        ({
            let end = run_relay(m, seq![RelayIo::LocalBytes(a), RelayIo::LocalBytes(b)]);
            end.to_remote == m.to_remote + a + b && end.to_local == m.to_local && end.running
        }),
{
    let ios = seq![RelayIo::LocalBytes(a), RelayIo::LocalBytes(b)];
    reveal_with_fuel(run_relay, 3);
    assert(ios.drop_first() =~= seq![RelayIo::LocalBytes(b)]);
    assert(ios.drop_first().drop_first() =~= Seq::<RelayIo>::empty());
}

/// The mirror image: two successive channel reads extend the local-bound
/// transcript by exactly their payloads, in order, and leave the
/// remote-bound transcript untouched.
pub proof fn lemma_remote_bytes_in_order(m: RelayModel, a: Seq<u8>, b: Seq<u8>)
    requires
        m.running,
        a.len() > 0,
        b.len() > 0,
    ensures
        ({
            let end = run_relay(m, seq![RelayIo::RemoteBytes(a), RelayIo::RemoteBytes(b)]);
            end.to_local == m.to_local + a + b && end.to_remote == m.to_remote && end.running
        }),
{
    let ios = seq![RelayIo::RemoteBytes(a), RelayIo::RemoteBytes(b)];
    reveal_with_fuel(run_relay, 3);
    assert(ios.drop_first() =~= seq![RelayIo::RemoteBytes(b)]);
    assert(ios.drop_first().drop_first() =~= Seq::<RelayIo>::empty());
}

/// When either side ends — a zero-length read, a read error, or a write
/// failure — the relay stops for good: no byte moves in either direction
/// afterwards, whatever is still observed. The embedding program drops
/// both the local stream and the channel on Stop, releasing both sockets.
pub proof fn lemma_close_stops_both_directions(m: RelayModel, io: RelayIo, rest: Seq<RelayIo>)
    requires
        m.running,
        io_stops(io),
    ensures
        !relay_model_step(m, io).running,
        relay_model_step(m, io).to_remote == m.to_remote,
        relay_model_step(m, io).to_local == m.to_local,
        run_relay(m, seq![io] + rest) == relay_model_step(m, io),
{
    let stopped = relay_model_step(m, io);
    assert((seq![io] + rest).first() == io);
    assert((seq![io] + rest).drop_first() =~= rest);
    lemma_stopped_absorbs(stopped, rest);
}

} // verus!
