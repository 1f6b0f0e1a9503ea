//! Sessions: the control datagrams of peers, the table of active sessions, and
//! the decisions of a session's input relay.
use vstd::prelude::*;

use crate::device::{
    assign_at, has_free, is_first_free, is_free, release_all, released, DSType, DeviceRegistry, DSGamepad,
    PeerAddr,
};
use crate::input::{battery_level, canonical_frame, decodable, decode, lemma_frame_reproduces_layout};
use crate::output::{after_encode, apply_command, encode, ControlRelay, ControlType};

verus! {

/// The opcode of a request for a session.
pub const OP_CONNECT: u8 = 0;

/// The opcode of a rumble command.
pub const OP_SEND_COMMAND: u8 = 1;

/// The opcode of a request to end a session.
pub const OP_DISCONNECT: u8 = 2;

/// The datagram that tells a peer that its controller is gone.
pub const DEVICE_LOST: u8 = 0x77;

/// A control datagram of a peer.
#[derive(Clone, Copy, Debug, PartialEq, Eq, Structural)]
pub enum Request {
    Connect,
    SendCommand { large: u8, small: u8 },
    Disconnect,
}

/// Why a control datagram was refused.
#[derive(Clone, Copy, Debug, PartialEq, Eq, Structural)]
pub enum ProtocolError {
    /// The datagram holds no byte.
    Empty,
    /// A rumble command without its two intensities.
    Truncated,
    /// The first byte is no known opcode.
    UnknownOpcode(u8),
}

/// What a control datagram asks for.
pub open spec fn request_of(d: Seq<u8>) -> Result<Request, ProtocolError> {
    if d.len() == 0 {
        Err(ProtocolError::Empty)
    } else if d[0] == OP_CONNECT {
        Ok(Request::Connect)
    } else if d[0] == OP_SEND_COMMAND {
        if d.len() < 3 {
            Err(ProtocolError::Truncated)
        } else {
            Ok(Request::SendCommand { large: d[1], small: d[2] })
        }
    } else if d[0] == OP_DISCONNECT {
        Ok(Request::Disconnect)
    } else {
        Err(ProtocolError::UnknownOpcode(d[0]))
    }
}

/// Reads a control datagram.
pub fn decode_request(d: &[u8]) -> (r: Result<Request, ProtocolError>)
    ensures
        r == request_of(d@),
{
    if d.len() == 0 {
        return Err(ProtocolError::Empty);
    }
    match d[0] {
        OP_CONNECT => Ok(Request::Connect),
        OP_SEND_COMMAND => {
            if d.len() < 3 {
                Err(ProtocolError::Truncated)
            } else {
                Ok(Request::SendCommand { large: d[1], small: d[2] })
            }
        },
        OP_DISCONNECT => Ok(Request::Disconnect),
        op => Err(ProtocolError::UnknownOpcode(op)),
    }
}

/// The datagram that carries a request.
pub open spec fn request_bytes(req: Request) -> Seq<u8> {
    match req {
        Request::Connect => seq![OP_CONNECT],
        Request::SendCommand { large, small } => seq![OP_SEND_COMMAND, large, small],
        Request::Disconnect => seq![OP_DISCONNECT],
    }
}

/// Writes a request as a control datagram; reading it back gives the request.
pub fn encode_request(req: Request) -> (r: Vec<u8>)
    ensures
        r@ == request_bytes(req),
        request_of(r@) == Ok::<Request, ProtocolError>(req),
{
    let mut d: Vec<u8> = Vec::with_capacity(3);
    match req {
        Request::Connect => d.push(OP_CONNECT),
        Request::SendCommand { large, small } => {
            d.push(OP_SEND_COMMAND);
            d.push(large);
            d.push(small);
        },
        Request::Disconnect => d.push(OP_DISCONNECT),
    }
    assert(d@ =~= request_bytes(req));
    d
}

/// The peers that hold a session.
pub open spec fn peers<H>(ss: Seq<(PeerAddr, H)>) -> Set<PeerAddr> {
    Set::new(|p: PeerAddr| exists|i: int| 0 <= i < ss.len() && ss[i].0 == p)
}

/// Whether no peer holds two sessions.
pub open spec fn peers_unique<H>(ss: Seq<(PeerAddr, H)>) -> bool {
    forall|i: int, j: int| 0 <= i < j < ss.len() ==> ss[i].0 != ss[j].0
}

/// The first free controller of a registry that has one.
pub open spec fn first_free_index(reg: Seq<(String, DSGamepad)>) -> int {
    choose|i: int| is_first_free(reg, i)
}

/// Whether a request for a session from `src` is granted: it holds none yet and
/// a controller is free.
pub open spec fn connect_grants(reg: Seq<(String, DSGamepad)>, active: Set<PeerAddr>, src: PeerAddr) -> bool {
    !active.contains(src) && has_free(reg)
}

/// The registry after a request for a session from `src`: the first free
/// controller is assigned to it when the request is granted.
pub open spec fn registry_after_connect(
    reg: Seq<(String, DSGamepad)>,
    active: Set<PeerAddr>,
    src: PeerAddr,
) -> Seq<(String, DSGamepad)> {
    if connect_grants(reg, active, src) {
        assign_at(reg, first_free_index(reg), src)
    } else {
        reg
    }
}

/// A registry with a free controller has a first one.
pub proof fn lemma_first_free_exists(reg: Seq<(String, DSGamepad)>)
    requires
        has_free(reg),
    ensures
        is_first_free(reg, first_free_index(reg)),
{
    let w = choose|w: int| 0 <= w < reg.len() && (reg[w].1.used_by is None);
    lemma_free_below(reg, w);
}

proof fn lemma_free_below(reg: Seq<(String, DSGamepad)>, w: int)
    requires
        0 <= w < reg.len(),
        reg[w].1.used_by is None,
    ensures
        exists|i: int| is_first_free(reg, i),
    decreases w,
{
    if exists|j: int| 0 <= j < w && (reg[j].1.used_by is None) {
        let j = choose|j: int| 0 <= j < w && (reg[j].1.used_by is None);
        lemma_free_below(reg, j);
    } else {
        assert(is_first_free(reg, w));
    }
}

/// What the receive loop does after a control datagram.
pub enum Action<H> {
    /// Nothing.
    Ignore,
    /// The peer was assigned a controller: open its device file and start a session.
    Open { variant: DSType, hidraw_path: String },
    /// Queue the command on the peer's session.
    Forward(ControlType),
    /// The peer's session ended: cancel its workers.
    Close(H),
    /// The datagram breaks the protocol; it changed nothing.
    Reject(ProtocolError),
}

/// The active sessions, keyed by peer address, each with a handle on its workers.
/// Only the receive loop reads or changes it.
pub struct SessionManager<H> {
    sessions: Vec<(PeerAddr, H)>,
}

impl<H> View for SessionManager<H> {
    type V = Seq<(PeerAddr, H)>;

    closed spec fn view(&self) -> Seq<(PeerAddr, H)> {
        self.sessions@
    }
}

impl<H> SessionManager<H> {
    /// No peer holds two sessions.
    pub open spec fn wf(&self) -> bool {
        peers_unique(self@)
    }

    pub fn new() -> (r: SessionManager<H>)
        ensures
            r.wf(),
            r@ == Seq::<(PeerAddr, H)>::empty(),
    {
        SessionManager { sessions: Vec::new() }
    }

    pub fn len(&self) -> (r: usize)
        ensures
            r == self@.len(),
    {
        self.sessions.len()
    }

    fn position(&self, peer: &PeerAddr) -> (r: Option<usize>)
        ensures
            r is None ==> !peers(self@).contains(*peer),
            r is Some ==> r->Some_0 < self@.len() && self@[r->Some_0 as int].0 == *peer,
    {
        let mut i: usize = 0;
        while i < self.sessions.len()
            invariant
                i <= self@.len(),
                forall|j: int| 0 <= j < i ==> self@[j].0 != *peer,
            decreases self@.len() - i,
        {
            if self.sessions[i].0 == *peer {
                return Some(i);
            }
            i = i + 1;
        }
        None
    }

    /// Whether the peer holds a session.
    pub fn contains(&self, peer: &PeerAddr) -> (r: bool)
        ensures
            r == peers(self@).contains(*peer),
    {
        self.position(peer).is_some()
    }

    /// The handle of the peer's session.
    pub fn session(&self, peer: &PeerAddr) -> (r: Option<&H>)
        ensures
            !peers(self@).contains(*peer) ==> r is None,
            forall|i: int| 0 <= i < self@.len() && self@[i].0 == *peer ==> (self.wf() ==> r == Some(&self@[i].1)),
    {
        match self.position(peer) {
            Some(i) => Some(&self.sessions[i].1),
            None => None,
        }
    }

    /// Records the session of a peer that was granted a controller.
    pub fn attach(&mut self, peer: PeerAddr, handle: H)
        requires
            old(self).wf(),
            !peers(old(self)@).contains(peer),
        ensures
            final(self).wf(),
            final(self)@ == old(self)@.push((peer, handle)),
            peers(final(self)@) == peers(old(self)@).insert(peer),
    {
        self.sessions.push((peer, handle));
        proof {
            let s = self@;
            assert(peers(s) =~= peers(old(self)@).insert(peer)) by {
                assert forall|p: PeerAddr| peers(s).contains(p) implies peers(old(self)@).insert(peer).contains(p) by {
                    let i = choose|i: int| 0 <= i < s.len() && s[i].0 == p;
                    if i < old(self)@.len() {
                        assert(old(self)@[i].0 == p);
                    }
                }
                assert forall|p: PeerAddr| peers(old(self)@).insert(peer).contains(p) implies peers(s).contains(p) by {
                    if p == peer {
                        assert(s[s.len() - 1].0 == p);
                    } else {
                        let i = choose|i: int| 0 <= i < old(self)@.len() && old(self)@[i].0 == p;
                        assert(s[i].0 == p);
                    }
                }
            }
        }
    }

    /// A request for a session: when the peer holds none and a controller is free,
    /// the first free controller is assigned to it and its kind and device file
    /// returned; else nothing changes.
    pub fn connect(&mut self, registry: &mut DeviceRegistry, src: PeerAddr) -> (r: Option<(DSType, String)>)
        requires
            old(registry).wf(),
        ensures
            final(registry).wf(),
            final(self)@ == old(self)@,
            final(registry)@ == registry_after_connect(old(registry)@, peers(old(self)@), src),
            connect_grants(old(registry)@, peers(old(self)@), src) <==> r is Some,
            r is Some ==> {
                let g = old(registry)@[first_free_index(old(registry)@)].1;
                r->Some_0.0 == g.gamepad_type && r->Some_0.1@ == g.hidraw_path@
            },
    {
        if self.contains(&src) {
            return None;
        }
        proof {
            if has_free(registry@) {
                lemma_first_free_exists(registry@);
            }
        }
        registry.assign_first_free(src)
    }

    /// Ends the peer's session, if it holds one, and takes back every controller
    /// assigned to it.
    pub fn disconnect(&mut self, registry: &mut DeviceRegistry, src: PeerAddr) -> (r: Option<H>)
        requires
            old(self).wf(),
            old(registry).wf(),
        ensures
            final(self).wf(),
            final(registry).wf(),
            final(registry)@ == release_all(old(registry)@, src),
            peers(final(self)@) == peers(old(self)@).remove(src),
            !peers(old(self)@).contains(src) ==> r is None && final(self)@ == old(self)@,
            forall|i: int|
                0 <= i < old(self)@.len() && old(self)@[i].0 == src ==> r == Some(old(self)@[i].1)
                    && final(self)@ == old(self)@.remove(i),
    {
        registry.release(src);
        match self.position(&src) {
            Some(i) => {
                let ghost before = self@;
                let (_, h) = self.sessions.remove(i);
                proof {
                    let s = self@;
                    assert forall|a: int, b: int| 0 <= a < b < s.len() implies s[a].0 != s[b].0 by {
                        let oa = if a < i { a } else { a + 1 };
                        let ob = if b < i { b } else { b + 1 };
                        assert(s[a] == before[oa]);
                        assert(s[b] == before[ob]);
                    }
                    assert(peers(s) =~= peers(before).remove(src)) by {
                        assert forall|p: PeerAddr| peers(s).contains(p) implies peers(before).remove(src).contains(p) by {
                            let k = choose|k: int| 0 <= k < s.len() && s[k].0 == p;
                            let ok = if k < i { k } else { k + 1 };
                            assert(before[ok].0 == p);
                            assert(ok != i);
                        }
                        assert forall|p: PeerAddr| peers(before).remove(src).contains(p) implies peers(s).contains(p) by {
                            let k = choose|k: int| 0 <= k < before.len() && before[k].0 == p;
                            assert(k != i);
                            let nk = if k < i { k } else { k - 1 };
                            assert(s[nk].0 == p);
                        }
                    }
                    assert forall|k: int| 0 <= k < before.len() && before[k].0 == src implies k == i by {}
                }
                Some(h)
            },
            None => {
                assert(peers(self@) =~= peers(self@).remove(src));
                None
            },
        }
    }

    /// Handles one control datagram of `src`: a request for a session, a rumble
    /// command for its session, or the end of its session.
    pub fn handle_datagram(&mut self, registry: &mut DeviceRegistry, src: PeerAddr, d: &[u8]) -> (r:
        Action<H>)
        requires
            old(self).wf(),
            old(registry).wf(),
        ensures
            final(self).wf(),
            final(registry).wf(),
            match request_of(d@) {
                Err(e) => {
                    &&& r == Action::<H>::Reject(e)
                    &&& final(self)@ == old(self)@
                    &&& final(registry)@ == old(registry)@
                },
                Ok(Request::Connect) => {
                    &&& final(self)@ == old(self)@
                    &&& final(registry)@ == registry_after_connect(
                        old(registry)@,
                        peers(old(self)@),
                        src,
                    )
                    &&& !connect_grants(old(registry)@, peers(old(self)@), src) ==> r is Ignore
                    &&& connect_grants(old(registry)@, peers(old(self)@), src) ==> {
                        let g = old(registry)@[first_free_index(old(registry)@)].1;
                        &&& r is Open
                        &&& r->variant == g.gamepad_type
                        &&& r->hidraw_path@ == g.hidraw_path@
                    }
                },
                Ok(Request::SendCommand { large, small }) => {
                    &&& final(self)@ == old(self)@
                    &&& final(registry)@ == old(registry)@
                    &&& peers(old(self)@).contains(src) ==> r == Action::<H>::Forward(
                        ControlType::Rumble { large, small },
                    )
                    &&& !peers(old(self)@).contains(src) ==> r is Ignore
                },
                Ok(Request::Disconnect) => {
                    &&& final(registry)@ == release_all(old(registry)@, src)
                    &&& peers(final(self)@) == peers(old(self)@).remove(src)
                    &&& !peers(old(self)@).contains(src) ==> r is Ignore && final(self)@ == old(self)@
                    &&& forall|i: int|
                        0 <= i < old(self)@.len() && old(self)@[i].0 == src ==> r == Action::<H>::Close(
                            old(self)@[i].1,
                        ) && final(self)@ == old(self)@.remove(i)
                },
            },
    {
        match decode_request(d) {
            Err(e) => Action::Reject(e),
            Ok(Request::Connect) => match self.connect(registry, src) {
                Some((variant, hidraw_path)) => Action::Open { variant, hidraw_path },
                None => Action::Ignore,
            },
            Ok(Request::SendCommand { large, small }) => {
                if self.contains(&src) {
                    Action::Forward(ControlType::Rumble { large, small })
                } else {
                    Action::Ignore
                }
            },
            Ok(Request::Disconnect) => {
                let ghost before = self@;
                let ended = self.disconnect(registry, src);
                proof {
                    if peers(before).contains(src) {
                        let i = choose|i: int| 0 <= i < before.len() && before[i].0 == src;
                        assert(self@ == before.remove(i));
                    }
                }
                match ended {
                    Some(h) => Action::Close(h),
                    None => Action::Ignore,
                }
            },
        }
    }
}

/// The input side of a session: the controller kind, the last battery level
/// that was reported, and whether the relay has stopped.
#[derive(Clone, Copy, Debug, PartialEq, Eq, Structural)]
pub struct InputRelay {
    pub variant: DSType,
    pub last_battery: u8,
    pub stopped: bool,
}

/// What the input relay does after a read from the device.
#[derive(Debug)]
pub enum InputAction {
    /// Queue the battery command, if any, then send the frame to the peer.
    Send { frame: Vec<u8>, command: Option<ControlType> },
    /// Send the device-lost datagram to the peer and stop the session.
    Sentinel,
    /// The relay has stopped: do nothing more.
    Idle,
}

/// A read result: the bytes read, or none when the read failed.
pub open spec fn read_view(read: Option<&[u8]>) -> Option<Seq<u8>> {
    match read {
        Some(b) => Some(b@),
        None => None,
    }
}

/// Whether a read gave a report that decodes.
pub open spec fn read_ok(s: InputRelay, read: Option<Seq<u8>>) -> bool {
    read is Some && decodable(s.variant, read->Some_0)
}

/// The relay's state after a read.
pub open spec fn step_state(s: InputRelay, read: Option<Seq<u8>>) -> InputRelay {
    if s.stopped {
        s
    } else if !read_ok(s, read) {
        InputRelay { stopped: true, ..s }
    } else {
        InputRelay { last_battery: battery_level(s.variant, read->Some_0), ..s }
    }
}

/// The datagram that the relay sends to the peer after a read.
pub open spec fn step_datagram(s: InputRelay, read: Option<Seq<u8>>) -> Option<Seq<u8>> {
    if s.stopped {
        None
    } else if !read_ok(s, read) {
        Some(seq![DEVICE_LOST])
    } else {
        Some(canonical_frame(s.variant, read->Some_0))
    }
}

/// The command that the relay queues after a read: the battery level, when it
/// changed.
pub open spec fn step_command(s: InputRelay, read: Option<Seq<u8>>) -> Option<ControlType> {
    if s.stopped || !read_ok(s, read) {
        None
    } else if battery_level(s.variant, read->Some_0) != s.last_battery {
        Some(ControlType::Battery(battery_level(s.variant, read->Some_0)))
    } else {
        None
    }
}

/// The datagram that an action sends.
pub open spec fn action_datagram(a: InputAction) -> Option<Seq<u8>> {
    match a {
        InputAction::Send { frame, .. } => Some(frame@),
        InputAction::Sentinel => Some(seq![DEVICE_LOST]),
        InputAction::Idle => None,
    }
}

/// The command that an action queues.
pub open spec fn action_command(a: InputAction) -> Option<ControlType> {
    match a {
        InputAction::Send { command, .. } => command,
        _ => None,
    }
}

impl InputRelay {
    /// A running relay that has reported no battery level yet.
    pub fn new(variant: DSType) -> (r: InputRelay)
        ensures
            r == (InputRelay { variant: variant, last_battery: 0, stopped: false }),
    {
        InputRelay { variant, last_battery: 0, stopped: false }
    }

    /// Decides what follows a read from the device: a report that decodes is sent
    /// on as a frame, with a battery command when the level changed; a failed read
    /// or a report that does not decode ends the relay with the device-lost datagram.
    pub fn step(&mut self, read: Option<&[u8]>) -> (r: InputAction)
        ensures
            *final(self) == step_state(*old(self), read_view(read)),
            old(self).stopped ==> r is Idle,
            !old(self).stopped && !read_ok(*old(self), read_view(read)) ==> r is Sentinel,
            !old(self).stopped && read_ok(*old(self), read_view(read)) ==> r is Send,
            action_datagram(r) == step_datagram(*old(self), read_view(read)),
            action_command(r) == step_command(*old(self), read_view(read)),
    {
        if self.stopped {
            return InputAction::Idle;
        }
        let decoded = match read {
            Some(raw) => decode(self.variant, raw),
            None => {
                self.stopped = true;
                return InputAction::Sentinel;
            },
        };
        match decoded {
            Ok(d) => {
                let command = if d.battery != self.last_battery {
                    self.last_battery = d.battery;
                    Some(ControlType::Battery(d.battery))
                } else {
                    None
                };
                InputAction::Send { frame: d.frame, command }
            },
            Err(_) => {
                self.stopped = true;
                InputAction::Sentinel
            },
        }
    }
}

/// A request for a session while no controller is free is not granted: no
/// session starts and the registry stays as it was.
pub proof fn lemma_connect_without_free_device(
    reg: Seq<(String, DSGamepad)>,
    active: Set<PeerAddr>,
    src: PeerAddr,
)
    requires
        !has_free(reg),
    ensures
        !connect_grants(reg, active, src),
        registry_after_connect(reg, active, src) == reg,
{
}

/// With exactly one free controller, a request for a session from a peer without
/// one is granted and assigns that controller to it; a request from another
/// peer is then ignored, until the controller is taken back.
pub proof fn lemma_connect_single_free_device(
    reg: Seq<(String, DSGamepad)>,
    active: Set<PeerAddr>,
    k: int,
    a: PeerAddr,
    b: PeerAddr,
)
    requires
        0 <= k < reg.len(),
        is_free(reg[k].1),
        forall|j: int| 0 <= j < reg.len() && is_free(reg[j].1) ==> j == k,
        !active.contains(a),
        !active.contains(b),
        a != b,
    ensures
        connect_grants(reg, active, a),
        registry_after_connect(reg, active, a)[k].1.used_by == Some(a),
        !connect_grants(registry_after_connect(reg, active, a), active.insert(a), b),
        registry_after_connect(registry_after_connect(reg, active, a), active.insert(a), b)
            == registry_after_connect(reg, active, a),
        connect_grants(
            release_all(registry_after_connect(reg, active, a), a),
            active.insert(a).remove(a),
            b,
        ),
{
    lemma_first_free_exists(reg);
    let reg1 = registry_after_connect(reg, active, a);
    assert(first_free_index(reg) == k);
    assert(!has_free(reg1)) by {
        if exists|j: int| 0 <= j < reg1.len() && is_free(reg1[j].1) {
            let j = choose|j: int| 0 <= j < reg1.len() && is_free(reg1[j].1);
            assert(j != k);
            assert(reg1[j] == reg[j]);
        }
    }
    let reg2 = release_all(reg1, a);
    assert(is_free(reg2[k].1));
    assert(!active.insert(a).remove(a).contains(b));
}

/// Ending a session takes back its controller: when the peer held no controller
/// before its request for a session, the request followed by the end of the
/// session leaves the registry and the set of sessions as they were, so the
/// controller is free for the next request.
pub proof fn lemma_disconnect_frees_device(
    reg: Seq<(String, DSGamepad)>,
    active: Set<PeerAddr>,
    a: PeerAddr,
)
    requires
        forall|j: int| 0 <= j < reg.len() ==> reg[j].1.used_by != Some(a),
        !active.contains(a),
    ensures
        release_all(registry_after_connect(reg, active, a), a) == reg,
        active.insert(a).remove(a) == active,
{
    let reg1 = registry_after_connect(reg, active, a);
    if connect_grants(reg, active, a) {
        lemma_first_free_exists(reg);
    }
    let reg2 = release_all(reg1, a);
    assert forall|j: int| 0 <= j < reg.len() implies reg2[j] == reg[j] by {
        if connect_grants(reg, active, a) && j == first_free_index(reg) {
            assert(reg[j].1.used_by is None);
            assert(reg2[j].1 == released(reg1[j].1, a));
        }
    }
    assert(reg2 =~= reg);
    assert(active.insert(a).remove(a) =~= active);
}

/// Once a peer's session has ended the peer holds no session, so a rumble
/// command from it is ignored.
pub proof fn lemma_no_dispatch_after_end<H>(ss: Seq<(PeerAddr, H)>, ended: Seq<(PeerAddr, H)>, a: PeerAddr)
    requires
        peers(ended) == peers(ss).remove(a),
    ensures
        !peers(ended).contains(a),
{
}

/// The relay's state after a run of reads.
pub open spec fn run_state(s: InputRelay, reads: Seq<Option<Seq<u8>>>) -> InputRelay
    decreases reads.len(),
{
    if reads.len() == 0 {
        s
    } else {
        step_state(run_state(s, reads.drop_last()), reads.last())
    }
}

/// The datagrams that the relay sends during a run of reads.
pub open spec fn run_datagrams(s: InputRelay, reads: Seq<Option<Seq<u8>>>) -> Seq<Seq<u8>>
    decreases reads.len(),
{
    if reads.len() == 0 {
        Seq::empty()
    } else {
        let before = run_datagrams(s, reads.drop_last());
        match step_datagram(run_state(s, reads.drop_last()), reads.last()) {
            Some(d) => before.push(d),
            None => before,
        }
    }
}

/// The commands that the relay queues during a run of reads.
pub open spec fn run_commands(s: InputRelay, reads: Seq<Option<Seq<u8>>>) -> Seq<ControlType>
    decreases reads.len(),
{
    if reads.len() == 0 {
        Seq::empty()
    } else {
        let before = run_commands(s, reads.drop_last());
        match step_command(run_state(s, reads.drop_last()), reads.last()) {
            Some(c) => before.push(c),
            None => before,
        }
    }
}

/// How many device-lost datagrams a list of datagrams holds.
pub open spec fn count_lost(ds: Seq<Seq<u8>>) -> nat
    decreases ds.len(),
{
    if ds.len() == 0 {
        0
    } else {
        count_lost(ds.drop_last()) + if ds.last() == seq![DEVICE_LOST] {
            1nat
        } else {
            0nat
        }
    }
}

proof fn lemma_run_lost(s: InputRelay, reads: Seq<Option<Seq<u8>>>)
    ensures
        run_state(s, reads).variant == s.variant,
        s.stopped ==> run_state(s, reads).stopped,
        count_lost(run_datagrams(s, reads)) == if run_state(s, reads).stopped && !s.stopped {
            1nat
        } else {
            0nat
        },
        (exists|k: int| 0 <= k < reads.len() && reads[k] is None) ==> run_state(s, reads).stopped,
    decreases reads.len(),
{
    if reads.len() > 0 {
        let p = reads.drop_last();
        lemma_run_lost(s, p);
        let st = run_state(s, p);
        let r = reads.last();
        if !st.stopped && read_ok(st, r) {
            lemma_frame_reproduces_layout(st.variant, r->Some_0);
            assert(canonical_frame(st.variant, r->Some_0) != seq![DEVICE_LOST]) by {
                assert(canonical_frame(st.variant, r->Some_0).len() != seq![DEVICE_LOST].len());
            }
        }
        let ds = run_datagrams(s, reads);
        match step_datagram(st, r) {
            Some(d) => assert(ds.drop_last() == run_datagrams(s, p)),
            None => {},
        }
        if exists|k: int| 0 <= k < reads.len() && reads[k] is None {
            let k = choose|k: int| 0 <= k < reads.len() && reads[k] is None;
            if k < reads.len() - 1 {
                assert(p[k] is None);
            }
        }
    }
}

/// A session's input relay sends at most one device-lost datagram, and once a
/// read from the device fails it has sent exactly one and has stopped.
pub proof fn lemma_single_sentinel(s: InputRelay, reads: Seq<Option<Seq<u8>>>)
    requires
        !s.stopped,
    ensures
        count_lost(run_datagrams(s, reads)) <= 1,
        (exists|k: int| 0 <= k < reads.len() && reads[k] is None) ==> run_state(s, reads).stopped
            && count_lost(run_datagrams(s, reads)) == 1,
{
    lemma_run_lost(s, reads);
}

/// The readings of a run that differ from the one before them, the first one
/// compared with `last`.
pub open spec fn battery_changes(last: u8, levels: Seq<u8>) -> Seq<u8>
    decreases levels.len(),
{
    if levels.len() == 0 {
        Seq::empty()
    } else {
        let prev = if levels.len() == 1 {
            last
        } else {
            levels[levels.len() - 2]
        };
        let before = battery_changes(last, levels.drop_last());
        if levels.last() != prev {
            before.push(levels.last())
        } else {
            before
        }
    }
}

/// The battery levels of a run of reads that all decode.
pub open spec fn run_levels(t: DSType, reads: Seq<Option<Seq<u8>>>) -> Seq<u8> {
    reads.map_values(|r: Option<Seq<u8>>| battery_level(t, r->Some_0))
}

/// Over a run of reads that all decode, the relay queues one battery command
/// for each reading that differs from the one before it, and none for a
/// repeated reading.
pub proof fn lemma_battery_commands(s: InputRelay, reads: Seq<Option<Seq<u8>>>)
    requires
        !s.stopped,
        forall|k: int| 0 <= k < reads.len() ==> read_ok(s, #[trigger] reads[k]),
    ensures
        run_commands(s, reads) == battery_changes(s.last_battery, run_levels(s.variant, reads)).map_values(
            |b: u8| ControlType::Battery(b),
        ),
{
    lemma_battery_run(s, reads);
}

proof fn lemma_battery_run(s: InputRelay, reads: Seq<Option<Seq<u8>>>)
    requires
        !s.stopped,
        forall|k: int| 0 <= k < reads.len() ==> read_ok(s, #[trigger] reads[k]),
    ensures
        !run_state(s, reads).stopped,
        run_state(s, reads).variant == s.variant,
        run_state(s, reads).last_battery == if reads.len() == 0 {
            s.last_battery
        } else {
            run_levels(s.variant, reads).last()
        },
        run_commands(s, reads) == battery_changes(s.last_battery, run_levels(s.variant, reads)).map_values(
            |b: u8| ControlType::Battery(b),
        ),
    decreases reads.len(),
{
    if reads.len() > 0 {
        let p = reads.drop_last();
        assert forall|k: int| 0 <= k < p.len() implies read_ok(s, #[trigger] p[k]) by {
            assert(read_ok(s, reads[k]));
        }
        lemma_battery_run(s, p);
        let levels = run_levels(s.variant, reads);
        assert(levels.drop_last() =~= run_levels(s.variant, p));
        assert(read_ok(s, reads[reads.len() - 1]));
        let prev = battery_changes(s.last_battery, levels.drop_last()).map_values(
            |b: u8| ControlType::Battery(b),
        );
        let full = battery_changes(s.last_battery, levels).map_values(|b: u8| ControlType::Battery(b));
        if levels.last() != (if levels.len() == 1 { s.last_battery } else { levels[levels.len() - 2] }) {
            assert(full =~= prev.push(ControlType::Battery(levels.last())));
        } else {
            assert(full =~= prev);
        }
    }
}

/// What the control worker of a session observed: a command, a wait that ended
/// with none, or a command queue whose senders are all gone.
#[derive(Clone, Copy, Debug, PartialEq, Eq, Structural)]
pub enum ControlEvent {
    Command(ControlType),
    Timeout,
    Closed,
}

/// What the control worker does next.
#[derive(Debug)]
pub enum ControlStep {
    /// Write the report to the device, then wait again.
    Write(Vec<u8>),
    /// Wait again.
    Wait,
    /// Set the session's cancellation flag and exit.
    Stop,
}

/// Decides the control worker's next step: a cancelled session stops at once;
/// a command is folded into the output state and its report written; a closed
/// queue stops the session.
pub fn control_step(relay: &mut ControlRelay, cancelled: bool, event: ControlEvent) -> (r: ControlStep)
    ensures
        cancelled ==> r is Stop && *final(relay) == *old(relay),
        !cancelled && event is Timeout ==> r is Wait && *final(relay) == *old(relay),
        !cancelled && event is Closed ==> r is Stop && *final(relay) == *old(relay),
        !cancelled && event is Command ==> {
            let cmd = event->Command_0;
            &&& r is Write
            &&& r->Write_0@ == encode(apply_command(old(relay).controls, cmd), old(relay).is_bt)
            &&& final(relay).is_bt == old(relay).is_bt
            &&& final(relay).controls == after_encode(
                apply_command(old(relay).controls, cmd),
                old(relay).is_bt,
            )
        },
{
    if cancelled {
        return ControlStep::Stop;
    }
    match event {
        ControlEvent::Command(cmd) => ControlStep::Write(relay.apply_command(cmd)),
        ControlEvent::Timeout => ControlStep::Wait,
        ControlEvent::Closed => ControlStep::Stop,
    }
}

} // verus!
