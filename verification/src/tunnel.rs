//! The WireGuard tunnel, as the device sees it.

use boringtun::noise::Tunn;
use boringtun::noise::TunnResult;
use boringtun::noise::errors::WireGuardError;
use vstd::prelude::*;
use x25519_dalek::PublicKey;
use x25519_dalek::StaticSecret;

verus! {

/// The length of the message that starts a handshake.
pub const HANDSHAKE_LEN: usize = 148;

/// The length of the message that answers a handshake.
pub const RESPONSE_LEN: usize = 92;

/// The length of the message that holds a cookie.
pub const COOKIE_LEN: usize = 64;

/// How many octets a packet grows by in the tunnel.
pub const OVERHEAD: usize = 32;

/// The length of the longest packet that the tunnel can encrypt.
pub const MAX_PACKET_LEN: u64 = 274_877_906_880;

/// The greatest number of a packet that the tunnel can count to.
pub const MAX_COUNTER: u64 = 0xffff_ffff_ffff_fbff;

/// How many packets can wait for a session.
pub const QUEUE_DEPTH: usize = 256;

/// What the tunnel asks for after an operation.
#[derive(Debug)]
pub enum TunnelOutcome {
    /// Nothing.
    Done,
    /// Nothing: the operation failed since a packet was numbered like one before.
    InvalidCounter,
    /// Nothing: the operation failed for the reason that the text gives.
    Failed(String),
    /// That a datagram be sent to the peer.
    WriteToNetwork(Vec<u8>),
    /// That an IPv4 packet be delivered.
    WriteToTunnelV4(Vec<u8>),
    /// That an IPv6 packet be delivered.
    WriteToTunnelV6(Vec<u8>),
}

/// What the tunnel asks for after an operation, in plain values.
pub enum OutcomeView {
    Done,
    InvalidCounter,
    Failed(Seq<char>),
    WriteToNetwork(Seq<u8>),
    WriteToTunnelV4(Seq<u8>),
    WriteToTunnelV6(Seq<u8>),
}

impl View for TunnelOutcome {
    type V = OutcomeView;

    open spec fn view(&self) -> OutcomeView {
        match *self {
            TunnelOutcome::Done => OutcomeView::Done,
            TunnelOutcome::InvalidCounter => OutcomeView::InvalidCounter,
            TunnelOutcome::Failed(error) => OutcomeView::Failed(error@),
            TunnelOutcome::WriteToNetwork(data) => OutcomeView::WriteToNetwork(data@),
            TunnelOutcome::WriteToTunnelV4(packet) => OutcomeView::WriteToTunnelV4(packet@),
            TunnelOutcome::WriteToTunnelV6(packet) => OutcomeView::WriteToTunnelV6(packet@),
        }
    }
}

/// Whether `datagram` is a message of this type.
pub open spec fn has_type(datagram: Seq<u8>, kind: u8) -> bool {
    datagram.len() >= 4 && datagram.take(4) == seq![kind, 0u8, 0u8, 0u8]
}

/// Whether `datagram` is a message that starts a handshake.
pub open spec fn is_initiation(datagram: Seq<u8>) -> bool {
    has_type(datagram, 1) && datagram.len() == HANDSHAKE_LEN
}

/// Whether `datagram` is a message that answers a handshake.
pub open spec fn is_response(datagram: Seq<u8>) -> bool {
    has_type(datagram, 2) && datagram.len() == RESPONSE_LEN
}

/// Whether `datagram` is a message that carries a packet.
pub open spec fn is_data(datagram: Seq<u8>) -> bool {
    has_type(datagram, 4) && datagram.len() >= OVERHEAD
}

/// Whether `datagram` is a message of the protocol.
pub open spec fn is_message(datagram: Seq<u8>) -> bool {
    ||| is_initiation(datagram)
    ||| is_response(datagram)
    ||| has_type(datagram, 3) && datagram.len() == COOKIE_LEN
    ||| is_data(datagram)
}

/// The number of the packet that `datagram` carries.
pub open spec fn counter(datagram: Seq<u8>) -> int {
    datagram[8] + 0x100 * datagram[9] + 0x1_0000 * datagram[10] + 0x100_0000 * datagram[11]
        + 0x1_0000_0000 * datagram[12] + 0x100_0000_0000 * datagram[13] + 0x1_0000_0000_0000
        * datagram[14] + 0x100_0000_0000_0000 * datagram[15]
}

/// Whether the tunnel can count to the number of the packet that `datagram` carries, if it
/// carries one.
pub open spec fn countable(datagram: Seq<u8>) -> bool {
    is_data(datagram) ==> counter(datagram) <= MAX_COUNTER
}

/// Whether the tunnel can count to the number of the packet that `datagram` carries, if it
/// carries one.
pub fn can_count(datagram: &[u8]) -> (r: bool)
    ensures
        r == countable(datagram@),
{
    if datagram.len() < OVERHEAD {
        return true;
    }
    if datagram[0] != 4 || datagram[1] != 0 || datagram[2] != 0 || datagram[3] != 0 {
        assert(datagram@[0] == datagram@.take(4)[0] && datagram@[1] == datagram@.take(4)[1]);
        assert(datagram@[2] == datagram@.take(4)[2] && datagram@[3] == datagram@.take(4)[3]);
        return true;
    }
    assert(datagram@.take(4) == seq![4u8, 0u8, 0u8, 0u8]);
    let low: u64 = datagram[8] as u64 + 0x100 * datagram[9] as u64 + 0x1_0000 * datagram[10] as u64
        + 0x100_0000 * datagram[11] as u64;
    let high: u64 = datagram[12] as u64 + 0x100 * datagram[13] as u64 + 0x1_0000
        * datagram[14] as u64 + 0x100_0000 * datagram[15] as u64;
    low + 0x1_0000_0000 * high <= MAX_COUNTER
}

impl TunnelOutcome {
    /// Whether a packet that came out of the tunnel fits into a datagram of `len` octets.
    pub open spec fn fits(self, len: nat) -> bool {
        match self {
            TunnelOutcome::WriteToTunnelV4(packet) => packet@.len() + OVERHEAD <= len,
            TunnelOutcome::WriteToTunnelV6(packet) => packet@.len() + OVERHEAD <= len,
            _ => true,
        }
    }

    /// Whether a message that starts a handshake is to be sent.
    pub open spec fn initiates(self) -> bool {
        self matches TunnelOutcome::WriteToNetwork(data) && is_initiation(data@)
    }

    /// Whether a message that answers a handshake is to be sent.
    pub open spec fn responds(self) -> bool {
        self matches TunnelOutcome::WriteToNetwork(data) && is_response(data@)
    }

    /// Whether a message that carries a packet is to be sent.
    pub open spec fn transports(self) -> bool {
        self matches TunnelOutcome::WriteToNetwork(data) && is_data(data@)
    }

    /// Whether a message is to be sent that carries a packet of `len` octets, numbered `number`.
    pub open spec fn carries(self, len: nat, number: int) -> bool {
        self matches TunnelOutcome::WriteToNetwork(data) && is_data(data@) && data@.len() == len
            + OVERHEAD && counter(data@) == number
    }
}

/// Where a tunnel stands with its handshake.
pub enum Handshake {
    /// None is under way.
    Idle,
    /// One is under way.
    Underway,
    /// The connection has expired, and no handshake has been started since.
    Expired,
}

/// The number that follows `number`; after the greatest one the numbers start anew.
pub open spec fn next_number(number: usize) -> usize {
    if number == usize::MAX {
        0
    } else {
        (number + 1) as usize
    }
}

/// What a tunnel was made of, and what it is up to.
pub struct TunnModel {
    pub private_key: Seq<u8>,
    pub peer_key: Seq<u8>,
    pub preshared_key: Option<[u8; 32]>,
    pub keepalive: Option<u16>,
    pub index: u32,
    /// The number of the next packet in the session that packets are sent in, if there is one.
    pub session: Option<usize>,
    /// Where it stands with its handshake.
    pub handshake: Handshake,
    /// The packets that wait for a session, the oldest first.
    pub waiting: Seq<Seq<u8>>,
}

impl TunnModel {
    /// Whether `after` was made of the same as this tunnel.
    pub open spec fn same_settings(self, after: TunnModel) -> bool {
        after == (TunnModel {
            session: after.session,
            handshake: after.handshake,
            waiting: after.waiting,
            ..self
        })
    }

    /// The tunnel once `packet` waits in it, unless too many packets do.
    pub open spec fn queued(self, packet: Seq<u8>) -> TunnModel {
        if self.waiting.len() < QUEUE_DEPTH {
            TunnModel { waiting: self.waiting.push(packet), ..self }
        } else {
            self
        }
    }

    /// The tunnel without the packet that has waited longest.
    pub open spec fn dequeued(self) -> TunnModel {
        TunnModel { waiting: self.waiting.skip(1), ..self }
    }

    /// The tunnel once a handshake is under way.
    pub open spec fn underway(self) -> TunnModel {
        TunnModel { handshake: Handshake::Underway, ..self }
    }

    /// Whether starting a handshake, with a buffer of `room` octets, makes this tunnel `after`
    /// and asks for `outcome`. Unless it is forced, a handshake that is under way goes on.
    pub open spec fn initiates(
        self,
        force: bool,
        room: nat,
        after: TunnModel,
        outcome: TunnelOutcome,
    ) -> bool {
        if self.handshake is Underway && !force {
            outcome is Done && after == self
        } else if room < HANDSHAKE_LEN {
            outcome is Failed && after == self
        } else {
            outcome.initiates() && after == self.underway()
        }
    }

    /// The tunnel once a packet has been numbered in its session.
    pub open spec fn numbered(self) -> TunnModel {
        TunnModel { session: Some(next_number(self.session->Some_0)), ..self }
    }

    /// Whether sending `packet`, with a buffer of `room` octets, makes this tunnel `after` and
    /// asks for `outcome`. Without a session the packet waits, and a handshake is started.
    pub open spec fn encapsulates(
        self,
        packet: Seq<u8>,
        room: nat,
        after: TunnModel,
        outcome: TunnelOutcome,
    ) -> bool {
        if let Some(number) = self.session {
            outcome.carries(packet.len(), number as int) && after == self.numbered()
        } else {
            self.queued(packet).initiates(false, room, after, outcome)
        }
    }

    /// Whether sending the packet that has waited longest, with a buffer of `room` octets, makes
    /// this tunnel `after` and asks for `outcome`. Where not even a handshake can be started, the
    /// packet is put back in front.
    pub open spec fn drains(self, room: nat, after: TunnModel, outcome: TunnelOutcome) -> bool {
        if self.waiting.len() == 0 {
            outcome is Done && after == self
        } else if self.session is None && self.handshake !is Underway && room < HANDSHAKE_LEN {
            let queued = self.dequeued().queued(self.waiting[0]);
            outcome is Done && after == if queued.waiting.len() < QUEUE_DEPTH {
                TunnModel { waiting: seq![self.waiting[0]] + queued.waiting, ..self }
            } else {
                queued
            }
        } else {
            self.dequeued().encapsulates(self.waiting[0], room, after, outcome)
        }
    }

    /// The tunnel once its connection has expired.
    pub open spec fn expired(self) -> TunnModel {
        TunnModel {
            session: None,
            handshake: Handshake::Expired,
            waiting: Seq::empty(),
            ..self
        }
    }

    /// Whether looking after the timers, with a buffer of `room` octets, can make this tunnel
    /// `after` and ask for `outcome`. The session may run out. A tunnel whose connection has
    /// expired only says so; another one has nothing to do, or expires now, or starts a handshake
    /// anew, or sends an empty packet to keep the connection alive.
    pub open spec fn elapses(self, room: nat, after: TunnModel, outcome: TunnelOutcome) -> bool {
        ||| self.ticks(room, after, outcome)
        ||| TunnModel { session: None, ..self }.ticks(room, after, outcome)
    }

    /// Whether looking after the timers, but for those of the session, with a buffer of `room`
    /// octets, can make this tunnel `after` and ask for `outcome`.
    pub open spec fn ticks(self, room: nat, after: TunnModel, outcome: TunnelOutcome) -> bool {
        if self.handshake is Expired {
            outcome is Failed && after == self
        } else {
            ||| outcome is Done && after == self
            ||| outcome is Failed && after == self.expired()
            ||| self.initiates(true, room, after, outcome)
            ||| self.encapsulates(Seq::empty(), room, after, outcome)
        }
    }
}

/// boringtun's tunnel.
#[verifier::external_type_specification]
#[verifier::external_body]
pub struct ExTunn(Tunn);

/// x25519-dalek's secret key.
#[verifier::external_type_specification]
#[verifier::external_body]
pub struct ExStaticSecret(StaticSecret);

/// x25519-dalek's public key.
#[verifier::external_type_specification]
#[verifier::external_body]
pub struct ExPublicKey(PublicKey);

/// What `tunnel` was made of, and the packets that wait in it.
pub uninterp spec fn tunn_model(tunnel: Tunn) -> TunnModel;

/// The datagram in which `tunnel` sends `packet` to the peer, in the session that it has.
pub uninterp spec fn sealed(tunnel: Tunn, packet: Seq<u8>) -> Seq<u8>;

/// What comes of handing a datagram to a tunnel.
pub struct Opening {
    /// What the tunnel asks for.
    pub outcome: OutcomeView,
    /// The tunnel after that.
    pub tunnel: TunnModel,
}

/// What comes of handing `datagram` to `tunnel`. Of the answer to a handshake, whose octets are
/// left to chance, only that there is one counts. Where the tunnel would have to count to a number
/// that is too great for it, the outcome is `InvalidCounter`.
pub uninterp spec fn opened(tunnel: Tunn, datagram: Seq<u8>) -> Opening;

/// Whether `datagram` can be handed to `tunnel`: the tunnel can count to its number, or turns it
/// down before it counts.
pub open spec fn workable(tunnel: Tunn, datagram: Seq<u8>) -> bool {
    countable(datagram) || opened(tunnel, datagram).outcome is Failed
}

/// Whether `outcome` is what `tunnel` asks for when it is handed `datagram`.
pub open spec fn asks(tunnel: Tunn, datagram: Seq<u8>, outcome: TunnelOutcome) -> bool {
    if is_initiation(datagram) && opened(tunnel, datagram).outcome is WriteToNetwork {
        outcome.responds()
    } else {
        outcome@ == opened(tunnel, datagram).outcome
    }
}

/// Whether handing `datagram` to the tunnel `before` makes it the tunnel `after` and asks for
/// `outcome`. The waiting packets wait on. What is no message of the protocol is a failure, and
/// what the tunnel turns down changes nothing. A response that is accepted brings a session, and
/// is answered with an empty packet, the first in it; an initiation that is accepted ends a handshake of the
/// tunnel's own. A message that carries a packet is not answered, leaves the handshake alone, and
/// if it is accepted, there is a session; the packet comes out of it once, for after that the
/// message is a repetition. A packet comes out of no other message.
pub open spec fn handles(
    before: Tunn,
    datagram: Seq<u8>,
    after: Tunn,
    outcome: TunnelOutcome,
) -> bool {
    let old_model = tunn_model(before);
    let new_model = tunn_model(after);
    &&& asks(before, datagram, outcome)
    &&& new_model == opened(before, datagram).tunnel
    &&& old_model.same_settings(new_model)
    &&& new_model.waiting == old_model.waiting
    &&& !is_message(datagram) ==> outcome@ == OutcomeView::Failed("InvalidPacket"@)
    &&& !is_data(datagram) && outcome is Failed ==> new_model == old_model
    &&& is_response(datagram) && outcome is WriteToNetwork ==> new_model.session is Some
        && outcome.carries(0, 0)
    &&& is_response(datagram) && outcome is WriteToNetwork && old_model.session is None
        ==> new_model.session == Some(1usize)
    &&& is_initiation(datagram) && outcome is WriteToNetwork ==> new_model.handshake is Idle
    &&& is_data(datagram) ==> outcome !is WriteToNetwork && new_model.handshake
        == old_model.handshake
    &&& is_data(datagram) && outcome !is Failed && outcome !is InvalidCounter ==> new_model.session
        is Some
    &&& !is_data(datagram) ==> outcome !is WriteToTunnelV4 && outcome !is WriteToTunnelV6
    &&& outcome is WriteToTunnelV4 || outcome is WriteToTunnelV6 ==> opened(
        after,
        datagram,
    ).outcome is InvalidCounter
    &&& outcome.fits(datagram.len())
}

/// The IPv4 packet that comes out of `tunnel` when it is handed `datagram`, if one does.
pub open spec fn yielded(tunnel: Tunn, datagram: Seq<u8>) -> Option<Seq<u8>> {
    if is_data(datagram) {
        match opened(tunnel, datagram).outcome {
            OutcomeView::WriteToTunnelV4(packet) => Some(packet),
            _ => None,
        }
    } else {
        None
    }
}

/// Whether sending `packet`, with a buffer of `room` octets, makes the tunnel `before` the tunnel
/// `after` and asks for `outcome`: in a session, that just its datagram be sent.
pub open spec fn seals(
    before: Tunn,
    packet: Seq<u8>,
    room: nat,
    after: Tunn,
    outcome: TunnelOutcome,
) -> bool {
    &&& tunn_model(before).encapsulates(packet, room, tunn_model(after), outcome)
    &&& tunn_model(before).session is Some ==> outcome@ == OutcomeView::WriteToNetwork(
        sealed(before, packet),
    )
}

/// Whether sending the packet that has waited longest, with a buffer of `room` octets, makes the
/// tunnel `before` the tunnel `after` and asks for `outcome`: in a session, that just its datagram
/// be sent.
pub open spec fn resumes(before: Tunn, room: nat, after: Tunn, outcome: TunnelOutcome) -> bool {
    &&& tunn_model(before).drains(room, tunn_model(after), outcome)
    &&& tunn_model(before).session is Some && tunn_model(before).waiting.len() > 0 ==> outcome@
        == OutcomeView::WriteToNetwork(sealed(before, tunn_model(before).waiting[0]))
}

/// The octets of the secret key `key`.
pub uninterp spec fn secret_octets(key: StaticSecret) -> Seq<u8>;

/// The octets of the public key `key`.
pub uninterp spec fn public_octets(key: PublicKey) -> Seq<u8>;

/// `StaticSecret::from`: the key with these octets.
#[verifier::external_body]
pub(crate) fn static_secret(octets: [u8; 32]) -> (r: StaticSecret)
    ensures
        secret_octets(r) == octets@,
{
    StaticSecret::from(octets)
}

/// `PublicKey::from`: the key with these octets.
#[verifier::external_body]
pub(crate) fn public_key(octets: [u8; 32]) -> (r: PublicKey)
    ensures
        public_octets(r) == octets@,
{
    PublicKey::from(octets)
}

/// `Tunn::new`, without a rate limiter of the caller's: a tunnel with these settings in which no
/// packet waits. It fails on no input. A keepalive interval of zero stands for none, and of the
/// index only the low 24 bits count.
#[verifier::external_body]
pub(crate) fn new_tunnel(
    private_key: StaticSecret,
    peer_key: PublicKey,
    preshared_key: Option<[u8; 32]>,
    keepalive: Option<u16>,
    index: u32,
) -> (r: Result<Box<Tunn>, &'static str>)
    requires
        keepalive != Some(0u16),
        index < 0x100_0000,
    ensures
        r is Ok,
        tunn_model(*r->Ok_0) == (TunnModel {
            private_key: secret_octets(private_key),
            peer_key: public_octets(peer_key),
            preshared_key,
            keepalive,
            index,
            session: None,
            handshake: Handshake::Idle,
            waiting: Seq::empty(),
        }),
{
    Tunn::new(private_key, peer_key, preshared_key, keepalive, index, None)
}

/// `Tunn::format_handshake_initiation`: nothing where a handshake is under way and none is
/// forced, a failure where `dst` is too short for the message that starts one, and otherwise
/// that message. Its octets are left to chance and the time.
#[verifier::external_body]
pub(crate) fn format_handshake_initiation(
    tunnel: &mut Tunn,
    dst: &mut Vec<u8>,
    force_resend: bool,
) -> (r: TunnelOutcome)
    ensures
        tunn_model(*old(tunnel)).initiates(
            force_resend,
            old(dst)@.len(),
            tunn_model(*final(tunnel)),
            r,
        ),
{
    match tunnel.format_handshake_initiation(dst, force_resend) {
        TunnResult::Done => TunnelOutcome::Done,
        TunnResult::Err(WireGuardError::InvalidCounter) => TunnelOutcome::InvalidCounter,
        TunnResult::Err(error) => TunnelOutcome::Failed(format!("{:?}", error)),
        TunnResult::WriteToNetwork(data) => TunnelOutcome::WriteToNetwork(data.to_vec()),
        TunnResult::WriteToTunnelV4(data, _) => TunnelOutcome::WriteToTunnelV4(data.to_vec()),
        TunnResult::WriteToTunnelV6(data, _) => TunnelOutcome::WriteToTunnelV6(data.to_vec()),
    }
}

/// `Tunn::encapsulate`: the datagram that carries the packet `src` to the peer; without a
/// session, the packet waits in the tunnel (unless too many do), and what is returned is that
/// of `format_handshake_initiation`. It panics where `dst` is too short for the datagram, or the
/// packet too long to be encrypted.
#[verifier::external_body]
pub(crate) fn encapsulate(tunnel: &mut Tunn, src: &[u8], dst: &mut Vec<u8>) -> (r: TunnelOutcome)
    requires
        old(dst)@.len() >= src@.len() + OVERHEAD,
        src@.len() <= MAX_PACKET_LEN,
    ensures
        seals(*old(tunnel), src@, old(dst)@.len(), *final(tunnel), r),
{
    match tunnel.encapsulate(src, dst) {
        TunnResult::Done => TunnelOutcome::Done,
        TunnResult::Err(WireGuardError::InvalidCounter) => TunnelOutcome::InvalidCounter,
        TunnResult::Err(error) => TunnelOutcome::Failed(format!("{:?}", error)),
        TunnResult::WriteToNetwork(data) => TunnelOutcome::WriteToNetwork(data.to_vec()),
        TunnResult::WriteToTunnelV4(data, _) => TunnelOutcome::WriteToTunnelV4(data.to_vec()),
        TunnResult::WriteToTunnelV6(data, _) => TunnelOutcome::WriteToTunnelV6(data.to_vec()),
    }
}

/// `Tunn::decapsulate`, of a datagram whose sender is not given: what the datagram leads to, which
/// the tunnel and the datagram settle, but for the octets of the answer to a handshake; `handles`
/// says what holds of it. An empty datagram stands for a repeated call, which sends the packet
/// that has waited longest. It panics where `dst` is shorter than the datagram, or too short for
/// the packet that is sent, or this packet is too long to be encrypted, or it has to count to a
/// number that is too great.
#[verifier::external_body]
pub(crate) fn decapsulate(tunnel: &mut Tunn, datagram: &[u8], dst: &mut Vec<u8>) -> (r:
    TunnelOutcome)
    requires
        old(dst)@.len() >= datagram@.len(),
        workable(*old(tunnel), datagram@),
        datagram@.len() == 0 && tunn_model(*old(tunnel)).waiting.len() > 0 ==> {
            let packet = tunn_model(*old(tunnel)).waiting[0];
            old(dst)@.len() >= packet.len() + OVERHEAD && packet.len() <= MAX_PACKET_LEN
        },
    ensures
        datagram@.len() == 0 ==> resumes(*old(tunnel), old(dst)@.len(), *final(tunnel), r),
        datagram@.len() > 0 ==> tunn_model(*final(tunnel)) == opened(
            *old(tunnel),
            datagram@,
        ).tunnel,
        datagram@.len() > 0 ==> handles(*old(tunnel), datagram@, *final(tunnel), r),
{
    match tunnel.decapsulate(None, datagram, dst) {
        TunnResult::Done => TunnelOutcome::Done,
        TunnResult::Err(WireGuardError::InvalidCounter) => TunnelOutcome::InvalidCounter,
        TunnResult::Err(error) => TunnelOutcome::Failed(format!("{:?}", error)),
        TunnResult::WriteToNetwork(data) => TunnelOutcome::WriteToNetwork(data.to_vec()),
        TunnResult::WriteToTunnelV4(data, _) => TunnelOutcome::WriteToTunnelV4(data.to_vec()),
        TunnResult::WriteToTunnelV6(data, _) => TunnelOutcome::WriteToTunnelV6(data.to_vec()),
    }
}

/// `Tunn::update_timers`: what the tunnel has to send at this time. Where its connection has
/// expired, it fails, and leaves the waiting packets alone; where it expires now, it fails, and
/// the session and the waiting packets are gone. Otherwise a handshake or an empty packet may be
/// due, or nothing. Which of these it is, and whether the session has run out, depends on the
/// time. An empty packet is sent in the session that the tunnel has. It panics where `dst` is too
/// short for an empty packet.
#[verifier::external_body]
pub(crate) fn update_timers(tunnel: &mut Tunn, dst: &mut Vec<u8>) -> (r: TunnelOutcome)
    requires
        old(dst)@.len() >= OVERHEAD,
    ensures
        tunn_model(*old(tunnel)).elapses(old(dst)@.len(), tunn_model(*final(tunnel)), r),
        r.transports() ==> r@ == OutcomeView::WriteToNetwork(
            sealed(*old(tunnel), Seq::empty()),
        ),
{
    match tunnel.update_timers(dst) {
        TunnResult::Done => TunnelOutcome::Done,
        TunnResult::Err(WireGuardError::InvalidCounter) => TunnelOutcome::InvalidCounter,
        TunnResult::Err(error) => TunnelOutcome::Failed(format!("{:?}", error)),
        TunnResult::WriteToNetwork(data) => TunnelOutcome::WriteToNetwork(data.to_vec()),
        TunnResult::WriteToTunnelV4(data, _) => TunnelOutcome::WriteToTunnelV4(data.to_vec()),
        TunnResult::WriteToTunnelV6(data, _) => TunnelOutcome::WriteToTunnelV6(data.to_vec()),
    }
}

} // verus!
