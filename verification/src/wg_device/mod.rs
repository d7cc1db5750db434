//! The device that the TCP stack sends its packets through: one end of a WireGuard tunnel.

pub mod laws;
pub mod recv;
pub mod send;

use crate::config;
use crate::config::Config;
use crate::tunnel;
use crate::tunnel::HANDSHAKE_LEN;
use crate::tunnel::OVERHEAD;
use crate::tunnel::TunnelOutcome;
use crate::wg_device::recv::Burst;
use crate::wg_device::recv::RecvAction;
use crate::wg_device::recv::RxToken;
use crate::wg_device::send::TxToken;
use boringtun::noise::Tunn;
use std::collections::VecDeque;
use vstd::prelude::*;

verus! {

/// How many octets the buffer for the first message of a handshake has.
pub const FIRST_BUFFER_LEN: usize = 1500;

/// How many octets the buffer for what the timers send has.
pub const TIMER_BUFFER_LEN: usize = 1024;

/// The device.
pub struct WGDevice {
    config: Config,
    tunnel: Box<Tunn>,
    /// How long the longest packet is that has gone into the tunnel.
    longest: usize,
    /// The packets that came out of the tunnel, and that the stack has not taken.
    inbound: VecDeque<Vec<u8>>,
}

/// Why there is no device for a configuration.
#[derive(Clone, Copy, Debug, PartialEq, Eq, Structural)]
pub enum DeviceError {
    /// The relay's own key is no key.
    PrivateKey,
    /// The peer's key is no key.
    PublicKey,
}

/// What there is to do after a step that can only send.
#[derive(Debug)]
pub enum SendAction {
    /// Send a datagram to the peer.
    Send(Vec<u8>),
    /// Nothing.
    Nothing,
    /// Nothing but to tell what the tunnel asked for.
    Report(TunnelOutcome),
}

/// The tunnel that a configuration describes.
pub open spec fn configured(config: Config) -> tunnel::TunnModel {
    tunnel::TunnModel {
        private_key: config::decoded(config.private_key@)->Some_0,
        peer_key: config::decoded(config.peer.public_key@)->Some_0,
        preshared_key: None,
        keepalive: None,
        index: 0,
        session: None,
        handshake: tunnel::Handshake::Idle,
        waiting: Seq::empty(),
    }
}

/// Whether a packet of `len` octets can go into the tunnel.
pub open spec fn fits_tunnel(len: nat) -> bool {
    len + OVERHEAD <= usize::MAX && len <= tunnel::MAX_PACKET_LEN
}

/// The greater of two numbers.
pub open spec fn greater(a: nat, b: nat) -> nat {
    if a < b {
        b
    } else {
        a
    }
}

/// What is done with what the tunnel asks for when a packet has gone into it, or when a
/// handshake was to be started.
pub open spec fn send_action(outcome: TunnelOutcome) -> SendAction {
    match outcome {
        TunnelOutcome::WriteToNetwork(data) => SendAction::Send(data),
        _ => SendAction::Report(outcome),
    }
}

/// What is done with what the tunnel asks for when its timers have been looked after.
pub open spec fn timer_action(outcome: TunnelOutcome) -> SendAction {
    match outcome {
        TunnelOutcome::WriteToNetwork(data) => SendAction::Send(data),
        TunnelOutcome::Done => SendAction::Nothing,
        _ => SendAction::Report(outcome),
    }
}

/// What to do with what the tunnel asks for when a packet has gone into it, or when a handshake
/// was to be started.
pub fn send_decision(outcome: TunnelOutcome) -> (r: SendAction)
    ensures
        r == send_action(outcome),
        outcome matches TunnelOutcome::WriteToNetwork(data) ==> r == SendAction::Send(data),
        outcome !is WriteToNetwork ==> r == SendAction::Report(outcome),
{
    match outcome {
        TunnelOutcome::WriteToNetwork(data) => SendAction::Send(data),
        outcome => SendAction::Report(outcome),
    }
}

/// What to do with what the tunnel asks for when its timers have been looked after. No IPv4
/// packet comes out of the tunnel then.
pub fn timer_decision(outcome: TunnelOutcome) -> (r: SendAction)
    requires
        outcome !is WriteToTunnelV4,
    ensures
        r == timer_action(outcome),
        outcome matches TunnelOutcome::WriteToNetwork(data) ==> r == SendAction::Send(data),
        r is Nothing <==> outcome is Done,
{
    match outcome {
        TunnelOutcome::WriteToNetwork(data) => SendAction::Send(data),
        TunnelOutcome::Done => SendAction::Nothing,
        outcome => SendAction::Report(outcome),
    }
}

/// How long the buffer has to be for a packet of `len` octets that goes into the tunnel.
pub fn send_buffer_len(len: usize) -> (r: usize)
    requires
        len + OVERHEAD <= usize::MAX,
    ensures
        r == greater((len + OVERHEAD) as nat, HANDSHAKE_LEN as nat),
{
    if len + OVERHEAD < HANDSHAKE_LEN {
        HANDSHAKE_LEN
    } else {
        len + OVERHEAD
    }
}

/// Whether one step of working off the datagram `burst`, with the device `before`, leads to the
/// device `after`, leaves `rest` of the datagram, and asks for `action`.
pub open spec fn works_off(
    before: WGDevice,
    burst: Burst,
    after: WGDevice,
    rest: Burst,
    action: RecvAction,
) -> bool {
    let datagram = burst.pending();
    &&& after.configuration() == before.configuration()
    &&& after.longest() == before.longest()
    &&& before.tunnel().same_settings(after.tunnel())
    &&& rest.room() == burst.room()
    &&& exists|outcome: TunnelOutcome|
        {
            &&& action == #[trigger] recv::recv_action(outcome)
            &&& rest.pending() == recv::still_pending(outcome, datagram)
            &&& if datagram.len() == 0 {
                tunnel::resumes(
                    before.engine(),
                    recv::room_for(burst, before.longest()),
                    after.engine(),
                    outcome,
                )
            } else {
                tunnel::handles(before.engine(), datagram, after.engine(), outcome)
            }
        }
    &&& match tunnel::yielded(before.engine(), datagram) {
        Some(packet) => {
            &&& action is Notify
            &&& after.inbound() == before.inbound().push(packet)
            &&& tunnel::opened(after.engine(), datagram).outcome is InvalidCounter
        },
        None => {
            &&& action !is Notify
            &&& after.inbound() == before.inbound()
        },
    }
    &&& datagram.len() > 0 ==> after.tunnel() == tunnel::opened(before.engine(), datagram).tunnel
    &&& datagram.len() > 0 && !tunnel::is_message(datagram) ==> {
        &&& action matches RecvAction::Fail(error) && error@ == "InvalidPacket"@
        &&& after.tunnel() == before.tunnel()
    }
    &&& tunnel::is_response(datagram) && action is Send ==> after.tunnel().session is Some
    &&& tunnel::is_initiation(datagram) ==> (action matches RecvAction::Send(data)
        ==> tunnel::is_response(data@))
}

impl WGDevice {
    /// What it was made from.
    pub closed spec fn configuration(self) -> Config {
        self.config
    }

    /// The tunnel itself.
    pub closed spec fn engine(self) -> Tunn {
        *self.tunnel
    }

    /// What the tunnel is up to.
    pub open spec fn tunnel(self) -> tunnel::TunnModel {
        tunnel::tunn_model(self.engine())
    }

    /// The packets that came out of the tunnel, and that the stack has not taken.
    pub closed spec fn inbound(self) -> Seq<Seq<u8>> {
        recv::octets(self.inbound@)
    }

    /// How long the longest packet is that has gone into the tunnel.
    pub closed spec fn longest(self) -> nat {
        self.longest as nat
    }

    /// No packet waits in the tunnel that is longer than the longest that went into it, and that
    /// one is not too long for the tunnel.
    pub closed spec fn wf(self) -> bool {
        &&& fits_tunnel(self.longest())
        &&& forall|i: int|
            0 <= i < self.tunnel().waiting.len() ==> (#[trigger] self.tunnel().waiting[i]).len()
                <= self.longest
    }

    /// The device for a configuration whose keys are keys.
    pub fn new(config: Config) -> (r: WGDevice)
        requires
            config::is_key(config.private_key@),
            config::is_key(config.peer.public_key@),
        ensures
            r.wf(),
            r.configuration() == config,
            r.tunnel() == configured(config),
            r.inbound() == Seq::<Seq<u8>>::empty(),
            r.longest() == 0,
    {
        let private_key = tunnel::static_secret(
            config::decode_base64_key(config.private_key.as_str()),
        );
        let peer_key = tunnel::public_key(
            config::decode_base64_key(config.peer.public_key.as_str()),
        );
        match tunnel::new_tunnel(private_key, peer_key, None, None, 0) {
            Ok(tunnel) => {
                let device = WGDevice { config, tunnel, longest: 0, inbound: VecDeque::new() };
                assert(device.inbound() == Seq::<Seq<u8>>::empty());
                device
            },
            Err(_) => unreached(),
        }
    }

    /// The device for a configuration, or which of its keys is none.
    pub fn try_new(config: Config) -> (r: Result<WGDevice, DeviceError>)
        ensures
            match r {
                Ok(device) => {
                    &&& config::is_key(config.private_key@)
                    &&& config::is_key(config.peer.public_key@)
                    &&& device.wf()
                    &&& device.configuration() == config
                    &&& device.tunnel() == configured(config)
                    &&& device.inbound() == Seq::<Seq<u8>>::empty()
                    &&& device.longest() == 0
                },
                Err(DeviceError::PrivateKey) => !config::is_key(config.private_key@),
                Err(DeviceError::PublicKey) => config::is_key(config.private_key@)
                    && !config::is_key(config.peer.public_key@),
            },
    {
        match config::try_decode_base64_key(config.private_key.as_str()) {
            None => return Err(DeviceError::PrivateKey),
            Some(_) => {},
        }
        match config::try_decode_base64_key(config.peer.public_key.as_str()) {
            None => return Err(DeviceError::PublicKey),
            Some(_) => {},
        }
        Ok(WGDevice::new(config))
    }

    /// Starts a handshake, unless one is under way.
    pub fn start_handshake(&mut self) -> (r: SendAction)
        requires
            old(self).wf(),
        ensures
            final(self).wf(),
            final(self).configuration() == old(self).configuration(),
            final(self).inbound() == old(self).inbound(),
            final(self).longest() == old(self).longest(),
            final(self).tunnel() == old(self).tunnel().underway(),
            if old(self).tunnel().handshake is Underway {
                r == SendAction::Report(TunnelOutcome::Done)
            } else {
                r matches SendAction::Send(data) && tunnel::is_initiation(data@)
            },
    {
        let mut buf: Vec<u8> = vec![0; FIRST_BUFFER_LEN];
        let outcome = tunnel::format_handshake_initiation(&mut self.tunnel, &mut buf, false);
        send_decision(outcome)
    }

    /// One step of working off a datagram: hands to the tunnel what of it is pending, and does
    /// what the tunnel then asks for; an IPv4 packet that comes out of it goes behind those that
    /// the stack has not taken. Where nothing is pending, the packet that has waited longest is
    /// sent; where none waits, the datagram has been worked off.
    pub fn recv_step(&mut self, burst: &mut Burst) -> (r: RecvAction)
        requires
            old(self).wf(),
            tunnel::workable(old(self).engine(), old(burst).pending()),
        ensures
            final(self).wf(),
            works_off(*old(self), *old(burst), *final(self), *final(burst), r),
    {
        let len: usize = burst.buffer_len(self.longest);
        let mut buf: Vec<u8> = vec![0; len];
        let outcome = tunnel::decapsulate(&mut self.tunnel, burst.next_datagram(), &mut buf);
        recv::recv_decision(outcome, burst, &mut self.inbound)
    }

    /// One step of working off a datagram, or nothing where the tunnel cannot count to the number
    /// of the packet in it: such a datagram is not handed to the tunnel.
    pub fn try_recv_step(&mut self, burst: &mut Burst) -> (r: Option<RecvAction>)
        requires
            old(self).wf(),
        ensures
            final(self).wf(),
            r is Some <==> tunnel::countable(old(burst).pending()),
            match r {
                Some(action) => works_off(
                    *old(self),
                    *old(burst),
                    *final(self),
                    *final(burst),
                    action,
                ),
                None => *final(self) == *old(self) && *final(burst) == *old(burst),
            },
    {
        if tunnel::can_count(burst.next_datagram()) {
            Some(self.recv_step(burst))
        } else {
            None
        }
    }

    /// Sends a packet of the stack into the tunnel. In a session, just the datagram that carries it
    /// is to be sent, and it is the only packet that the session numbers. Without a session it waits there, unless too
    /// many packets do, and a handshake is started, unless one is under way.
    pub fn send_step(&mut self, packet: &[u8]) -> (r: SendAction)
        requires
            old(self).wf(),
            fits_tunnel(packet@.len()),
        ensures
            final(self).wf(),
            final(self).configuration() == old(self).configuration(),
            final(self).inbound() == old(self).inbound(),
            final(self).longest() == greater(old(self).longest(), packet@.len()),
            if let Some(number) = old(self).tunnel().session {
                &&& r matches SendAction::Send(data) && data@ == tunnel::sealed(
                    old(self).engine(),
                    packet@,
                ) && tunnel::is_data(data@) && data@.len() == packet@.len() + OVERHEAD
                    && tunnel::counter(data@) == number
                &&& final(self).tunnel() == old(self).tunnel().numbered()
            } else if old(self).tunnel().handshake is Underway {
                &&& r == SendAction::Report(TunnelOutcome::Done)
                &&& final(self).tunnel() == old(self).tunnel().queued(packet@)
            } else {
                &&& r matches SendAction::Send(data) && tunnel::is_initiation(data@)
                &&& final(self).tunnel() == old(self).tunnel().queued(packet@).underway()
            },
    {
        let mut buf: Vec<u8> = vec![0; send_buffer_len(packet.len())];
        if self.longest < packet.len() {
            self.longest = packet.len();
        }
        let outcome = tunnel::encapsulate(&mut self.tunnel, packet, &mut buf);
        send_decision(outcome)
    }

    /// Looks after the timers of the tunnel. Where the connection has expired, this is told again,
    /// and nothing is sent. Otherwise it depends on the time whether the connection expires, a
    /// handshake or an empty packet is due, or nothing is.
    pub fn timer_step(&mut self) -> (r: SendAction)
        requires
            old(self).wf(),
        ensures
            final(self).wf(),
            final(self).configuration() == old(self).configuration(),
            final(self).inbound() == old(self).inbound(),
            final(self).longest() == old(self).longest(),
            exists|outcome: TunnelOutcome|
                {
                    &&& r == #[trigger] timer_action(outcome)
                    &&& old(self).tunnel().elapses(
                        TIMER_BUFFER_LEN as nat,
                        final(self).tunnel(),
                        outcome,
                    )
                },
            r is Report <==> final(self).tunnel().handshake is Expired,
            match r {
                SendAction::Send(data) => {
                    ||| tunnel::is_initiation(data@) && final(self).tunnel().handshake is Underway
                    ||| data@ == tunnel::sealed(old(self).engine(), Seq::empty())
                        && tunnel::is_data(data@) && data@.len() == OVERHEAD
                        && final(self).tunnel() == old(self).tunnel().numbered()
                },
                SendAction::Nothing => true,
                SendAction::Report(outcome) => outcome is Failed,
            },
            old(self).tunnel().handshake is Expired ==> r is Report,
            final(self).tunnel().handshake is Underway && old(self).tunnel().handshake !is Underway
                ==> r is Send,
            final(self).tunnel().session is Some && final(self).tunnel().session
                != old(self).tunnel().session ==> r is Send,
            r is Nothing ==> final(self).tunnel().handshake == old(self).tunnel().handshake,
    {
        let mut buf: Vec<u8> = vec![0; TIMER_BUFFER_LEN];
        let outcome = tunnel::update_timers(&mut self.tunnel, &mut buf);
        timer_decision(outcome)
    }

    /// The next packet for the stack, with the leave to answer it.
    pub fn receive(&mut self) -> (r: Option<(RxToken, TxToken)>)
        ensures
            final(self).configuration() == old(self).configuration(),
            final(self).engine() == old(self).engine(),
            final(self).longest() == old(self).longest(),
            old(self).wf() ==> final(self).wf(),
            old(self).inbound().len() == 0 ==> r is None && final(self).inbound()
                == old(self).inbound(),
            old(self).inbound().len() > 0 ==> {
                &&& r matches Some((rx, _)) && rx.buffer@ == old(self).inbound()[0]
                &&& final(self).inbound() == old(self).inbound().skip(1)
            },
    {
        let ghost before = self.inbound@;
        match self.inbound.pop_front() {
            Some(buffer) => {
                assert(recv::octets(self.inbound@) == recv::octets(before).skip(1));
                Some((RxToken { buffer }, TxToken {  }))
            },
            None => None,
        }
    }

    /// The leave to send a packet, which is always given.
    pub fn transmit(&self) -> (r: Option<TxToken>)
        ensures
            r is Some,
    {
        Some(TxToken {  })
    }

    /// The longest packet that goes into the tunnel.
    pub fn max_transmission_unit(&self) -> (r: usize)
        ensures
            r == self.configuration().mtu,
    {
        self.config.mtu
    }
}

} // verus!
