use vstd::prelude::*;

use crate::control::ControlMessage;

verus! {

/// Outbound port of the remote controller replies are sent to.
pub const OSC_REMOTE_CONTROL_PORT: u16 = 6666;

/// The recognized remote-control addresses; the shell matches the raw
/// address string at the socket edge and hands the engine the decoded
/// address with the plain arguments.
#[derive(Debug, Clone, Copy, PartialEq, Eq, Structural)]
pub enum OscAddress {
    /// A keep-alive ping carrying a nonce.
    Ping,
    /// The controller asks for the configuration.
    GetConfig,
    /// A track volume move.
    TrackVolume,
    /// A track pan move.
    TrackPan,
    /// Anything else.
    Unknown,
}

/// One decoded remote-control argument.
#[derive(Debug, Clone, Copy, PartialEq, Eq, Structural)]
pub enum OscArg {
    /// An integer argument.
    Int(i32),
    /// A fractional argument, in micro-units.
    Micro(i64),
    /// An argument of a type the engine does not read.
    Other,
}

/// What the shell must do with an incoming remote-control packet.
#[derive(Debug, Clone, Copy, PartialEq, Eq, Structural)]
pub enum OscAction {
    /// Remember the sender as the controller — its reply port is
    /// `OSC_REMOTE_CONTROL_PORT` — and echo the nonce back.
    ReplyPing(i32),
    /// Send the serialized configuration to the controller.
    SendConfig,
    /// Feed a control message into the hub.
    Emit(ControlMessage),
    /// Ignore the packet.
    Ignore,
}

/// Routes one remote-control packet: a ping with an integer nonce is
/// answered, a configuration request is served, a volume or pan move with
/// an integer track and a fractional value becomes the matching control
/// message, and everything else — unknown addresses as well as
/// wrongly-typed arguments — is ignored.
pub fn route_osc(addr: OscAddress, args: &Vec<OscArg>) -> (r: OscAction)
    ensures
        r == match addr {
            OscAddress::Ping => {
                if args@.len() >= 1 && args@[0] is Int {
                    OscAction::ReplyPing(args@[0]->Int_0)
                } else {
                    OscAction::Ignore
                }
            },
            OscAddress::GetConfig => OscAction::SendConfig,
            OscAddress::TrackVolume => {
                if args@.len() >= 2 && args@[0] is Int && args@[1] is Micro && args@[0]->Int_0 >= 0 {
                    OscAction::Emit(
                        ControlMessage::TrackVolume {
                            tcode: 0,
                            val: args@[1]->Micro_0,
                            track_num: args@[0]->Int_0 as usize,
                        },
                    )
                } else {
                    OscAction::Ignore
                }
            },
            OscAddress::TrackPan => {
                if args@.len() >= 2 && args@[0] is Int && args@[1] is Micro && args@[0]->Int_0 >= 0 {
                    OscAction::Emit(
                        ControlMessage::TrackPan {
                            tcode: 0,
                            val: args@[1]->Micro_0,
                            track_num: args@[0]->Int_0 as usize,
                        },
                    )
                } else {
                    OscAction::Ignore
                }
            },
            OscAddress::Unknown => OscAction::Ignore,
        },
{
    match addr {
        OscAddress::Ping => {
            if args.len() >= 1 {
                if let OscArg::Int(nonce) = args[0] {
                    return OscAction::ReplyPing(nonce);
                }
            }
            OscAction::Ignore
        },
        OscAddress::GetConfig => OscAction::SendConfig,
        OscAddress::TrackVolume => {
            if args.len() >= 2 {
                if let OscArg::Int(idx) = args[0] {
                    if let OscArg::Micro(val) = args[1] {
                        if idx >= 0 {
                            return OscAction::Emit(
                                ControlMessage::TrackVolume {
                                    tcode: 0,
                                    val,
                                    track_num: idx as usize,
                                },
                            );
                        }
                    }
                }
            }
            OscAction::Ignore
        },
        OscAddress::TrackPan => {
            if args.len() >= 2 {
                if let OscArg::Int(idx) = args[0] {
                    if let OscArg::Micro(val) = args[1] {
                        if idx >= 0 {
                            return OscAction::Emit(
                                ControlMessage::TrackPan {
                                    tcode: 0,
                                    val,
                                    track_num: idx as usize,
                                },
                            );
                        }
                    }
                }
            }
            OscAction::Ignore
        },
        OscAddress::Unknown => OscAction::Ignore,
    }
}

} // verus!
