//! Decoding OpenFlow actions from their wire format.
use vstd::prelude::*;
use vstd::slice::slice_subrange;
use crate::wire::{get16, get32, get64, read_be16, read_be32, read_be64};
use crate::text::{decimal, decimal_string, hex, hex_string};
use crate::openflow::action::{
    action_type_of, port_of_wire, Action, ActionModel, ActionType, Ipv4Addr, MacAddr, OutputPort,
    NICIRA_VENDOR_ID,
};
use crate::openflow::error::{parse_message, Error};
use crate::openflow::learn::{decode_learn_specs, decode_specs, LearnSpec, NxLearn, NxLearnModel};
use crate::openflow::port;

verus! {

/// The six bytes of `d` starting at `i`, as a MAC address.
pub open spec fn mac_at(d: Seq<u8>, i: int) -> MacAddr {
    [d[i], d[i + 1], d[i + 2], d[i + 3], d[i + 4], d[i + 5]]
}

/// The four bytes of `d` starting at `i`, as an IPv4 address.
pub open spec fn ipv4_at(d: Seq<u8>, i: int) -> Ipv4Addr {
    [d[i], d[i + 1], d[i + 2], d[i + 3]]
}

/// The OXM class of an OXM header (its top 16 bits).
pub open spec fn oxm_class_of(h: u32) -> u32 {
    h / 0x1_0000
}

/// The field number of an OXM header (7 bits above the mask bit).
pub open spec fn oxm_field_of(h: u32) -> u32 {
    (h / 0x200) % 0x80
}

/// The payload length of an OXM header (its low 8 bits).
pub open spec fn oxm_len_of(h: u32) -> u32 {
    h % 0x100
}

/// A set-field action body `d` (OXM header and value): the action it sets,
/// `Drop` for a field or class that is not decoded, or the error message.
#[verifier::opaque]
pub open spec fn spec_decode_set_field(d: Seq<u8>) -> Result<ActionModel, Seq<char>> {
    if d.len() < 4 {
        Err("set_field action too short"@)
    } else {
        let h = get32(d, 0);
        let class = oxm_class_of(h);
        let field = oxm_field_of(h);
        let length = oxm_len_of(h);
        if d.len() < 4 + length {
            Err("set_field value truncated"@)
        } else if class == 0x8000 {
            if field == 4 && length >= 6 {
                Ok(ActionModel::SetEthSrc(mac_at(d, 4)))
            } else if field == 3 && length >= 6 {
                Ok(ActionModel::SetEthDst(mac_at(d, 4)))
            } else if field == 6 && length >= 2 {
                Ok(ActionModel::SetVlanVid((get16(d, 4) % 0x1000) as u16))
            } else if field == 11 && length >= 4 {
                Ok(ActionModel::SetIpv4Src(ipv4_at(d, 4)))
            } else if field == 12 && length >= 4 {
                Ok(ActionModel::SetIpv4Dst(ipv4_at(d, 4)))
            } else if (field == 13 || field == 15) && length >= 2 {
                Ok(ActionModel::SetTpSrc(get16(d, 4)))
            } else if (field == 14 || field == 16) && length >= 2 {
                Ok(ActionModel::SetTpDst(get16(d, 4)))
            } else {
                Ok(ActionModel::Drop)
            }
        } else if class == 1 {
            if field == 16 && length >= 8 {
                Ok(ActionModel::SetTunnelId(get64(d, 4)))
            } else {
                Ok(ActionModel::Drop)
            }
        } else {
            Ok(ActionModel::Drop)
        }
    }
}

/// `None` stands for the reserved value `none` of a field.
pub open spec fn opt_u16(v: u16, none: u16) -> Option<u16> {
    if v == none { None } else { Some(v) }
}

/// `None` stands for the reserved value `none` of a field.
pub open spec fn opt_u8(v: u8, none: u8) -> Option<u8> {
    if v == none { None } else { Some(v) }
}

/// The learn action whose Nicira body (subtype onward) is `d`.
pub open spec fn spec_decode_learn(d: Seq<u8>) -> NxLearnModel {
    NxLearnModel {
        idle_timeout: get16(d, 2),
        hard_timeout: get16(d, 4),
        priority: get16(d, 6),
        cookie: get64(d, 8),
        flags: get16(d, 16),
        table_id: d[18],
        fin_idle_timeout: get16(d, 20),
        fin_hard_timeout: if d.len() > 23 { get16(d, 22) } else { 0 },
        specs: if d.len() > 24 { decode_specs(d.skip(24)) } else { Seq::empty() },
    }
}

/// A Nicira action body `d` (subtype onward): the action, `Drop` for a
/// subtype that is not decoded, or the error message.
#[verifier::opaque]
pub open spec fn spec_decode_nicira(d: Seq<u8>) -> Result<ActionModel, Seq<char>> {
    if d.len() < 2 {
        Err("nicira action too short"@)
    } else {
        let subtype = get16(d, 0);
        if subtype == 14 {
            if d.len() < 6 {
                Err("resubmit action too short"@)
            } else {
                Ok(ActionModel::NxResubmit { port: opt_u16(get16(d, 2), 0xfff8), table: opt_u8(d[4], 255) })
            }
        } else if subtype == 1 {
            if d.len() < 4 {
                Err("resubmit action too short"@)
            } else {
                Ok(ActionModel::NxResubmit { port: opt_u16(get16(d, 2), 0xfff8), table: None })
            }
        } else if subtype == 35 {
            if d.len() < 10 {
                Err("ct action too short"@)
            } else {
                Ok(ActionModel::NxCt {
                    flags: get16(d, 2),
                    zone: get16(d, 8),
                    table: opt_u8(if d.len() > 10 { d[10] } else { 255u8 }, 255),
                })
            }
        } else if subtype == 33 {
            if d.len() < 6 {
                Err("reg_load2 action too short"@)
            } else {
                let h = get32(d, 2);
                let length = oxm_len_of(h);
                if d.len() < 6 + length {
                    Err("reg_load2 value truncated"@)
                } else if oxm_class_of(h) == 1 && oxm_field_of(h) == 16 && length >= 8 {
                    Ok(ActionModel::SetTunnelId(get64(d, 6)))
                } else {
                    Ok(ActionModel::Drop)
                }
            }
        } else if subtype == 16 {
            if d.len() < 22 {
                Err("learn action too short"@)
            } else {
                Ok(ActionModel::NxLearn(spec_decode_learn(d)))
            }
        } else {
            Ok(ActionModel::Drop)
        }
    }
}

/// The inputs on which the decoder would slice out of bounds: a set-field
/// action whose declared length is below its 4-byte header.
pub open spec fn decode_would_panic(s: Seq<u8>) -> bool {
    s.len() >= 4 && get16(s, 2) <= s.len() && get16(s, 0) == 25 && get16(s, 2) < 4
}

/// The action at the start of `s` as `spec_decode_action` reads it, except
/// that a set-field action declaring a length below its header is an error.
pub open spec fn spec_decode_action_checked(s: Seq<u8>) -> Result<(ActionModel, int), Seq<char>> {
    if decode_would_panic(s) {
        Err("set_field action too short"@)
    } else {
        spec_decode_action(s)
    }
}

/// The action at the start of `s` and its declared length, or the error message.
#[verifier::opaque]
pub open spec fn spec_decode_action(s: Seq<u8>) -> Result<(ActionModel, int), Seq<char>> {
    if s.len() < 4 {
        Err("action too short"@)
    } else {
        let t = get16(s, 0);
        let length = get16(s, 2) as int;
        if s.len() < length {
            Err("action truncated"@)
        } else {
            match action_type_of(t) {
                None => Err("unknown action type: "@ + decimal(t as nat)),
                Some(at) => {
                    let body: Result<ActionModel, Seq<char>> = match at {
                        ActionType::Output => if length < 16 {
                            Err("output action too short"@)
                        } else {
                            let p = get32(s, 4);
                            if p == port::CONTROLLER {
                                Ok(ActionModel::Controller { max_len: get16(s, 8) })
                            } else {
                                Ok(ActionModel::Output(port_of_wire(p)))
                            }
                        },
                        ActionType::PopVlan => Ok(ActionModel::PopVlan),
                        ActionType::PushVlan => if length < 8 {
                            Err("push_vlan action too short"@)
                        } else {
                            Ok(ActionModel::PushVlan(get16(s, 4)))
                        },
                        ActionType::DecNwTtl => Ok(ActionModel::DecTtl),
                        ActionType::SetNwTtl => if length < 8 {
                            Err("set_nw_ttl action too short"@)
                        } else {
                            Ok(ActionModel::SetTtl(s[4]))
                        },
                        ActionType::Group => if length < 8 {
                            Err("group action too short"@)
                        } else {
                            Ok(ActionModel::Group(get32(s, 4)))
                        },
                        ActionType::SetField => spec_decode_set_field(s.subrange(4, length)),
                        ActionType::Experimenter => if length < 10 {
                            Err("experimenter action too short"@)
                        } else {
                            let vendor = get32(s, 4);
                            if vendor == NICIRA_VENDOR_ID {
                                spec_decode_nicira(s.subrange(8, length))
                            } else {
                                Err("unknown experimenter vendor: 0x"@ + hex(vendor as nat))
                            }
                        },
                        _ => Ok(ActionModel::Drop),
                    };
                    match body {
                        Ok(a) => Ok((a, length)),
                        Err(m) => Err(m),
                    }
                },
            }
        }
    }
}

/// An exec decoding result agrees with its specification: the same value on
/// success, a parse error with the same message on failure.
pub open spec fn decoded_as<T: View>(r: Result<T, Error>, spec: Result<T::V, Seq<char>>) -> bool {
    match r {
        Ok(v) => spec == Ok::<T::V, Seq<char>>(v@),
        Err(e) => parse_message(e) is Some && spec == Err::<T::V, Seq<char>>(parse_message(e)->0),
    }
}

/// The error for a fixed message.
fn parse_error(msg: &str) -> (e: Error)
    ensures
        parse_message(e) == Some(msg@),
{
    Error::Parse(msg.to_owned())
}

fn read_mac(d: &[u8], i: usize) -> (r: MacAddr)
    requires
        i + 6 <= d@.len(),
    ensures
        r == mac_at(d@, i as int),
{
    [d[i], d[i + 1], d[i + 2], d[i + 3], d[i + 4], d[i + 5]]
}

fn read_ipv4(d: &[u8], i: usize) -> (r: Ipv4Addr)
    requires
        i + 4 <= d@.len(),
    ensures
        r == ipv4_at(d@, i as int),
{
    [d[i], d[i + 1], d[i + 2], d[i + 3]]
}

/// Decode SetField action.
///
/// SetField uses OXM format: OXM header (4 bytes) + value.
pub fn decode_set_field_action(data: &[u8]) -> (r: Result<Action, Error>)
    ensures
        decoded_as(r, spec_decode_set_field(data@)),
{
    reveal(spec_decode_set_field);
    let len = data.len();
    if len < 4 {
        return Err(parse_error("set_field action too short"));
    }
    let h = read_be32(data, 0);
    let class = h / 0x1_0000;
    let field = (h / 0x200) % 0x80;
    let length = (h % 0x100) as usize;
    if len < 4 + length {
        return Err(parse_error("set_field value truncated"));
    }
    if class == 0x8000 {
        if field == 4 && length >= 6 {
            Ok(Action::SetEthSrc(read_mac(data, 4)))
        } else if field == 3 && length >= 6 {
            Ok(Action::SetEthDst(read_mac(data, 4)))
        } else if field == 6 && length >= 2 {
            Ok(Action::SetVlanVid(read_be16(data, 4) % 0x1000))
        } else if field == 11 && length >= 4 {
            Ok(Action::SetIpv4Src(read_ipv4(data, 4)))
        } else if field == 12 && length >= 4 {
            Ok(Action::SetIpv4Dst(read_ipv4(data, 4)))
        } else if (field == 13 || field == 15) && length >= 2 {
            Ok(Action::SetTpSrc(read_be16(data, 4)))
        } else if (field == 14 || field == 16) && length >= 2 {
            Ok(Action::SetTpDst(read_be16(data, 4)))
        } else {
            Ok(Action::Drop)
        }
    } else if class == 1 {
        if field == 16 && length >= 8 {
            Ok(Action::SetTunnelId(read_be64(data, 4)))
        } else {
            Ok(Action::Drop)
        }
    } else {
        Ok(Action::Drop)
    }
}

fn opt16(v: u16, none: u16) -> (r: Option<u16>)
    ensures
        r == opt_u16(v, none),
{
    if v == none { None } else { Some(v) }
}

fn opt8(v: u8, none: u8) -> (r: Option<u8>)
    ensures
        r == opt_u8(v, none),
{
    if v == none { None } else { Some(v) }
}

/// Decodes the body of a learn action.
fn decode_learn(data: &[u8]) -> (r: NxLearn)
    requires
        data@.len() >= 22,
    ensures
        r@ == spec_decode_learn(data@),
{
    let len = data.len();
    let fin_hard_timeout = if len > 23 { read_be16(data, 22) } else { 0 };
    let specs: Vec<LearnSpec> = if len > 24 {
        decode_learn_specs(slice_subrange(data, 24, len))
    } else {
        Vec::new()
    };
    let r = NxLearn {
        idle_timeout: read_be16(data, 2),
        hard_timeout: read_be16(data, 4),
        priority: read_be16(data, 6),
        cookie: read_be64(data, 8),
        flags: read_be16(data, 16),
        table_id: data[18],
        fin_idle_timeout: read_be16(data, 20),
        fin_hard_timeout,
        specs,
    };
    assert(data@.subrange(24, len as int) =~= data@.skip(24));
    assert(r@.specs =~= spec_decode_learn(data@).specs);
    r
}

/// Decode Nicira experimenter action.
///
/// The vendor ID has already been consumed. Data starts at subtype.
pub fn decode_nicira_action(data: &[u8]) -> (r: Result<Action, Error>)
    ensures
        decoded_as(r, spec_decode_nicira(data@)),
{
    reveal(spec_decode_nicira);
    let len = data.len();
    if len < 2 {
        return Err(parse_error("nicira action too short"));
    }
    let subtype = read_be16(data, 0);
    if subtype == 14 {
        if len < 6 {
            return Err(parse_error("resubmit action too short"));
        }
        Ok(Action::NxResubmit { port: opt16(read_be16(data, 2), 0xfff8), table: opt8(data[4], 255) })
    } else if subtype == 1 {
        if len < 4 {
            return Err(parse_error("resubmit action too short"));
        }
        Ok(Action::NxResubmit { port: opt16(read_be16(data, 2), 0xfff8), table: None })
    } else if subtype == 35 {
        if len < 10 {
            return Err(parse_error("ct action too short"));
        }
        let recirc_table: u8 = if len > 10 { data[10] } else { 255 };
        Ok(Action::NxCt { flags: read_be16(data, 2), zone: read_be16(data, 8), table: opt8(recirc_table, 255) })
    } else if subtype == 33 {
        if len < 6 {
            return Err(parse_error("reg_load2 action too short"));
        }
        let h = read_be32(data, 2);
        let length = (h % 0x100) as usize;
        if len < 6 + length {
            return Err(parse_error("reg_load2 value truncated"));
        }
        if h / 0x1_0000 == 1 && (h / 0x200) % 0x80 == 16 && length >= 8 {
            Ok(Action::SetTunnelId(read_be64(data, 6)))
        } else {
            Ok(Action::Drop)
        }
    } else if subtype == 16 {
        if len < 22 {
            return Err(parse_error("learn action too short"));
        }
        Ok(Action::NxLearn(decode_learn(data)))
    } else {
        Ok(Action::Drop)
    }
}

impl Action {
    /// Decode an action from OpenFlow wire format, refusing with an error a
    /// set-field action whose declared length is below its 4-byte header.
    ///
    /// Returns the decoded action and the number of bytes consumed.
    pub fn decode_checked(data: &[u8]) -> (r: Result<(Action, usize), Error>)
        ensures
            match r {
                Ok((a, n)) => spec_decode_action_checked(data@) == Ok::<(ActionModel, int), Seq<char>>(
                    (a@, n as int),
                ) && n <= data@.len() && n == get16(data@, 2),
                Err(e) => parse_message(e) is Some && spec_decode_action_checked(data@) == Err::<
                    (ActionModel, int),
                    Seq<char>,
                >(parse_message(e)->0),
            },
    {
        let len = data.len();
        if len >= 4 {
            let t = read_be16(data, 0);
            let length = read_be16(data, 2);
            if (length as usize) <= len && t == 25 && length < 4 {
                return Err(parse_error("set_field action too short"));
            }
        }
        Action::decode(data)
    }

    /// Decode action from OpenFlow wire format.
    ///
    /// Returns the decoded action and the number of bytes consumed.
    #[verifier::rlimit(40)]
    pub fn decode(data: &[u8]) -> (r: Result<(Action, usize), Error>)
        requires
            !decode_would_panic(data@),
        ensures
            match r {
                Ok((a, n)) => spec_decode_action(data@) == Ok::<(ActionModel, int), Seq<char>>((a@, n as int))
                    && n <= data@.len() && n == get16(data@, 2),
                Err(e) => parse_message(e) is Some
                    && spec_decode_action(data@) == Err::<(ActionModel, int), Seq<char>>(parse_message(e)->0),
            },
    {
        reveal(spec_decode_action);
        let len = data.len();
        if len < 4 {
            return Err(parse_error("action too short"));
        }
        let t = read_be16(data, 0);
        let length = read_be16(data, 2) as usize;
        if len < length {
            return Err(parse_error("action truncated"));
        }
        let at = match ActionType::from_wire(t) {
            Some(at) => at,
            None => {
                let msg = "unknown action type: ".to_owned().concat(decimal_string(t as u64).as_str());
                return Err(Error::Parse(msg));
            },
        };
        let action = match at {
            ActionType::Output => {
                if length < 16 {
                    return Err(parse_error("output action too short"));
                }
                let port_num = read_be32(data, 4);
                let max_len = read_be16(data, 8);
                if port_num == port::CONTROLLER {
                    Action::Controller { max_len }
                } else {
                    Action::Output(OutputPort::from_wire(port_num))
                }
            },
            ActionType::PopVlan => Action::PopVlan,
            ActionType::PushVlan => {
                if length < 8 {
                    return Err(parse_error("push_vlan action too short"));
                }
                Action::PushVlan(read_be16(data, 4))
            },
            ActionType::DecNwTtl => Action::DecTtl,
            ActionType::SetNwTtl => {
                if length < 8 {
                    return Err(parse_error("set_nw_ttl action too short"));
                }
                Action::SetTtl(data[4])
            },
            ActionType::Group => {
                if length < 8 {
                    return Err(parse_error("group action too short"));
                }
                Action::Group(read_be32(data, 4))
            },
            ActionType::SetField => {
                match decode_set_field_action(slice_subrange(data, 4, length)) {
                    Ok(a) => a,
                    Err(e) => return Err(e),
                }
            },
            ActionType::Experimenter => {
                if length < 10 {
                    return Err(parse_error("experimenter action too short"));
                }
                let vendor = read_be32(data, 4);
                if vendor == NICIRA_VENDOR_ID {
                    match decode_nicira_action(slice_subrange(data, 8, length)) {
                        Ok(a) => a,
                        Err(e) => return Err(e),
                    }
                } else {
                    let msg = "unknown experimenter vendor: 0x".to_owned().concat(hex_string(vendor as u64).as_str());
                    return Err(Error::Parse(msg));
                }
            },
            _ => Action::Drop,
        };
        Ok((action, length))
    }
}

} // verus!
