//! What decoding gives back of encoded actions and action lists.
use vstd::prelude::*;
use crate::wire::{
    be16, be32, be64, get16, get32, get64, lemma_get16_be16, lemma_get32_be32, lemma_get64_be64,
    zeros,
};
use crate::openflow::action::{
    action_bytes, action_encodable, basic_oxm, ct_bytes, ipv4_value, learn_bytes, learn_fits,
    learn_padded_len, learn_unpadded_len, move_bytes, nx_header_bytes, output_bytes, port_of_wire,
    resubmit_bytes, set_field_bytes, short_action_bytes, tunnel_id_bytes, wire_port, ActionModel,
    NICIRA_VENDOR_ID, TUN_ID_HEADER,
};
use crate::openflow::action_list::{
    actions_bytes, list_bytes, list_decode_safe, list_encodable, padding_to_8, spec_decode_list,
};
use crate::openflow::decode::{
    decode_would_panic, ipv4_at, mac_at, opt_u16, opt_u8, spec_decode_action, spec_decode_learn,
    spec_decode_nicira, spec_decode_set_field,
};
use crate::openflow::learn::{
    lemma_decode_specs_bytes, lemma_decode_step_zeros, spec_bytes, spec_wf, specs_bytes,
    LearnSpecModel, NxLearnModel,
};
use crate::openflow::port;

verus! {

broadcast use vstd::array::group_array_axioms;

/// A learn action whose specs all read back and whose length fits the
/// 16-bit length field.
pub open spec fn learn_wf(l: NxLearnModel) -> bool {
    &&& learn_fits(l)
    &&& learn_padded_len(l) <= 0xffff
    &&& forall|i: int| 0 <= i < l.specs.len() ==> spec_wf(#[trigger] l.specs[i])
}

/// An action that can be encoded and read back: learn actions must be
/// well-formed; every other action qualifies.
pub open spec fn action_wf(a: ActionModel) -> bool {
    match a {
        ActionModel::NxLearn(l) => learn_wf(l),
        _ => true,
    }
}

/// Actions with no bytes of their own (placeholders and instructions).
pub open spec fn encodes_empty(a: ActionModel) -> bool {
    a is Drop || a is GotoTable || a is WriteMetadata || a is Meter
}

/// The action that decoding the bytes of `a` gives back: reserved port
/// numbers come back as named ports (the controller port as a controller
/// action with the full `max_len`), a VLAN ID loses the bits above its 12,
/// the reserved "none" values of resubmit and conntrack come back as `None`,
/// and a move comes back as the `Drop` placeholder.
pub open spec fn decoded_form(a: ActionModel) -> ActionModel {
    match a {
        ActionModel::Output(p) => if wire_port(p) == port::CONTROLLER {
            ActionModel::Controller { max_len: 0xffff }
        } else {
            ActionModel::Output(port_of_wire(wire_port(p)))
        },
        ActionModel::SetVlanVid(v) => ActionModel::SetVlanVid((v % 0x1000) as u16),
        ActionModel::NxResubmit { port, table } => ActionModel::NxResubmit {
            port: opt_u16(match port { Some(p) => p, None => 0xfff8u16 }, 0xfff8),
            table: opt_u8(match table { Some(t) => t, None => 255u8 }, 255),
        },
        ActionModel::NxCt { flags, zone, table } => ActionModel::NxCt {
            flags,
            zone,
            table: opt_u8(match table { Some(t) => t, None => 255u8 }, 255),
        },
        ActionModel::NxMove { .. } => ActionModel::Drop,
        _ => a,
    }
}

/// What an action list reads back as: the actions that have bytes of their
/// own, each in its decoded form, except those that come back as `Drop`.
pub open spec fn expected_decoding(l: Seq<ActionModel>) -> Seq<ActionModel>
    decreases l.len(),
{
    if l.len() == 0 {
        Seq::empty()
    } else if encodes_empty(l[0]) || decoded_form(l[0]) is Drop {
        expected_decoding(l.skip(1))
    } else {
        seq![decoded_form(l[0])] + expected_decoding(l.skip(1))
    }
}

proof fn lemma_head(s: Seq<u8>, t: u16, len: u16)
    requires
        s.len() >= 4,
        s.subrange(0, 2) == be16(t),
        s.subrange(2, 4) == be16(len),
    ensures
        get16(s, 0) == t,
        get16(s, 2) == len,
{
    lemma_get16_be16(s, 0, t);
    lemma_get16_be16(s, 2, len);
}

proof fn lemma_ipv4_octets(a: [u8; 4])
    ensures
        be32(ipv4_value(a)) == a@,
{
    let a0 = a[0] as u32;
    let a1 = a[1] as u32;
    let a2 = a[2] as u32;
    let a3 = a[3] as u32;
    let v = ipv4_value(a);
    assert(v == a0 * 0x100_0000 + a1 * 0x1_0000 + a2 * 0x100 + a3);
    assert(v / 0x1_0000 == a0 * 0x100 + a1 && v % 0x1_0000 == a2 * 0x100 + a3) by (nonlinear_arith)
        requires
            v == a0 * 0x100_0000 + a1 * 0x1_0000 + a2 * 0x100 + a3,
            a0 < 256,
            a1 < 256,
            a2 < 256,
            a3 < 256,
    ;
    let hi = (a0 * 0x100 + a1) as u16;
    let lo = (a2 * 0x100 + a3) as u16;
    assert(hi / 256 == a0 && hi % 256 == a1) by (nonlinear_arith)
        requires
            hi == a0 * 0x100 + a1,
            a0 < 256,
            a1 < 256,
    ;
    assert(lo / 256 == a2 && lo % 256 == a3) by (nonlinear_arith)
        requires
            lo == a2 * 0x100 + a3,
            a2 < 256,
            a3 < 256,
    ;
    assert(be32(v) =~= a@);
}

proof fn lemma_vid_bits(v: u16)
    ensures
        ((v | 0x1000u16) % 0x1000) == v % 0x1000,
{
    assert(((v | 0x1000u16) % 0x1000) == v % 0x1000) by (bit_vector);
}

/// Decoding an output action.
proof fn lemma_decode_output(w: u32, m: u16, rest: Seq<u8>)
    ensures
        !decode_would_panic(output_bytes(w, m) + rest),
        spec_decode_action(output_bytes(w, m) + rest) == Ok::<(ActionModel, int), Seq<char>>((
            if w == port::CONTROLLER {
                ActionModel::Controller { max_len: m }
            } else {
                ActionModel::Output(port_of_wire(w))
            },
            16,
        )),
{
    reveal(spec_decode_action);
    let s = output_bytes(w, m) + rest;
    assert(s.subrange(0, 2) =~= be16(0));
    assert(s.subrange(2, 4) =~= be16(16));
    assert(s.subrange(4, 8) =~= be32(w));
    assert(s.subrange(8, 10) =~= be16(m));
    lemma_head(s, 0, 16);
    lemma_get32_be32(s, 4, w);
    lemma_get16_be16(s, 8, m);
}

/// Decoding an eight-byte action.
proof fn lemma_decode_short(t: u16, body: Seq<u8>, rest: Seq<u8>)
    requires
        body.len() == 4,
        t == 17 || t == 18 || t == 22 || t == 23 || t == 24,
    ensures
        !decode_would_panic(short_action_bytes(t, body) + rest),
        spec_decode_action(short_action_bytes(t, body) + rest) == Ok::<(ActionModel, int), Seq<char>>((
            if t == 17 {
                ActionModel::PushVlan(get16(body, 0))
            } else if t == 18 {
                ActionModel::PopVlan
            } else if t == 22 {
                ActionModel::Group(get32(body, 0))
            } else if t == 23 {
                ActionModel::SetTtl(body[0])
            } else {
                ActionModel::DecTtl
            },
            8,
        )),
{
    reveal(spec_decode_action);
    let s = short_action_bytes(t, body) + rest;
    assert(s.subrange(0, 2) =~= be16(t));
    assert(s.subrange(2, 4) =~= be16(8));
    lemma_head(s, t, 8);
    assert(s[4] == body[0]);
    assert(s[5] == body[1]);
    assert(s[6] == body[2]);
    assert(s[7] == body[3]);
}

/// Decoding a set-field action body.
#[verifier::rlimit(80)]
proof fn lemma_decode_set_field_body(f: u32, value: Seq<u8>)
    requires
        value.len() == 2 || value.len() == 4 || value.len() == 6,
        f < 128,
    ensures
        ({
            let d = be32(basic_oxm(f, value.len() as u32)) + value + zeros((8 - value.len()) as nat);
            &&& d.len() == 12
            &&& spec_decode_set_field(d) == Ok::<ActionModel, Seq<char>>(
                if f == 4 && value.len() >= 6 {
                    ActionModel::SetEthSrc(mac_at(d, 4))
                } else if f == 3 && value.len() >= 6 {
                    ActionModel::SetEthDst(mac_at(d, 4))
                } else if f == 6 && value.len() >= 2 {
                    ActionModel::SetVlanVid((get16(d, 4) % 0x1000) as u16)
                } else if f == 11 && value.len() >= 4 {
                    ActionModel::SetIpv4Src(ipv4_at(d, 4))
                } else if f == 12 && value.len() >= 4 {
                    ActionModel::SetIpv4Dst(ipv4_at(d, 4))
                } else if (f == 13 || f == 15) && value.len() >= 2 {
                    ActionModel::SetTpSrc(get16(d, 4))
                } else if (f == 14 || f == 16) && value.len() >= 2 {
                    ActionModel::SetTpDst(get16(d, 4))
                } else {
                    ActionModel::Drop
                })
            &&& d.subrange(4, 4 + value.len() as int) == value
        }),
{
    reveal(spec_decode_set_field);
    let vl = value.len() as u32;
    let h = basic_oxm(f, vl);
    let d = be32(h) + value + zeros((8 - value.len()) as nat);
    assert(d.subrange(0, 4) =~= be32(h));
    lemma_get32_be32(d, 0, h);
    assert(h / 0x1_0000 == 0x8000);
    assert((h / 0x200) % 0x80 == f);
    assert(h % 0x100 == vl);
    assert(d.subrange(4, 4 + value.len() as int) =~= value);
}

/// Decoding a set-field action.
proof fn lemma_decode_set_field(f: u32, value: Seq<u8>, rest: Seq<u8>)
    requires
        value.len() == 2 || value.len() == 4 || value.len() == 6,
        f < 128,
    ensures
        !decode_would_panic(set_field_bytes(f, value) + rest),
        spec_decode_action(set_field_bytes(f, value) + rest) == match spec_decode_set_field(
            be32(basic_oxm(f, value.len() as u32)) + value + zeros((8 - value.len()) as nat),
        ) {
            Ok(a) => Ok::<(ActionModel, int), Seq<char>>((a, 16)),
            Err(m) => Err(m),
        },
{
    reveal(spec_decode_action);
    let s = set_field_bytes(f, value) + rest;
    assert(s.subrange(0, 2) =~= be16(25));
    assert(s.subrange(2, 4) =~= be16(16));
    lemma_head(s, 25, 16);
    let d = be32(basic_oxm(f, value.len() as u32)) + value + zeros((8 - value.len()) as nat);
    assert(s.subrange(4, 16) =~= d);
}

/// Decoding a Nicira experimenter action: the body handed to the Nicira
/// decoder is everything after the vendor, up to the declared length.
proof fn lemma_decode_nx(subtype: u16, len: u16, body: Seq<u8>, rest: Seq<u8>)
    requires
        len >= 10,
        body.len() + 10 == len,
    ensures
        !decode_would_panic(nx_header_bytes(subtype, len) + body + rest),
        spec_decode_action(nx_header_bytes(subtype, len) + body + rest) == match spec_decode_nicira(
            be16(subtype) + body,
        ) {
            Ok(a) => Ok::<(ActionModel, int), Seq<char>>((a, len as int)),
            Err(m) => Err(m),
        },
{
    reveal(spec_decode_action);
    let s = nx_header_bytes(subtype, len) + body + rest;
    assert(s.subrange(0, 2) =~= be16(0xffff));
    assert(s.subrange(2, 4) =~= be16(len));
    lemma_head(s, 0xffff, len);
    assert(s.subrange(4, 8) =~= be32(NICIRA_VENDOR_ID));
    lemma_get32_be32(s, 4, NICIRA_VENDOR_ID);
    assert(s.subrange(8, len as int) =~= be16(subtype) + body);
}

proof fn lemma_decode_tunnel(t: u64, rest: Seq<u8>)
    ensures
        !decode_would_panic(tunnel_id_bytes(t) + rest),
        spec_decode_action(tunnel_id_bytes(t) + rest) == Ok::<(ActionModel, int), Seq<char>>((
            ActionModel::SetTunnelId(t),
            24,
        )),
{
    reveal(spec_decode_nicira);
    let body = be32(TUN_ID_HEADER) + be64(t) + zeros(2);
    assert(tunnel_id_bytes(t) + rest =~= nx_header_bytes(33, 24) + body + rest);
    lemma_decode_nx(33, 24, body, rest);
    let d = be16(33) + body;
    assert(d.subrange(0, 2) =~= be16(33));
    lemma_get16_be16(d, 0, 33);
    assert(d.subrange(2, 6) =~= be32(TUN_ID_HEADER));
    lemma_get32_be32(d, 2, TUN_ID_HEADER);
    assert(d.subrange(6, 14) =~= be64(t));
    lemma_get64_be64(d, 6, t);
}

proof fn lemma_decode_resubmit(p: Option<u16>, tb: Option<u8>, rest: Seq<u8>)
    ensures
        !decode_would_panic(resubmit_bytes(p, tb) + rest),
        spec_decode_action(resubmit_bytes(p, tb) + rest) == Ok::<(ActionModel, int), Seq<char>>((
            decoded_form(ActionModel::NxResubmit { port: p, table: tb }),
            16,
        )),
{
    reveal(spec_decode_nicira);
    let pv: u16 = match p { Some(x) => x, None => 0xfff8u16 };
    let tv: u8 = match tb { Some(x) => x, None => 255u8 };
    let body = be16(pv) + seq![tv] + zeros(3);
    assert(resubmit_bytes(p, tb) + rest =~= nx_header_bytes(14, 16) + body + rest);
    lemma_decode_nx(14, 16, body, rest);
    let d = be16(14) + body;
    assert(d.subrange(0, 2) =~= be16(14));
    lemma_get16_be16(d, 0, 14);
    assert(d.subrange(2, 4) =~= be16(pv));
    lemma_get16_be16(d, 2, pv);
    assert(d[4] == tv);
}

proof fn lemma_decode_ct(flags: u16, zone: u16, tb: Option<u8>, rest: Seq<u8>)
    ensures
        !decode_would_panic(ct_bytes(flags, zone, tb) + rest),
        spec_decode_action(ct_bytes(flags, zone, tb) + rest) == Ok::<(ActionModel, int), Seq<char>>((
            decoded_form(ActionModel::NxCt { flags, zone, table: tb }),
            24,
        )),
{
    reveal(spec_decode_nicira);
    let tv: u8 = match tb { Some(x) => x, None => 255u8 };
    let body = be16(flags) + be32(0) + be16(zone) + seq![tv] + zeros(3) + be16(0);
    assert(ct_bytes(flags, zone, tb) + rest =~= nx_header_bytes(35, 24) + body + rest);
    lemma_decode_nx(35, 24, body, rest);
    let d = be16(35) + body;
    assert(d.subrange(0, 2) =~= be16(35));
    lemma_get16_be16(d, 0, 35);
    assert(d.subrange(2, 4) =~= be16(flags));
    lemma_get16_be16(d, 2, flags);
    assert(d.subrange(8, 10) =~= be16(zone));
    lemma_get16_be16(d, 8, zone);
    assert(d[10] == tv);
}

proof fn lemma_decode_move(src_field: u32, dst_field: u32, n_bits: u16, src_ofs: u16, dst_ofs: u16, rest: Seq<u8>)
    ensures
        !decode_would_panic(move_bytes(src_field, dst_field, n_bits, src_ofs, dst_ofs) + rest),
        spec_decode_action(move_bytes(src_field, dst_field, n_bits, src_ofs, dst_ofs) + rest)
            == Ok::<(ActionModel, int), Seq<char>>((ActionModel::Drop, 24)),
{
    reveal(spec_decode_nicira);
    let body = be16(n_bits) + be16(src_ofs) + be16(dst_ofs) + be32(src_field) + be32(dst_field);
    assert(move_bytes(src_field, dst_field, n_bits, src_ofs, dst_ofs) + rest =~= nx_header_bytes(6, 24) + body + rest);
    lemma_decode_nx(6, 24, body, rest);
    let d = be16(6) + body;
    assert(d.subrange(0, 2) =~= be16(6));
    lemma_get16_be16(d, 0, 6);
}

proof fn lemma_specs_bytes_empty(specs: Seq<LearnSpecModel>)
    requires
        specs_bytes(specs).len() == 0,
    ensures
        specs.len() == 0,
{
    if specs.len() > 0 {
        assert(spec_bytes(specs[0]).len() >= 6);
    }
}

/// The fixed part of a learn action body: subtype and fields.
spec fn learn_fields(l: NxLearnModel) -> Seq<u8> {
    be16(16) + be16(l.idle_timeout) + be16(l.hard_timeout) + be16(l.priority) + be64(l.cookie)
        + be16(l.flags) + seq![l.table_id, 0u8] + be16(l.fin_idle_timeout) + be16(l.fin_hard_timeout)
}

proof fn lemma_learn_fields(l: NxLearnModel, tail: Seq<u8>)
    ensures
        ({
            let d = learn_fields(l) + tail;
            &&& d.len() == 24 + tail.len()
            &&& get16(d, 0) == 16
            &&& get16(d, 2) == l.idle_timeout
            &&& get16(d, 4) == l.hard_timeout
            &&& get16(d, 6) == l.priority
            &&& get64(d, 8) == l.cookie
            &&& get16(d, 16) == l.flags
            &&& d[18] == l.table_id
            &&& get16(d, 20) == l.fin_idle_timeout
            &&& get16(d, 22) == l.fin_hard_timeout
            &&& d.skip(24) == tail
        }),
{
    let f = learn_fields(l);
    let d = f + tail;
    assert(f.len() == 24);
    assert(f.subrange(0, 2) =~= be16(16));
    lemma_get16_be16(f, 0, 16);
    assert(f.subrange(2, 4) =~= be16(l.idle_timeout));
    lemma_get16_be16(f, 2, l.idle_timeout);
    assert(f.subrange(4, 6) =~= be16(l.hard_timeout));
    lemma_get16_be16(f, 4, l.hard_timeout);
    assert(f.subrange(6, 8) =~= be16(l.priority));
    lemma_get16_be16(f, 6, l.priority);
    assert(f.subrange(8, 16) =~= be64(l.cookie));
    lemma_get64_be64(f, 8, l.cookie);
    assert(f.subrange(16, 18) =~= be16(l.flags));
    lemma_get16_be16(f, 16, l.flags);
    assert(f.subrange(20, 22) =~= be16(l.fin_idle_timeout));
    lemma_get16_be16(f, 20, l.fin_idle_timeout);
    assert(f.subrange(22, 24) =~= be16(l.fin_hard_timeout));
    lemma_get16_be16(f, 22, l.fin_hard_timeout);
    assert forall|i: int| 0 <= i < 24 implies d[i] == f[i] by {}
    assert(get64(d, 8) == get64(f, 8));
    assert(d.skip(24) =~= tail);
}

proof fn lemma_decode_learn_body(l: NxLearnModel)
    requires
        learn_wf(l),
    ensures
        spec_decode_nicira(learn_fields(l) + specs_bytes(l.specs)
            + zeros((learn_padded_len(l) - learn_unpadded_len(l)) as nat))
            == Ok::<ActionModel, Seq<char>>(ActionModel::NxLearn(l)),
{
    reveal(spec_decode_nicira);
    let pad = (learn_padded_len(l) - learn_unpadded_len(l)) as nat;
    let tail = specs_bytes(l.specs) + zeros(pad);
    let d = learn_fields(l) + tail;
    assert(learn_fields(l) + specs_bytes(l.specs) + zeros(pad) =~= d);
    lemma_learn_fields(l, tail);
    let dl = spec_decode_learn(d);
    if d.len() > 24 {
        lemma_decode_step_zeros(pad);
        lemma_decode_specs_bytes(l.specs, zeros(pad));
        assert(dl.specs == l.specs);
    } else {
        assert(specs_bytes(l.specs).len() == 0);
        lemma_specs_bytes_empty(l.specs);
        assert(dl.specs =~= l.specs);
    }
    assert(dl == l);
}

proof fn lemma_decode_learn(l: NxLearnModel, rest: Seq<u8>)
    requires
        learn_wf(l),
    ensures
        !decode_would_panic(learn_bytes(l) + rest),
        spec_decode_action(learn_bytes(l) + rest) == Ok::<(ActionModel, int), Seq<char>>((
            ActionModel::NxLearn(l),
            learn_bytes(l).len() as int,
        )),
{
    let pad = (learn_padded_len(l) - learn_unpadded_len(l)) as nat;
    let f = learn_fields(l);
    let body = f.skip(2) + specs_bytes(l.specs) + zeros(pad);
    let len = (learn_padded_len(l) % 0x1_0000) as u16;
    assert(len as nat == learn_padded_len(l));
    assert(learn_bytes(l) =~= nx_header_bytes(16, len) + body);
    assert(learn_bytes(l) + rest =~= nx_header_bytes(16, len) + body + rest);
    lemma_decode_nx(16, len, body, rest);
    assert(be16(16) + body =~= f + specs_bytes(l.specs) + zeros(pad));
    lemma_decode_learn_body(l);
}

proof fn lemma_group_output(a: ActionModel, rest: Seq<u8>)
    requires
        action_wf(a),
        a is Output || a is Controller,
    ensures
        action_bytes(a).len() >= 4,
        get16(action_bytes(a) + rest, 2) == action_bytes(a).len(),
        !decode_would_panic(action_bytes(a) + rest),
        spec_decode_action(action_bytes(a) + rest) == Ok::<(ActionModel, int), Seq<char>>((
            decoded_form(a),
            action_bytes(a).len() as int,
        )),
{
    match a {
        ActionModel::Output(p) => {
            lemma_decode_output(wire_port(p), 0xffff, rest);
        },
        ActionModel::Controller { max_len } => {
            lemma_decode_output(port::CONTROLLER, max_len, rest);
        },
        _ => {},
    }
}

proof fn lemma_group_mac(a: ActionModel, rest: Seq<u8>)
    requires
        action_wf(a),
        a is SetEthSrc || a is SetEthDst || a is SetVlanVid,
    ensures
        action_bytes(a).len() >= 4,
        get16(action_bytes(a) + rest, 2) == action_bytes(a).len(),
        !decode_would_panic(action_bytes(a) + rest),
        spec_decode_action(action_bytes(a) + rest) == Ok::<(ActionModel, int), Seq<char>>((
            decoded_form(a),
            action_bytes(a).len() as int,
        )),
{
    match a {
        ActionModel::SetEthSrc(mac) => {
            lemma_decode_set_field_body(4, mac@);
            lemma_decode_set_field(4, mac@, rest);
            let d = be32(basic_oxm(4, 6)) + mac@ + zeros(2);
            assert(mac_at(d, 4) =~= mac);
        },
        ActionModel::SetEthDst(mac) => {
            lemma_decode_set_field_body(3, mac@);
            lemma_decode_set_field(3, mac@, rest);
            let d = be32(basic_oxm(3, 6)) + mac@ + zeros(2);
            assert(mac_at(d, 4) =~= mac);
        },
        ActionModel::SetVlanVid(v) => {
            let value = be16(v | 0x1000u16);
            lemma_decode_set_field_body(6, value);
            lemma_decode_set_field(6, value, rest);
            let d = be32(basic_oxm(6, 2)) + value + zeros(6);
            lemma_get16_be16(d, 4, v | 0x1000u16);
            lemma_vid_bits(v);
        },
        _ => {},
    }
}

proof fn lemma_group_ip(a: ActionModel, rest: Seq<u8>)
    requires
        action_wf(a),
        a is SetIpv4Src || a is SetIpv4Dst,
    ensures
        action_bytes(a).len() >= 4,
        get16(action_bytes(a) + rest, 2) == action_bytes(a).len(),
        !decode_would_panic(action_bytes(a) + rest),
        spec_decode_action(action_bytes(a) + rest) == Ok::<(ActionModel, int), Seq<char>>((
            decoded_form(a),
            action_bytes(a).len() as int,
        )),
{
    match a {
        ActionModel::SetIpv4Src(addr) => {
            let value = be32(ipv4_value(addr));
            lemma_ipv4_octets(addr);
            lemma_decode_set_field_body(11, value);
            lemma_decode_set_field(11, value, rest);
            let d = be32(basic_oxm(11, 4)) + value + zeros(4);
            assert(d.subrange(4, 8) == addr@);
            assert(ipv4_at(d, 4) =~= addr);
        },
        ActionModel::SetIpv4Dst(addr) => {
            let value = be32(ipv4_value(addr));
            lemma_ipv4_octets(addr);
            lemma_decode_set_field_body(12, value);
            lemma_decode_set_field(12, value, rest);
            let d = be32(basic_oxm(12, 4)) + value + zeros(4);
            assert(d.subrange(4, 8) == addr@);
            assert(ipv4_at(d, 4) =~= addr);
        },
        _ => {},
    }
}

proof fn lemma_group_tp(a: ActionModel, rest: Seq<u8>)
    requires
        action_wf(a),
        a is SetTpSrc || a is SetTpDst,
    ensures
        action_bytes(a).len() >= 4,
        get16(action_bytes(a) + rest, 2) == action_bytes(a).len(),
        !decode_would_panic(action_bytes(a) + rest),
        spec_decode_action(action_bytes(a) + rest) == Ok::<(ActionModel, int), Seq<char>>((
            decoded_form(a),
            action_bytes(a).len() as int,
        )),
{
    match a {
        ActionModel::SetTpSrc(p) => {
            lemma_decode_set_field_body(13, be16(p));
            lemma_decode_set_field(13, be16(p), rest);
            let d = be32(basic_oxm(13, 2)) + be16(p) + zeros(6);
            lemma_get16_be16(d, 4, p);
        },
        ActionModel::SetTpDst(p) => {
            lemma_decode_set_field_body(14, be16(p));
            lemma_decode_set_field(14, be16(p), rest);
            let d = be32(basic_oxm(14, 2)) + be16(p) + zeros(6);
            lemma_get16_be16(d, 4, p);
        },
        _ => {},
    }
}

proof fn lemma_group_short(a: ActionModel, rest: Seq<u8>)
    requires
        action_wf(a),
        a is PushVlan || a is PopVlan || a is SetTtl || a is DecTtl || a is Group,
    ensures
        action_bytes(a).len() >= 4,
        get16(action_bytes(a) + rest, 2) == action_bytes(a).len(),
        !decode_would_panic(action_bytes(a) + rest),
        spec_decode_action(action_bytes(a) + rest) == Ok::<(ActionModel, int), Seq<char>>((
            decoded_form(a),
            action_bytes(a).len() as int,
        )),
{
    match a {
        ActionModel::PushVlan(e) => {
            let body = be16(e) + zeros(2);
            lemma_decode_short(17, body, rest);
            assert(body.subrange(0, 2) =~= be16(e));
            lemma_get16_be16(body, 0, e);
        },
        ActionModel::PopVlan => {
            lemma_decode_short(18, zeros(4), rest);
        },
        ActionModel::SetTtl(t) => {
            lemma_decode_short(23, seq![t] + zeros(3), rest);
        },
        ActionModel::DecTtl => {
            lemma_decode_short(24, zeros(4), rest);
        },
        ActionModel::Group(g) => {
            lemma_decode_short(22, be32(g), rest);
            assert(be32(g).subrange(0, 4) =~= be32(g));
            lemma_get32_be32(be32(g), 0, g);
        },
        _ => {},
    }
}

proof fn lemma_group_nx(a: ActionModel, rest: Seq<u8>)
    requires
        action_wf(a),
        a is SetTunnelId || a is NxResubmit || a is NxLearn || a is NxCt || a is NxMove,
    ensures
        action_bytes(a).len() >= 4,
        get16(action_bytes(a) + rest, 2) == action_bytes(a).len(),
        !decode_would_panic(action_bytes(a) + rest),
        spec_decode_action(action_bytes(a) + rest) == Ok::<(ActionModel, int), Seq<char>>((
            decoded_form(a),
            action_bytes(a).len() as int,
        )),
{
    match a {
        ActionModel::SetTunnelId(t) => {
            lemma_decode_tunnel(t, rest);
        },
        ActionModel::NxResubmit { port, table } => {
            lemma_decode_resubmit(port, table, rest);
        },
        ActionModel::NxLearn(l) => {
            lemma_decode_learn(l, rest);
        },
        ActionModel::NxCt { flags, zone, table } => {
            lemma_decode_ct(flags, zone, table, rest);
        },
        ActionModel::NxMove { src_field, dst_field, n_bits, src_ofs, dst_ofs } => {
            lemma_decode_move(src_field, dst_field, n_bits, src_ofs, dst_ofs, rest);
        },
        _ => {},
    }
}

/// The bytes of a well-formed action, whatever follows them, decode to its
/// decoded form and are consumed in full.
pub proof fn lemma_decode_action_bytes(a: ActionModel, rest: Seq<u8>)
    requires
        action_wf(a),
        !encodes_empty(a),
    ensures
        action_bytes(a).len() >= 4,
        get16(action_bytes(a) + rest, 2) == action_bytes(a).len(),
        !decode_would_panic(action_bytes(a) + rest),
        spec_decode_action(action_bytes(a) + rest) == Ok::<(ActionModel, int), Seq<char>>((
            decoded_form(a),
            action_bytes(a).len() as int,
        )),
{
    if a is Output || a is Controller {
        lemma_group_output(a, rest);
    } else if a is SetEthSrc || a is SetEthDst || a is SetVlanVid {
        lemma_group_mac(a, rest);
    } else if a is SetIpv4Src || a is SetIpv4Dst {
        lemma_group_ip(a, rest);
    } else if a is SetTpSrc || a is SetTpDst {
        lemma_group_tp(a, rest);
    } else if a is PushVlan || a is PopVlan || a is SetTtl || a is DecTtl || a is Group {
        lemma_group_short(a, rest);
    } else {
        lemma_group_nx(a, rest);
    }
}

/// Every action of the list can be encoded and read back.
pub open spec fn list_wf(l: Seq<ActionModel>) -> bool {
    forall|i: int| 0 <= i < l.len() ==> action_wf(#[trigger] l[i])
}

proof fn lemma_decode_zeros(k: nat)
    ensures
        list_decode_safe(zeros(k)),
        spec_decode_list(zeros(k)) == Ok::<Seq<ActionModel>, Seq<char>>(Seq::empty()),
{
    if k >= 4 {
        assert(get16(zeros(k), 2) == 0);
    }
}

proof fn lemma_decode_actions_then_zeros(l: Seq<ActionModel>, k: nat)
    requires
        list_wf(l),
    ensures
        list_decode_safe(actions_bytes(l) + zeros(k)),
        spec_decode_list(actions_bytes(l) + zeros(k)) == Ok::<Seq<ActionModel>, Seq<char>>(expected_decoding(l)),
    decreases l.len(),
{
    if l.len() == 0 {
        assert(actions_bytes(l) + zeros(k) =~= zeros(k));
        lemma_decode_zeros(k);
    } else {
        let tail = l.skip(1);
        assert forall|i: int| 0 <= i < tail.len() implies action_wf(#[trigger] tail[i]) by {
            assert(tail[i] == l[i + 1]);
        }
        lemma_decode_actions_then_zeros(tail, k);
        let rest = actions_bytes(tail) + zeros(k);
        assert(action_wf(l[0]));
        if encodes_empty(l[0]) {
            assert(action_bytes(l[0]) =~= Seq::<u8>::empty());
            assert(actions_bytes(l) + zeros(k) =~= rest);
        } else {
            let b = action_bytes(l[0]);
            let s = b + rest;
            assert(actions_bytes(l) + zeros(k) =~= s);
            lemma_decode_action_bytes(l[0], rest);
            assert(s.skip(b.len() as int) =~= rest);
            if decoded_form(l[0]) is Drop {
                assert(spec_decode_list(s) == spec_decode_list(rest));
            } else {
                assert(spec_decode_list(s) == Ok::<Seq<ActionModel>, Seq<char>>(seq![decoded_form(l[0])] + expected_decoding(tail)));
            }
        }
    }
}

/// Law: encoding an action list and decoding the bytes gives back the list,
/// less the actions that have no bytes of their own or come back as the
/// `Drop` placeholder, each action in its decoded form; the decoder never
/// slices out of bounds on such bytes.
pub proof fn lemma_list_roundtrip(l: Seq<ActionModel>)
    requires
        list_wf(l),
    ensures
        list_encodable(l),
        list_decode_safe(list_bytes(l)),
        spec_decode_list(list_bytes(l)) == Ok::<Seq<ActionModel>, Seq<char>>(expected_decoding(l)),
{
    assert forall|i: int| 0 <= i < l.len() implies action_encodable(#[trigger] l[i]) by {
        assert(action_wf(l[i]));
    }
    lemma_decode_actions_then_zeros(l, padding_to_8(actions_bytes(l).len()));
}

} // verus!
