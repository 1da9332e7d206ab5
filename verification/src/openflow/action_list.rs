//! Lists of OpenFlow actions and their wire encoding.
use vstd::prelude::*;
use crate::wire::{get16, push_zeros, zeros};
use crate::openflow::action::{
    action_bytes, action_encodable, Action, ActionModel, MacAddr, OutputPort, CT_COMMIT,
};
use crate::openflow::decode::{
    decode_would_panic, decoded_as, spec_decode_action, spec_decode_action_checked,
};
use crate::openflow::error::{parse_message, Error};
use crate::openflow::learn::NxLearn;

verus! {

/// A list of actions.
#[derive(Debug, Clone)]
pub struct ActionList {
    actions: Vec<Action>,
}

impl View for ActionList {
    type V = Seq<ActionModel>;

    closed spec fn view(&self) -> Seq<ActionModel> {
        self.actions@.map_values(|a: Action| a@)
    }
}

/// The bytes of the actions, one after the other.
pub open spec fn actions_bytes(l: Seq<ActionModel>) -> Seq<u8>
    decreases l.len(),
{
    if l.len() == 0 {
        Seq::empty()
    } else {
        action_bytes(l[0]) + actions_bytes(l.skip(1))
    }
}

/// Zero bytes that bring a length of `n` up to a multiple of 8.
pub open spec fn padding_to_8(n: nat) -> nat {
    ((8 - n % 8) % 8) as nat
}

/// The wire form of an action list: the actions, then zeros up to a multiple of 8 bytes.
pub open spec fn list_bytes(l: Seq<ActionModel>) -> Seq<u8> {
    actions_bytes(l) + zeros(padding_to_8(actions_bytes(l).len()))
}

/// Decodes actions until fewer than 4 bytes are left or an action declares
/// length 0, dropping the `Drop` placeholders; the first error ends it.
pub open spec fn spec_decode_list(s: Seq<u8>) -> Result<Seq<ActionModel>, Seq<char>>
    decreases s.len(),
{
    if s.len() < 4 || get16(s, 2) == 0 {
        Ok(Seq::empty())
    } else {
        match spec_decode_action(s) {
            Err(m) => Err(m),
            Ok((a, n)) => if 0 < n <= s.len() {
                match spec_decode_list(s.skip(n)) {
                    Err(m) => Err(m),
                    Ok(l) => Ok(if a is Drop { l } else { seq![a] + l }),
                }
            } else {
                Ok(Seq::empty())
            },
        }
    }
}

/// The decoder reads `s` without slicing out of bounds: no action it reaches
/// is a set-field action whose declared length is below 4.
pub open spec fn list_decode_safe(s: Seq<u8>) -> bool
    decreases s.len(),
{
    if s.len() < 4 || get16(s, 2) == 0 {
        true
    } else {
        !decode_would_panic(s) && match spec_decode_action(s) {
            Err(_) => true,
            Ok((a, n)) => 0 < n <= s.len() ==> list_decode_safe(s.skip(n)),
        }
    }
}

/// Decodes as `spec_decode_list` does, with each action read by
/// `spec_decode_action_checked`.
pub open spec fn spec_decode_list_checked(s: Seq<u8>) -> Result<Seq<ActionModel>, Seq<char>>
    decreases s.len(),
{
    if s.len() < 4 || get16(s, 2) == 0 {
        Ok(Seq::empty())
    } else {
        match spec_decode_action_checked(s) {
            Err(m) => Err(m),
            Ok((a, n)) => if 0 < n <= s.len() {
                match spec_decode_list_checked(s.skip(n)) {
                    Err(m) => Err(m),
                    Ok(l) => Ok(if a is Drop { l } else { seq![a] + l }),
                }
            } else {
                Ok(Seq::empty())
            },
        }
    }
}

/// Where no action would be misread, the checked decoding is the plain one.
proof fn lemma_checked_list(s: Seq<u8>)
    requires
        list_decode_safe(s),
    ensures
        spec_decode_list_checked(s) == spec_decode_list(s),
    decreases s.len(),
{
    if !(s.len() < 4 || get16(s, 2) == 0) {
        match spec_decode_action(s) {
            Ok((a, n)) => {
                if 0 < n <= s.len() {
                    lemma_checked_list(s.skip(n));
                }
            },
            Err(_) => {},
        }
    }
}

/// Every action of the list can be encoded.
pub open spec fn list_encodable(l: Seq<ActionModel>) -> bool {
    forall|i: int| 0 <= i < l.len() ==> action_encodable(#[trigger] l[i])
}

/// `acc` followed by the decoded rest, or the rest's error.
pub open spec fn prepend(acc: Seq<ActionModel>, rest: Result<Seq<ActionModel>, Seq<char>>) -> Result<Seq<ActionModel>, Seq<char>> {
    match rest {
        Ok(l) => Ok(acc + l),
        Err(m) => Err(m),
    }
}

/// Law: the wire form of every action list is a whole number of 8-byte
/// units, and it begins with the actions' own bytes.
pub proof fn lemma_list_bytes_aligned(l: Seq<ActionModel>)
    ensures
        list_bytes(l).len() % 8 == 0,
        list_bytes(l).subrange(0, actions_bytes(l).len() as int) == actions_bytes(l),
{
    let n = actions_bytes(l).len();
    assert((n + padding_to_8(n)) % 8 == 0);
    assert(list_bytes(l).subrange(0, n as int) =~= actions_bytes(l));
}

pub proof fn lemma_actions_bytes_push(l: Seq<ActionModel>, a: ActionModel)
    ensures
        actions_bytes(l.push(a)) == actions_bytes(l) + action_bytes(a),
    decreases l.len(),
{
    if l.len() == 0 {
        assert(l.push(a).skip(1) =~= Seq::<ActionModel>::empty());
        assert(actions_bytes(Seq::<ActionModel>::empty()) == Seq::<u8>::empty());
        assert(actions_bytes(l.push(a)) =~= action_bytes(a));
    } else {
        assert(l.push(a).skip(1) =~= l.skip(1).push(a));
        lemma_actions_bytes_push(l.skip(1), a);
        assert(actions_bytes(l.push(a)) =~= actions_bytes(l) + action_bytes(a));
    }
}

impl Default for ActionList {
    fn default() -> (r: Self)
        ensures
            r@ == Seq::<ActionModel>::empty(),
    {
        let r = ActionList { actions: Vec::new() };
        assert(r@ =~= Seq::<ActionModel>::empty());
        r
    }
}

impl ActionList {
    /// Create a new empty action list.
    pub fn new() -> (r: Self)
        ensures
            r@ == Seq::<ActionModel>::empty(),
    {
        Self::default()
    }

    /// Add an action to the list.
    pub fn push(&mut self, action: Action)
        ensures
            final(self)@ == old(self)@.push(action@),
    {
        let ghost a = action@;
        self.actions.push(action);
        assert(self@ =~= old(self)@.push(a));
    }

    /// The list with `action` added at the end.
    fn with(self, action: Action) -> (r: Self)
        ensures
            r@ == self@.push(action@),
    {
        let mut s = self;
        s.push(action);
        s
    }

    /// Output to a port.
    pub fn output(self, port: OutputPort) -> (r: Self)
        ensures
            r@ == self@.push(ActionModel::Output(port)),
    {
        self.with(Action::Output(port))
    }

    /// Send to controller.
    pub fn controller(self, max_len: u16) -> (r: Self)
        ensures
            r@ == self@.push(ActionModel::Controller { max_len }),
    {
        self.with(Action::Controller { max_len })
    }

    /// Drop the packet.
    pub fn drop(self) -> (r: Self)
        ensures
            r@ == self@.push(ActionModel::Drop),
    {
        self.with(Action::Drop)
    }

    /// Set destination MAC.
    pub fn set_eth_dst(self, mac: MacAddr) -> (r: Self)
        ensures
            r@ == self@.push(ActionModel::SetEthDst(mac)),
    {
        self.with(Action::SetEthDst(mac))
    }

    /// Set source MAC.
    pub fn set_eth_src(self, mac: MacAddr) -> (r: Self)
        ensures
            r@ == self@.push(ActionModel::SetEthSrc(mac)),
    {
        self.with(Action::SetEthSrc(mac))
    }

    /// Push VLAN tag.
    pub fn push_vlan(self, tpid: u16) -> (r: Self)
        ensures
            r@ == self@.push(ActionModel::PushVlan(tpid)),
    {
        self.with(Action::PushVlan(tpid))
    }

    /// Pop VLAN tag.
    pub fn pop_vlan(self) -> (r: Self)
        ensures
            r@ == self@.push(ActionModel::PopVlan),
    {
        self.with(Action::PopVlan)
    }

    /// Set VLAN ID.
    pub fn set_vlan_vid(self, vid: u16) -> (r: Self)
        ensures
            r@ == self@.push(ActionModel::SetVlanVid(vid)),
    {
        self.with(Action::SetVlanVid(vid))
    }

    /// Go to another table.
    pub fn goto_table(self, table: u8) -> (r: Self)
        ensures
            r@ == self@.push(ActionModel::GotoTable(table)),
    {
        self.with(Action::GotoTable(table))
    }

    /// Decrement TTL.
    pub fn dec_ttl(self) -> (r: Self)
        ensures
            r@ == self@.push(ActionModel::DecTtl),
    {
        self.with(Action::DecTtl)
    }

    /// Output to all ports except input port (flood).
    pub fn flood(self) -> (r: Self)
        ensures
            r@ == self@.push(ActionModel::Output(OutputPort::Flood)),
    {
        self.with(Action::Output(OutputPort::Flood))
    }

    /// Output to all ports.
    pub fn all(self) -> (r: Self)
        ensures
            r@ == self@.push(ActionModel::Output(OutputPort::All)),
    {
        self.with(Action::Output(OutputPort::All))
    }

    /// Output using normal L2/L3 switching.
    pub fn normal(self) -> (r: Self)
        ensures
            r@ == self@.push(ActionModel::Output(OutputPort::Normal)),
    {
        self.with(Action::Output(OutputPort::Normal))
    }

    /// Output to ingress port.
    pub fn in_port(self) -> (r: Self)
        ensures
            r@ == self@.push(ActionModel::Output(OutputPort::InPort)),
    {
        self.with(Action::Output(OutputPort::InPort))
    }

    /// Set tunnel ID (Nicira extension).
    pub fn set_tunnel_id(self, tunnel_id: u64) -> (r: Self)
        ensures
            r@ == self@.push(ActionModel::SetTunnelId(tunnel_id)),
    {
        self.with(Action::SetTunnelId(tunnel_id))
    }

    /// Output to group table.
    pub fn group(self, group_id: u32) -> (r: Self)
        ensures
            r@ == self@.push(ActionModel::Group(group_id)),
    {
        self.with(Action::Group(group_id))
    }

    /// Resubmit to another table (Nicira extension).
    ///
    /// - `port`: Input port to use (None = current input port)
    /// - `table`: Table to resubmit to (None = current table)
    pub fn resubmit(self, port: Option<u16>, table: Option<u8>) -> (r: Self)
        ensures
            r@ == self@.push(ActionModel::NxResubmit { port, table }),
    {
        self.with(Action::NxResubmit { port, table })
    }

    /// Resubmit to a specific table (Nicira extension).
    pub fn resubmit_table(self, table: u8) -> (r: Self)
        ensures
            r@ == self@.push(ActionModel::NxResubmit { port: None, table: Some(table) }),
    {
        self.with(Action::NxResubmit { port: None, table: Some(table) })
    }

    /// Connection tracking action (Nicira extension).
    ///
    /// - `flags`: CT flags (commit, force, etc.)
    /// - `zone`: CT zone ID
    /// - `table`: Table to recirculate to after CT (None = no recirc)
    pub fn ct(self, flags: u16, zone: u16, table: Option<u8>) -> (r: Self)
        ensures
            r@ == self@.push(ActionModel::NxCt { flags, zone, table }),
    {
        self.with(Action::NxCt { flags, zone, table })
    }

    /// Connection tracking with commit (Nicira extension).
    pub fn ct_commit(self, zone: u16) -> (r: Self)
        ensures
            r@ == self@.push(ActionModel::NxCt { flags: CT_COMMIT, zone, table: None }),
    {
        self.with(Action::NxCt { flags: CT_COMMIT, zone, table: None })
    }

    /// Learn action (Nicira extension).
    pub fn learn(self, learn: NxLearn) -> (r: Self)
        ensures
            r@ == self@.push(ActionModel::NxLearn(learn@)),
    {
        self.with(Action::NxLearn(learn))
    }

    /// Move/copy bits between fields (Nicira extension).
    ///
    /// Copies `n_bits` bits from `src_field[src_ofs..]` to `dst_field[dst_ofs..]`.
    pub fn move_field(self, src_field: u32, dst_field: u32, n_bits: u16, src_ofs: u16, dst_ofs: u16) -> (r: Self)
        ensures
            r@ == self@.push(ActionModel::NxMove { src_field, dst_field, n_bits, src_ofs, dst_ofs }),
    {
        self.with(Action::NxMove { src_field, dst_field, n_bits, src_ofs, dst_ofs })
    }

    /// Get the actions.
    pub fn actions(&self) -> (r: &[Action])
        ensures
            r@.map_values(|a: Action| a@) == self@,
    {
        self.actions.as_slice()
    }

    /// Check if the list is empty.
    pub fn is_empty(&self) -> (r: bool)
        ensures
            r == (self@.len() == 0),
    {
        self.actions.len() == 0
    }

    /// Get the number of actions.
    pub fn len(&self) -> (r: usize)
        ensures
            r == self@.len(),
    {
        self.actions.len()
    }

    /// Encode all actions to wire format.
    ///
    /// Actions are concatenated and padded to 8-byte alignment.
    pub fn encode(&self) -> (r: Vec<u8>)
        requires
            list_encodable(self@),
        ensures
            r@ == list_bytes(self@),
    {
        let mut buf: Vec<u8> = Vec::new();
        let ghost models = self@;
        let mut i: usize = 0;
        assert(models.take(0) =~= Seq::<ActionModel>::empty());
        assert(actions_bytes(models.take(0)) == Seq::<u8>::empty());
        while i < self.actions.len()
            invariant
                i <= self.actions@.len(),
                models == self@,
                list_encodable(models),
                buf@ == actions_bytes(models.take(i as int)),
            decreases self.actions@.len() - i,
        {
            assert(models[i as int] == self.actions@[i as int]@);
            assert(action_encodable(models[i as int]));
            let mut bytes = self.actions[i].encode();
            buf.append(&mut bytes);
            proof {
                lemma_actions_bytes_push(models.take(i as int), models[i as int]);
                assert(models.take(i as int).push(models[i as int]) =~= models.take(i + 1));
            }
            i = i + 1;
        }
        assert(models.take(self.actions@.len() as int) =~= models);
        let padding: usize = (8 - (buf.len() % 8)) % 8;
        push_zeros(&mut buf, padding);
        buf
    }

    /// Decode all actions from wire format, refusing with an error a
    /// set-field action whose declared length is below its header.
    ///
    /// Reads actions until the data is exhausted.
    pub fn decode_checked(data: &[u8]) -> (r: Result<ActionList, Error>)
        ensures
            decoded_as(r, spec_decode_list_checked(data@)),
    {
        let mut actions: Vec<Action> = Vec::new();
        let mut offset: usize = 0;
        let len = data.len();
        assert(data@.skip(0) =~= data@);
        assert(actions@.map_values(|a: Action| a@) =~= Seq::<ActionModel>::empty());
        assert(prepend(Seq::<ActionModel>::empty(), spec_decode_list_checked(data@)) == spec_decode_list_checked(data@)) by {
            match spec_decode_list_checked(data@) {
                Ok(l) => { assert(Seq::<ActionModel>::empty() + l =~= l); },
                Err(_) => {},
            }
        }
        while offset < len
            invariant
                len == data@.len(),
                offset <= len,
                prepend(actions@.map_values(|a: Action| a@), spec_decode_list_checked(data@.skip(offset as int)))
                    == spec_decode_list_checked(data@),
            ensures
                prepend(actions@.map_values(|a: Action| a@), spec_decode_list_checked(data@.skip(offset as int)))
                    == spec_decode_list_checked(data@),
                spec_decode_list_checked(data@.skip(offset as int)) == Ok::<Seq<ActionModel>, Seq<char>>(Seq::empty()),
            decreases len - offset,
        {
            let ghost s = data@.skip(offset as int);
            let ghost acc = actions@.map_values(|a: Action| a@);
            if len - offset < 4 {
                assert(spec_decode_list_checked(s) == Ok::<Seq<ActionModel>, Seq<char>>(Seq::empty()));
                break;
            }
            let length = crate::wire::read_be16(data, offset + 2);
            assert(length == get16(s, 2));
            if length == 0 {
                assert(spec_decode_list_checked(s) == Ok::<Seq<ActionModel>, Seq<char>>(Seq::empty()));
                break;
            }
            let rest = vstd::slice::slice_subrange(data, offset, len);
            assert(rest@ =~= s);
            match Action::decode_checked(rest) {
                Err(e) => {
                    return Err(e);
                },
                Ok((action, consumed)) => {
                    let ghost am = action@;
                    let is_drop = match action { Action::Drop => true, _ => false };
                    if !is_drop {
                        actions.push(action);
                    }
                    proof {
                        assert(s.skip(consumed as int) =~= data@.skip(offset + consumed));
                        match spec_decode_list_checked(data@.skip(offset + consumed)) {
                            Ok(l) => {
                                if !is_drop {
                                    assert(actions@.map_values(|a: Action| a@) =~= acc.push(am));
                                    assert(acc.push(am) + l =~= acc + (seq![am] + l));
                                } else {
                                    assert(actions@.map_values(|a: Action| a@) =~= acc);
                                }
                            },
                            Err(_) => {
                                if !is_drop {
                                    assert(actions@.map_values(|a: Action| a@) =~= acc.push(am));
                                } else {
                                    assert(actions@.map_values(|a: Action| a@) =~= acc);
                                }
                            },
                        }
                    }
                    offset = offset + consumed;
                },
            }
        }
        proof {
            let s = data@.skip(offset as int);
            assert(spec_decode_list_checked(s) == Ok::<Seq<ActionModel>, Seq<char>>(Seq::empty()));
            assert(actions@.map_values(|a: Action| a@) + Seq::<ActionModel>::empty()
                =~= actions@.map_values(|a: Action| a@));
        }
        Ok(ActionList { actions })
    }

    /// Decode all actions from wire format.
    ///
    /// Reads actions until the data is exhausted.
    pub fn decode(data: &[u8]) -> (r: Result<ActionList, Error>)
        requires
            list_decode_safe(data@),
        ensures
            decoded_as(r, spec_decode_list(data@)),
    {
        proof {
            lemma_checked_list(data@);
        }
        Self::decode_checked(data)
    }
}

} // verus!
