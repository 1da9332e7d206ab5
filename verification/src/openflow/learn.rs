//! The Nicira learn action and its flow-mod specifications.
use vstd::prelude::*;
use crate::wire::{
    be16, be32, get16, get32, lemma_get16_be16, lemma_get32_be32, push_be16, push_be32, read_be16,
    read_be32, zeros,
};

verus! {

/// A single learn specification.
///
/// Learn specs define how to construct match fields and actions
/// in the learned flow.
#[derive(Debug, Clone)]
pub enum LearnSpec {
    /// Match: copy field from packet to match field
    MatchField { src_field: u32, dst_field: u32, n_bits: u16 },
    /// Match: use immediate value
    MatchImmediate { dst_field: u32, value: Vec<u8>, n_bits: u16 },
    /// Action: copy field from packet to action's field
    LoadField { src_field: u32, dst_field: u32, n_bits: u16 },
    /// Action: load immediate value
    LoadImmediate { dst_field: u32, value: Vec<u8>, n_bits: u16 },
    /// Output to port from field
    OutputField { src_field: u32, n_bits: u16 },
}

/// The mathematical value of a [`LearnSpec`].
pub enum LearnSpecModel {
    MatchField { src_field: u32, dst_field: u32, n_bits: u16 },
    MatchImmediate { dst_field: u32, value: Seq<u8>, n_bits: u16 },
    LoadField { src_field: u32, dst_field: u32, n_bits: u16 },
    LoadImmediate { dst_field: u32, value: Seq<u8>, n_bits: u16 },
    OutputField { src_field: u32, n_bits: u16 },
}

impl View for LearnSpec {
    type V = LearnSpecModel;

    open spec fn view(&self) -> LearnSpecModel {
        match self {
            LearnSpec::MatchField { src_field, dst_field, n_bits } => LearnSpecModel::MatchField {
                src_field: *src_field,
                dst_field: *dst_field,
                n_bits: *n_bits,
            },
            LearnSpec::MatchImmediate { dst_field, value, n_bits } => LearnSpecModel::MatchImmediate {
                dst_field: *dst_field,
                value: value@,
                n_bits: *n_bits,
            },
            LearnSpec::LoadField { src_field, dst_field, n_bits } => LearnSpecModel::LoadField {
                src_field: *src_field,
                dst_field: *dst_field,
                n_bits: *n_bits,
            },
            LearnSpec::LoadImmediate { dst_field, value, n_bits } => LearnSpecModel::LoadImmediate {
                dst_field: *dst_field,
                value: value@,
                n_bits: *n_bits,
            },
            LearnSpec::OutputField { src_field, n_bits } => LearnSpecModel::OutputField {
                src_field: *src_field,
                n_bits: *n_bits,
            },
        }
    }
}

/// NxLearn action (Nicira extension).
///
/// The learn action creates flows dynamically based on packet content.
/// This is commonly used for MAC learning in OVS.
#[derive(Debug, Clone)]
pub struct NxLearn {
    /// Idle timeout for learned flows (0 = no timeout)
    pub idle_timeout: u16,
    /// Hard timeout for learned flows (0 = no timeout)
    pub hard_timeout: u16,
    /// Priority of learned flows
    pub priority: u16,
    /// Cookie for learned flows
    pub cookie: u64,
    /// Learn flags
    pub flags: u16,
    /// Table to install learned flows
    pub table_id: u8,
    /// Idle timeout when FIN received
    pub fin_idle_timeout: u16,
    /// Hard timeout when FIN received
    pub fin_hard_timeout: u16,
    /// Flow modification specs (match and action specifications)
    pub specs: Vec<LearnSpec>,
}

/// The mathematical value of an [`NxLearn`].
pub struct NxLearnModel {
    pub idle_timeout: u16,
    pub hard_timeout: u16,
    pub priority: u16,
    pub cookie: u64,
    pub flags: u16,
    pub table_id: u8,
    pub fin_idle_timeout: u16,
    pub fin_hard_timeout: u16,
    pub specs: Seq<LearnSpecModel>,
}

impl View for NxLearn {
    type V = NxLearnModel;

    open spec fn view(&self) -> NxLearnModel {
        NxLearnModel {
            idle_timeout: self.idle_timeout,
            hard_timeout: self.hard_timeout,
            priority: self.priority,
            cookie: self.cookie,
            flags: self.flags,
            table_id: self.table_id,
            fin_idle_timeout: self.fin_idle_timeout,
            fin_hard_timeout: self.fin_hard_timeout,
            specs: self.specs@.map_values(|s: LearnSpec| s@),
        }
    }
}

/// The learn action with every field zero and no specs.
pub open spec fn empty_learn() -> NxLearnModel {
    NxLearnModel {
        idle_timeout: 0,
        hard_timeout: 0,
        priority: 0,
        cookie: 0,
        flags: 0,
        table_id: 0,
        fin_idle_timeout: 0,
        fin_hard_timeout: 0,
        specs: Seq::empty(),
    }
}

impl Default for NxLearn {
    fn default() -> (r: Self)
        ensures
            r@ == empty_learn(),
    {
        let r = NxLearn {
            idle_timeout: 0,
            hard_timeout: 0,
            priority: 0,
            cookie: 0,
            flags: 0,
            table_id: 0,
            fin_idle_timeout: 0,
            fin_hard_timeout: 0,
            specs: Vec::new(),
        };
        assert(r@.specs =~= Seq::<LearnSpecModel>::empty());
        r
    }
}

impl NxLearn {
    /// Create a new learn action with defaults.
    pub fn new() -> (r: Self)
        ensures
            r@ == empty_learn(),
    {
        Self::default()
    }

    /// Set idle timeout for learned flows.
    pub fn idle_timeout(self, timeout: u16) -> (r: Self)
        ensures
            r@ == (NxLearnModel { idle_timeout: timeout, ..self@ }),
    {
        let mut s = self;
        s.idle_timeout = timeout;
        s
    }

    /// Set hard timeout for learned flows.
    pub fn hard_timeout(self, timeout: u16) -> (r: Self)
        ensures
            r@ == (NxLearnModel { hard_timeout: timeout, ..self@ }),
    {
        let mut s = self;
        s.hard_timeout = timeout;
        s
    }

    /// Set priority for learned flows.
    pub fn priority(self, priority: u16) -> (r: Self)
        ensures
            r@ == (NxLearnModel { priority: priority, ..self@ }),
    {
        let mut s = self;
        s.priority = priority;
        s
    }

    /// Set cookie for learned flows.
    pub fn cookie(self, cookie: u64) -> (r: Self)
        ensures
            r@ == (NxLearnModel { cookie: cookie, ..self@ }),
    {
        let mut s = self;
        s.cookie = cookie;
        s
    }

    /// Set table for learned flows.
    pub fn table(self, table_id: u8) -> (r: Self)
        ensures
            r@ == (NxLearnModel { table_id: table_id, ..self@ }),
    {
        let mut s = self;
        s.table_id = table_id;
        s
    }

    /// Set flags.
    pub fn flags(self, flags: u16) -> (r: Self)
        ensures
            r@ == (NxLearnModel { flags: flags, ..self@ }),
    {
        let mut s = self;
        s.flags = flags;
        s
    }

    /// Add a spec to match a field from the packet.
    pub fn match_field(self, src_field: u32, dst_field: u32, n_bits: u16) -> (r: Self)
        ensures
            r@ == (NxLearnModel {
                specs: self@.specs.push(LearnSpecModel::MatchField { src_field, dst_field, n_bits }),
                ..self@
            }),
    {
        let mut s = self;
        s.specs.push(LearnSpec::MatchField { src_field, dst_field, n_bits });
        assert(s@.specs =~= self@.specs.push(LearnSpecModel::MatchField { src_field, dst_field, n_bits }));
        s
    }

    /// Add a spec to match an immediate value.
    pub fn match_immediate(self, dst_field: u32, value: Vec<u8>, n_bits: u16) -> (r: Self)
        ensures
            r@ == (NxLearnModel {
                specs: self@.specs.push(LearnSpecModel::MatchImmediate { dst_field, value: value@, n_bits }),
                ..self@
            }),
    {
        let mut s = self;
        let ghost v = value@;
        s.specs.push(LearnSpec::MatchImmediate { dst_field, value, n_bits });
        assert(s@.specs =~= self@.specs.push(LearnSpecModel::MatchImmediate { dst_field, value: v, n_bits }));
        s
    }

    /// Add a spec to load a field from packet into action.
    pub fn load_field(self, src_field: u32, dst_field: u32, n_bits: u16) -> (r: Self)
        ensures
            r@ == (NxLearnModel {
                specs: self@.specs.push(LearnSpecModel::LoadField { src_field, dst_field, n_bits }),
                ..self@
            }),
    {
        let mut s = self;
        s.specs.push(LearnSpec::LoadField { src_field, dst_field, n_bits });
        assert(s@.specs =~= self@.specs.push(LearnSpecModel::LoadField { src_field, dst_field, n_bits }));
        s
    }

    /// Add a spec to load an immediate value into action.
    pub fn load_immediate(self, dst_field: u32, value: Vec<u8>, n_bits: u16) -> (r: Self)
        ensures
            r@ == (NxLearnModel {
                specs: self@.specs.push(LearnSpecModel::LoadImmediate { dst_field, value: value@, n_bits }),
                ..self@
            }),
    {
        let mut s = self;
        let ghost v = value@;
        s.specs.push(LearnSpec::LoadImmediate { dst_field, value, n_bits });
        assert(s@.specs =~= self@.specs.push(LearnSpecModel::LoadImmediate { dst_field, value: v, n_bits }));
        s
    }

    /// Add a spec to output to port from field.
    pub fn output_field(self, src_field: u32, n_bits: u16) -> (r: Self)
        ensures
            r@ == (NxLearnModel {
                specs: self@.specs.push(LearnSpecModel::OutputField { src_field, n_bits }),
                ..self@
            }),
    {
        let mut s = self;
        s.specs.push(LearnSpec::OutputField { src_field, n_bits });
        assert(s@.specs =~= self@.specs.push(LearnSpecModel::OutputField { src_field, n_bits }));
        s
    }
}

// ---------------------------------------------------------------------------
// Wire format of learn specs
// ---------------------------------------------------------------------------

/// Spec header bit: the source is an immediate value.
pub const SRC_IMMEDIATE: u16 = 0x2000;
/// Spec header bits: the destination is an action field load.
pub const DST_LOAD: u16 = 0x0800;
/// Spec header bits: the destination is an output action.
pub const DST_OUTPUT: u16 = 0x1000;

/// Number of bytes an immediate value of `n_bits` bits occupies on the wire
/// (rounded up to whole 16-bit units).
pub open spec fn imm_len(n_bits: u16) -> nat {
    ((n_bits as nat + 15) / 16) * 2
}

/// An immediate value as written on the wire: right-aligned in `imm_len`
/// bytes, keeping at most `imm_len` of its leading bytes.
pub open spec fn padded_value(value: Seq<u8>, n_bits: u16) -> Seq<u8> {
    let vl = imm_len(n_bits);
    let cl = if value.len() < vl { value.len() } else { vl };
    zeros((vl - cl) as nat) + value.subrange(0, cl as int)
}

/// The bytes of one learn spec.
pub open spec fn spec_bytes(s: LearnSpecModel) -> Seq<u8> {
    match s {
        LearnSpecModel::MatchField { src_field, dst_field, n_bits } =>
            be16(n_bits) + be32(src_field) + be32(dst_field),
        LearnSpecModel::MatchImmediate { dst_field, value, n_bits } =>
            be16(SRC_IMMEDIATE | n_bits) + padded_value(value, n_bits) + be32(dst_field),
        LearnSpecModel::LoadField { src_field, dst_field, n_bits } =>
            be16(DST_LOAD | n_bits) + be32(src_field) + be32(dst_field),
        LearnSpecModel::LoadImmediate { dst_field, value, n_bits } =>
            be16(SRC_IMMEDIATE | DST_LOAD | n_bits) + padded_value(value, n_bits) + be32(dst_field),
        LearnSpecModel::OutputField { src_field, n_bits } =>
            be16(DST_OUTPUT | n_bits) + be32(src_field),
    }
}

/// The bytes of a sequence of learn specs, one after the other.
pub open spec fn specs_bytes(specs: Seq<LearnSpecModel>) -> Seq<u8>
    decreases specs.len(),
{
    if specs.len() == 0 {
        Seq::empty()
    } else {
        spec_bytes(specs[0]) + specs_bytes(specs.skip(1))
    }
}

/// A spec that the decoder reads back unchanged: its bit count fits the
/// 11-bit field, a field match has a nonzero header, and an immediate value
/// has exactly the length its bit count calls for.
pub open spec fn spec_wf(s: LearnSpecModel) -> bool {
    match s {
        LearnSpecModel::MatchField { n_bits, .. } => 1 <= n_bits < 0x800,
        LearnSpecModel::MatchImmediate { value, n_bits, .. } => n_bits < 0x800 && value.len() == imm_len(n_bits),
        LearnSpecModel::LoadField { n_bits, .. } => n_bits < 0x800,
        LearnSpecModel::LoadImmediate { value, n_bits, .. } => n_bits < 0x800 && value.len() == imm_len(n_bits),
        LearnSpecModel::OutputField { n_bits, .. } => n_bits < 0x800,
    }
}

/// The first learn spec in `d` and the number of bytes it takes, header
/// included; `None` at the end of the data, at a zero header, at a truncated
/// spec or at a spec of an unknown kind.
pub open spec fn decode_step(d: Seq<u8>) -> Option<(LearnSpecModel, int)> {
    if d.len() < 2 {
        None
    } else {
        let header = get16(d, 0);
        let rest = d.skip(2);
        let n_bits = (header % 0x800) as u16;
        let src_type = (header / 0x2000) % 2;
        let dst_type = (header / 0x800) % 4;
        let vl = imm_len(n_bits);
        if header == 0 {
            None
        } else if src_type == 0 && dst_type == 0 {
            if rest.len() < 8 {
                None
            } else {
                Some((LearnSpecModel::MatchField { src_field: get32(rest, 0), dst_field: get32(rest, 4), n_bits }, 10))
            }
        } else if src_type == 1 && dst_type == 0 {
            if rest.len() < vl + 4 {
                None
            } else {
                Some((LearnSpecModel::MatchImmediate {
                    dst_field: get32(rest, vl as int),
                    value: rest.subrange(0, vl as int),
                    n_bits,
                }, vl + 6int))
            }
        } else if src_type == 0 && dst_type == 1 {
            if rest.len() < 8 {
                None
            } else {
                Some((LearnSpecModel::LoadField { src_field: get32(rest, 0), dst_field: get32(rest, 4), n_bits }, 10))
            }
        } else if src_type == 1 && dst_type == 1 {
            if rest.len() < vl + 4 {
                None
            } else {
                Some((LearnSpecModel::LoadImmediate {
                    dst_field: get32(rest, vl as int),
                    value: rest.subrange(0, vl as int),
                    n_bits,
                }, vl + 6int))
            }
        } else if src_type == 0 && dst_type == 2 {
            if rest.len() < 4 {
                None
            } else {
                Some((LearnSpecModel::OutputField { src_field: get32(rest, 0), n_bits }, 6))
            }
        } else {
            None
        }
    }
}

/// Decodes learn specs one after the other until `decode_step` stops.
pub open spec fn decode_specs(d: Seq<u8>) -> Seq<LearnSpecModel>
    decreases d.len(),
{
    match decode_step(d) {
        Some((s, k)) => if 0 < k <= d.len() {
            seq![s] + decode_specs(d.skip(k))
        } else {
            Seq::empty()
        },
        None => Seq::empty(),
    }
}

pub proof fn lemma_specs_bytes_push(specs: Seq<LearnSpecModel>, s: LearnSpecModel)
    ensures
        specs_bytes(specs.push(s)) == specs_bytes(specs) + spec_bytes(s),
    decreases specs.len(),
{
    if specs.len() == 0 {
        assert(specs.push(s).skip(1) =~= Seq::<LearnSpecModel>::empty());
        assert(specs_bytes(Seq::<LearnSpecModel>::empty()) == Seq::<u8>::empty());
        assert(specs_bytes(specs.push(s)) =~= spec_bytes(s));
    } else {
        assert(specs.push(s).skip(1) =~= specs.skip(1).push(s));
        lemma_specs_bytes_push(specs.skip(1), s);
        assert(specs_bytes(specs.push(s)) =~= specs_bytes(specs) + spec_bytes(s));
    }
}

/// Appends the wire bytes of an immediate value: right-aligned in
/// `imm_len(n_bits)` bytes.
fn push_padded_value(buf: &mut Vec<u8>, value: &Vec<u8>, n_bits: u16)
    ensures
        final(buf)@ == old(buf)@ + padded_value(value@, n_bits),
{
    let vl: usize = ((n_bits as usize) + 15) / 16 * 2;
    let cl: usize = if value.len() < vl { value.len() } else { vl };
    crate::wire::push_zeros(buf, vl - cl);
    let ghost mid = buf@;
    let mut i: usize = 0;
    while i < cl
        invariant
            i <= cl,
            cl <= value@.len(),
            buf@ == mid + value@.subrange(0, i as int),
        decreases cl - i,
    {
        buf.push(value[i]);
        i = i + 1;
        assert(buf@ =~= mid + value@.subrange(0, i as int));
    }
    assert(final(buf)@ =~= old(buf)@ + padded_value(value@, n_bits));
}

/// Appends the wire bytes of one learn spec.
fn push_spec(buf: &mut Vec<u8>, spec: &LearnSpec)
    ensures
        final(buf)@ == old(buf)@ + spec_bytes(spec@),
{
    match spec {
        LearnSpec::MatchField { src_field, dst_field, n_bits } => {
            push_be16(buf, *n_bits);
            push_be32(buf, *src_field);
            push_be32(buf, *dst_field);
        },
        LearnSpec::MatchImmediate { dst_field, value, n_bits } => {
            push_be16(buf, SRC_IMMEDIATE | *n_bits);
            push_padded_value(buf, value, *n_bits);
            push_be32(buf, *dst_field);
        },
        LearnSpec::LoadField { src_field, dst_field, n_bits } => {
            push_be16(buf, DST_LOAD | *n_bits);
            push_be32(buf, *src_field);
            push_be32(buf, *dst_field);
        },
        LearnSpec::LoadImmediate { dst_field, value, n_bits } => {
            push_be16(buf, SRC_IMMEDIATE | DST_LOAD | *n_bits);
            push_padded_value(buf, value, *n_bits);
            push_be32(buf, *dst_field);
        },
        LearnSpec::OutputField { src_field, n_bits } => {
            push_be16(buf, DST_OUTPUT | *n_bits);
            push_be32(buf, *src_field);
        },
    }
    assert(final(buf)@ =~= old(buf)@ + spec_bytes(spec@));
}

/// Encode learn specs to wire format.
pub fn encode_learn_specs(specs: &[LearnSpec]) -> (r: Vec<u8>)
    ensures
        r@ == specs_bytes(specs@.map_values(|s: LearnSpec| s@)),
{
    let mut buf: Vec<u8> = Vec::new();
    let ghost models = specs@.map_values(|s: LearnSpec| s@);
    let mut i: usize = 0;
    assert(buf@ =~= specs_bytes(models.take(0)));
    while i < specs.len()
        invariant
            i <= specs@.len(),
            models == specs@.map_values(|s: LearnSpec| s@),
            buf@ == specs_bytes(models.take(i as int)),
        decreases specs@.len() - i,
    {
        push_spec(&mut buf, &specs[i]);
        proof {
            lemma_specs_bytes_push(models.take(i as int), models[i as int]);
            assert(models.take(i as int).push(models[i as int]) =~= models.take(i + 1));
        }
        i = i + 1;
    }
    assert(models.take(specs@.len() as int) =~= models);
    buf
}

/// Decodes the learn spec that starts at `data[offset]`.
#[verifier::rlimit(40)]
fn decode_spec_at(data: &[u8], offset: usize) -> (r: Option<(LearnSpec, usize)>)
    requires
        offset <= data@.len(),
    ensures
        match r {
            Some((s, next)) => offset < next <= data@.len()
                && decode_step(data@.skip(offset as int)) == Some((s@, next - offset)),
            None => decode_step(data@.skip(offset as int)) is None,
        },
{
    let len = data.len();
    let ghost d = data@.skip(offset as int);
    if len - offset < 2 {
        return None;
    }
    let header = read_be16(data, offset);
    assert(header == get16(d, 0));
    if header == 0 {
        return None;
    }
    let o = offset + 2;
    let ghost rest = d.skip(2);
    assert(rest =~= data@.skip(o as int));
    let n_bits: u16 = header % 0x800;
    let src_type: u16 = (header / 0x2000) % 2;
    let dst_type: u16 = (header / 0x800) % 4;
    let vl: usize = ((n_bits as usize) + 15) / 16 * 2;
    if src_type == 0 && (dst_type == 0 || dst_type == 1) {
        if len - o < 8 {
            return None;
        }
        let src_field = read_be32(data, o);
        let dst_field = read_be32(data, o + 4);
        proof {
            assert(get32(rest, 0) == get32(data@, o as int));
            assert(get32(rest, 4) == get32(data@, o + 4));
        }
        if dst_type == 0 {
            Some((LearnSpec::MatchField { src_field, dst_field, n_bits }, o + 8))
        } else {
            Some((LearnSpec::LoadField { src_field, dst_field, n_bits }, o + 8))
        }
    } else if src_type == 1 && (dst_type == 0 || dst_type == 1) {
        if len - o < vl + 4 {
            return None;
        }
        let value = vstd::slice::slice_to_vec(vstd::slice::slice_subrange(data, o, o + vl));
        let dst_field = read_be32(data, o + vl);
        proof {
            assert(value@ =~= rest.subrange(0, vl as int));
            assert(get32(rest, vl as int) == get32(data@, o + vl));
        }
        let ghost vv = value@;
        if dst_type == 0 {
            let r = Some((LearnSpec::MatchImmediate { dst_field, value, n_bits }, o + vl + 4));
            r
        } else {
            let r = Some((LearnSpec::LoadImmediate { dst_field, value, n_bits }, o + vl + 4));
            r
        }
    } else if src_type == 0 && dst_type == 2 {
        if len - o < 4 {
            return None;
        }
        let src_field = read_be32(data, o);
        assert(get32(rest, 0) == get32(data@, o as int));
        Some((LearnSpec::OutputField { src_field, n_bits }, o + 4))
    } else {
        None
    }
}

/// Decode learn specs from wire format.
pub fn decode_learn_specs(data: &[u8]) -> (r: Vec<LearnSpec>)
    ensures
        r@.map_values(|s: LearnSpec| s@) == decode_specs(data@),
{
    let mut specs: Vec<LearnSpec> = Vec::new();
    let mut offset: usize = 0;
    let len = data.len();
    assert(data@.skip(0) =~= data@);
    loop
        invariant
            len == data@.len(),
            offset <= len,
            specs@.map_values(|s: LearnSpec| s@) + decode_specs(data@.skip(offset as int)) == decode_specs(data@),
        ensures
            specs@.map_values(|s: LearnSpec| s@) == decode_specs(data@),
        decreases len - offset,
    {
        let ghost d = data@.skip(offset as int);
        let ghost before = specs@.map_values(|s: LearnSpec| s@);
        match decode_spec_at(data, offset) {
            None => {
                assert(decode_specs(d) =~= Seq::<LearnSpecModel>::empty());
                assert(before + decode_specs(d) =~= before);
                break;
            },
            Some((spec, next)) => {
                let ghost sv = spec@;
                specs.push(spec);
                proof {
                    assert(d.skip(next - offset) =~= data@.skip(next as int));
                    assert(decode_specs(d) == seq![sv] + decode_specs(data@.skip(next as int)));
                    assert(specs@.map_values(|s: LearnSpec| s@) =~= before.push(sv));
                    assert(before.push(sv) + decode_specs(data@.skip(next as int)) =~= before + (seq![sv]
                        + decode_specs(data@.skip(next as int))));
                }
                offset = next;
            },
        }
    }
    specs
}

proof fn lemma_header_bits(n: u16)
    requires
        n < 0x800,
    ensures
        SRC_IMMEDIATE | n == 0x2000 + n,
        DST_LOAD | n == 0x800 + n,
        SRC_IMMEDIATE | DST_LOAD | n == 0x2800 + n,
        DST_OUTPUT | n == 0x1000 + n,
{
    assert(0x2000u16 | n == 0x2000 + n) by (bit_vector)
        requires
            n < 0x800u16,
    ;
    assert(0x0800u16 | n == 0x800 + n) by (bit_vector)
        requires
            n < 0x800u16,
    ;
    assert(0x2000u16 | 0x0800u16 | n == 0x2800 + n) by (bit_vector)
        requires
            n < 0x800u16,
    ;
    assert(0x1000u16 | n == 0x1000 + n) by (bit_vector)
        requires
            n < 0x800u16,
    ;
}

proof fn lemma_step_two_fields(b: Seq<u8>, header: u16, src_field: u32, dst_field: u32)
    requires
        b.len() >= 10,
        b.subrange(0, 2) == be16(header),
        b.subrange(2, 6) == be32(src_field),
        b.subrange(6, 10) == be32(dst_field),
    ensures
        get16(b, 0) == header,
        get32(b.skip(2), 0) == src_field,
        get32(b.skip(2), 4) == dst_field,
        b.skip(2).len() >= 8,
{
    let rest = b.skip(2);
    lemma_get16_be16(b, 0, header);
    assert(rest.subrange(0, 4) =~= b.subrange(2, 6));
    assert(rest.subrange(4, 8) =~= b.subrange(6, 10));
    lemma_get32_be32(rest, 0, src_field);
    lemma_get32_be32(rest, 4, dst_field);
}

proof fn lemma_step_immediate(b: Seq<u8>, header: u16, value: Seq<u8>, dst_field: u32)
    requires
        b.len() >= value.len() + 6,
        b.subrange(0, 2) == be16(header),
        b.subrange(2, 2 + value.len() as int) == value,
        b.subrange(2 + value.len() as int, 6 + value.len() as int) == be32(dst_field),
    ensures
        get16(b, 0) == header,
        b.skip(2).subrange(0, value.len() as int) == value,
        get32(b.skip(2), value.len() as int) == dst_field,
        b.skip(2).len() >= value.len() + 4,
{
    let rest = b.skip(2);
    let vl = value.len() as int;
    lemma_get16_be16(b, 0, header);
    assert(rest.subrange(0, vl) =~= b.subrange(2, 2 + vl));
    assert(rest.subrange(vl, vl + 4) =~= b.subrange(2 + vl, 6 + vl));
    lemma_get32_be32(rest, vl, dst_field);
}

proof fn lemma_step_field_kind(b: Seq<u8>, m: LearnSpecModel, kind: u16, src_field: u32, dst_field: u32, n_bits: u16)
    requires
        n_bits < 0x800,
        kind == 0 || kind == 0x800,
        kind == 0 ==> 1 <= n_bits,
        kind == 0 ==> m == (LearnSpecModel::MatchField { src_field, dst_field, n_bits }),
        kind == 0x800 ==> m == (LearnSpecModel::LoadField { src_field, dst_field, n_bits }),
        b.len() >= 10,
        b.subrange(0, 2) == be16((kind + n_bits) as u16),
        b.subrange(2, 6) == be32(src_field),
        b.subrange(6, 10) == be32(dst_field),
    ensures
        decode_step(b) == Some((m, 10int)),
{
    lemma_step_two_fields(b, (kind + n_bits) as u16, src_field, dst_field);
    let header = get16(b, 0);
    assert(header % 0x800 == n_bits);
    assert((header / 0x2000) % 2 == 0);
    assert((header / 0x800) % 4 == kind / 0x800);
}

proof fn lemma_step_immediate_kind(b: Seq<u8>, m: LearnSpecModel, kind: u16, value: Seq<u8>, dst_field: u32, n_bits: u16)
    requires
        n_bits < 0x800,
        value.len() == imm_len(n_bits),
        kind == 0x2000 || kind == 0x2800,
        kind == 0x2000 ==> m == (LearnSpecModel::MatchImmediate { dst_field, value, n_bits }),
        kind == 0x2800 ==> m == (LearnSpecModel::LoadImmediate { dst_field, value, n_bits }),
        b.len() >= value.len() + 6,
        b.subrange(0, 2) == be16((kind + n_bits) as u16),
        b.subrange(2, 2 + value.len() as int) == value,
        b.subrange(2 + value.len() as int, 6 + value.len() as int) == be32(dst_field),
    ensures
        decode_step(b) == Some((m, value.len() + 6int)),
{
    lemma_step_immediate(b, (kind + n_bits) as u16, value, dst_field);
    let header = get16(b, 0);
    assert(header % 0x800 == n_bits);
    assert((header / 0x2000) % 2 == 1);
    assert((header / 0x800) % 4 == (kind - 0x2000) / 0x800);
}

/// Decoding the bytes of a well-formed spec, whatever follows them, gives
/// the spec back together with its length.
#[verifier::spinoff_prover]
#[verifier::rlimit(50)]
pub proof fn lemma_decode_step_spec(s: LearnSpecModel, tail: Seq<u8>)
    requires
        spec_wf(s),
    ensures
        decode_step(spec_bytes(s) + tail) == Some((s, spec_bytes(s).len() as int)),
{
    let b = spec_bytes(s) + tail;
    match s {
        LearnSpecModel::MatchField { src_field, dst_field, n_bits } => {
            assert(b.subrange(0, 2) =~= be16((0 + n_bits) as u16));
            assert(b.subrange(2, 6) =~= be32(src_field));
            assert(b.subrange(6, 10) =~= be32(dst_field));
            lemma_step_field_kind(b, s, 0, src_field, dst_field, n_bits);
        },
        LearnSpecModel::MatchImmediate { dst_field, value, n_bits } => {
            lemma_header_bits(n_bits);
            assert(padded_value(value, n_bits) =~= value);
            assert(b.subrange(0, 2) =~= be16((0x2000 + n_bits) as u16));
            assert(b.subrange(2, 2 + value.len() as int) =~= value);
            assert(b.subrange(2 + value.len() as int, 6 + value.len() as int) =~= be32(dst_field));
            lemma_step_immediate_kind(b, s, 0x2000, value, dst_field, n_bits);
        },
        LearnSpecModel::LoadField { src_field, dst_field, n_bits } => {
            lemma_header_bits(n_bits);
            assert(b.subrange(0, 2) =~= be16((0x800 + n_bits) as u16));
            assert(b.subrange(2, 6) =~= be32(src_field));
            assert(b.subrange(6, 10) =~= be32(dst_field));
            lemma_step_field_kind(b, s, 0x800, src_field, dst_field, n_bits);
        },
        LearnSpecModel::LoadImmediate { dst_field, value, n_bits } => {
            lemma_header_bits(n_bits);
            assert(padded_value(value, n_bits) =~= value);
            assert(b.subrange(0, 2) =~= be16((0x2800 + n_bits) as u16));
            assert(b.subrange(2, 2 + value.len() as int) =~= value);
            assert(b.subrange(2 + value.len() as int, 6 + value.len() as int) =~= be32(dst_field));
            lemma_step_immediate_kind(b, s, 0x2800, value, dst_field, n_bits);
        },
        LearnSpecModel::OutputField { src_field, n_bits } => {
            lemma_header_bits(n_bits);
            let h = (0x1000 + n_bits) as u16;
            assert(b.subrange(0, 2) =~= be16(h));
            assert(b.subrange(2, 6) =~= be32(src_field));
            lemma_get16_be16(b, 0, h);
            assert(b.skip(2).subrange(0, 4) =~= b.subrange(2, 6));
            lemma_get32_be32(b.skip(2), 0, src_field);
            assert(h % 0x800 == n_bits);
        },
    }
}

/// Zero padding ends a run of learn specs.
pub proof fn lemma_decode_step_zeros(n: nat)
    ensures
        decode_step(zeros(n)) is None,
{
    if n >= 2 {
        assert(get16(zeros(n), 0) == 0);
    }
}

/// One step of reading specs: the spec read first, then the rest.
proof fn lemma_decode_specs_unfold(d: Seq<u8>, s: LearnSpecModel, k: int)
    requires
        decode_step(d) == Some((s, k)),
        0 < k <= d.len(),
    ensures
        decode_specs(d) == seq![s] + decode_specs(d.skip(k)),
{
}

/// Learn specs read back as written, when each is well-formed and the bytes
/// that follow them do not start another spec.
pub proof fn lemma_decode_specs_bytes(specs: Seq<LearnSpecModel>, tail: Seq<u8>)
    requires
        forall|i: int| 0 <= i < specs.len() ==> spec_wf(#[trigger] specs[i]),
        decode_step(tail) is None,
    ensures
        decode_specs(specs_bytes(specs) + tail) == specs,
    decreases specs.len(),
{
    if specs.len() == 0 {
        assert(specs_bytes(specs) + tail =~= tail);
        assert(specs =~= Seq::<LearnSpecModel>::empty());
    } else {
        let first = spec_bytes(specs[0]);
        let more = specs_bytes(specs.skip(1)) + tail;
        assert(specs_bytes(specs) + tail =~= first + more);
        assert(spec_wf(specs[0]));
        lemma_decode_step_spec(specs[0], more);
        assert(first.len() >= 2);
        lemma_decode_specs_unfold(first + more, specs[0], first.len() as int);
        assert forall|i: int| 0 <= i < specs.skip(1).len() implies spec_wf(#[trigger] specs.skip(1)[i]) by {
            assert(specs.skip(1)[i] == specs[i + 1]);
        }
        lemma_decode_specs_bytes(specs.skip(1), tail);
        assert((first + more).skip(first.len() as int) =~= more);
        assert(seq![specs[0]] + specs.skip(1) =~= specs);
    }
}

} // verus!
