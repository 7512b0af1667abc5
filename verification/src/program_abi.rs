//! The on-chain layout shared by both bundled counter programs: how an
//! instruction is encoded into instruction data, how the counter account's
//! data decodes, and what the upgraded program's custom error codes mean.
//!
//! Both programs use Borsh: an enum is its variant index as one byte followed
//! by its fields; a `u64` is eight little-endian bytes; a `bool` is one byte,
//! `0` or `1`; an address is its 32 bytes.

use vstd::prelude::*;

use crate::fixture::CounterInstructionSpec;

verus! {

/// The counter program's instruction, as it is encoded on the wire.
#[derive(Clone, Copy, Debug, PartialEq, Eq, Structural)]
pub enum CounterInstruction {
    Initialize { start_value: u64 },
    Increment { amount: u64 },
    Decrement { amount: u64 },
    SetValue { value: u64 },
}

/// The instruction that a fixture entry describes: same variant, same field.
pub open spec fn instruction_of(spec: CounterInstructionSpec) -> CounterInstruction {
    match spec {
        CounterInstructionSpec::Initialize { start_value } => CounterInstruction::Initialize { start_value },
        CounterInstructionSpec::Increment { amount } => CounterInstruction::Increment { amount },
        CounterInstructionSpec::Decrement { amount } => CounterInstruction::Decrement { amount },
        CounterInstructionSpec::SetValue { value } => CounterInstruction::SetValue { value },
    }
}

impl<'a> From<&'a CounterInstructionSpec> for CounterInstruction {
    fn from(spec: &'a CounterInstructionSpec) -> (r: Self) {
        match *spec {
            CounterInstructionSpec::Initialize { start_value } => CounterInstruction::Initialize { start_value },
            CounterInstructionSpec::Increment { amount } => CounterInstruction::Increment { amount },
            CounterInstructionSpec::Decrement { amount } => CounterInstruction::Decrement { amount },
            CounterInstructionSpec::SetValue { value } => CounterInstruction::SetValue { value },
        }
    }
}

impl<'a> vstd::std_specs::convert::FromSpecImpl<&'a CounterInstructionSpec> for CounterInstruction {
    open spec fn obeys_from_spec() -> bool {
        true
    }

    open spec fn from_spec(spec: &'a CounterInstructionSpec) -> Self {
        instruction_of(*spec)
    }
}

/// The eight little-endian bytes of `v`.
pub open spec fn le_bytes(v: u64) -> Seq<u8> {
    seq![
        (v & 0xff) as u8,
        ((v >> 8u64) & 0xff) as u8,
        ((v >> 16u64) & 0xff) as u8,
        ((v >> 24u64) & 0xff) as u8,
        ((v >> 32u64) & 0xff) as u8,
        ((v >> 40u64) & 0xff) as u8,
        ((v >> 48u64) & 0xff) as u8,
        ((v >> 56u64) & 0xff) as u8,
    ]
}

/// The `u64` whose little-endian bytes are `b[0..8]`.
pub open spec fn le_u64(b: Seq<u8>) -> u64 {
    (b[0] as u64) | ((b[1] as u64) << 8u64) | ((b[2] as u64) << 16u64) | ((b[3] as u64) << 24u64)
        | ((b[4] as u64) << 32u64) | ((b[5] as u64) << 40u64) | ((b[6] as u64) << 48u64) | ((b[7] as u64)
        << 56u64)
}

/// The variant index and the field of an instruction.
pub open spec fn tag_and_field(i: CounterInstruction) -> (u8, u64) {
    match i {
        CounterInstruction::Initialize { start_value } => (0u8, start_value),
        CounterInstruction::Increment { amount } => (1u8, amount),
        CounterInstruction::Decrement { amount } => (2u8, amount),
        CounterInstruction::SetValue { value } => (3u8, value),
    }
}

/// The instruction data the counter program expects for `i`.
pub open spec fn instruction_data(i: CounterInstruction) -> Seq<u8> {
    seq![tag_and_field(i).0] + le_bytes(tag_and_field(i).1)
}

fn push_le_u64(out: &mut Vec<u8>, v: u64)
    ensures
        final(out)@ == old(out)@ + le_bytes(v),
{
    out.push((v & 0xff) as u8);
    out.push(((v >> 8u64) & 0xff) as u8);
    out.push(((v >> 16u64) & 0xff) as u8);
    out.push(((v >> 24u64) & 0xff) as u8);
    out.push(((v >> 32u64) & 0xff) as u8);
    out.push(((v >> 40u64) & 0xff) as u8);
    out.push(((v >> 48u64) & 0xff) as u8);
    out.push(((v >> 56u64) & 0xff) as u8);
    assert(out@ =~= old(out)@ + le_bytes(v));
}

impl CounterInstruction {
    /// The Borsh encoding of this instruction: variant index, then the field.
    pub fn encode(&self) -> (r: Vec<u8>)
        ensures
            r@ == instruction_data(*self),
            r@.len() == 9,
    {
        let (tag, field): (u8, u64) = match *self {
            CounterInstruction::Initialize { start_value } => (0u8, start_value),
            CounterInstruction::Increment { amount } => (1u8, amount),
            CounterInstruction::Decrement { amount } => (2u8, amount),
            CounterInstruction::SetValue { value } => (3u8, value),
        };
        let mut out: Vec<u8> = Vec::new();
        out.push(tag);
        push_le_u64(&mut out, field);
        assert(out@ =~= instruction_data(*self));
        out
    }
}

/// The counter account's state.
#[derive(Clone, Copy, Debug, PartialEq, Eq)]
pub struct Counter {
    pub is_initialized: bool,
    /// The authority's address.
    pub authority: [u8; 32],
    pub value: u64,
}


/// `data` is a well-formed encoding of a counter: exactly `Counter::LEN`
/// bytes, the flag byte `0` or `1`.
pub open spec fn counter_data_ok(data: Seq<u8>) -> bool {
    data.len() == 41 && data[0] <= 1
}

/// `c` is the counter that well-formed `data` encodes.
pub open spec fn counter_decodes_to(data: Seq<u8>, c: Counter) -> bool {
    &&& c.is_initialized == (data[0] == 1)
    &&& c.authority@ == data.subrange(1, 33)
    &&& c.value == le_u64(data.subrange(33, 41))
}

impl Counter {
    /// The size of the counter account's data.
    pub const LEN: usize = 41;

    /// Decodes the counter account's data. `None` unless `data` is exactly
    /// `Counter::LEN` bytes with a flag byte of `0` or `1`, as a Borsh
    /// decoder of the whole slice requires.
    pub fn decode(data: &[u8]) -> (r: Option<Counter>)
        ensures
            r is Some <==> counter_data_ok(data@),
            r matches Some(c) ==> counter_decodes_to(data@, c),
    {
        if data.len() != 41 || data[0] > 1 {
            return None;
        }
        let mut authority: [u8; 32] = [0u8; 32];
        let mut k: usize = 0;
        while k < 32
            invariant
                data@.len() == 41,
                k <= 32,
                forall|j: int| 0 <= j < k ==> authority@[j] == data@[j + 1],
            decreases 32 - k,
        {
            authority[k] = data[k + 1];
            k = k + 1;
        }
        assert(authority@ =~= data@.subrange(1, 33));
        let value: u64 = (data[33] as u64) | ((data[34] as u64) << 8u64) | ((data[35] as u64) << 16u64)
            | ((data[36] as u64) << 24u64) | ((data[37] as u64) << 32u64) | ((data[38] as u64) << 40u64)
            | ((data[39] as u64) << 48u64) | ((data[40] as u64) << 56u64);
        let ghost tail = data@.subrange(33, 41);
        assert(tail[0] == data@[33] && tail[1] == data@[34] && tail[2] == data@[35] && tail[3] == data@[36]
            && tail[4] == data@[37] && tail[5] == data@[38] && tail[6] == data@[39] && tail[7] == data@[40]);
        Some(Counter { is_initialized: data[0] == 1, authority, value })
    }
}

/// The names of the upgraded counter program's custom error codes.
pub open spec fn custom_error_name(code: u32) -> Option<Seq<char>> {
    if code == 0 {
        Some("InvalidAuthority"@)
    } else if code == 1 {
        Some("ValueExceedsMax"@)
    } else if code == 2 {
        Some("Underflow"@)
    } else {
        None
    }
}

/// Human-readable names for the custom program error codes of the upgraded
/// counter program. The baseline program never returns a custom error, so
/// this table only applies to the new build.
pub fn describe_custom_error(code: u32) -> (r: Option<&'static str>)
    ensures
        match r {
            Some(name) => custom_error_name(code) == Some(name@),
            None => custom_error_name(code) is None,
        },
{
    match code {
        0 => Some("InvalidAuthority"),
        1 => Some("ValueExceedsMax"),
        2 => Some("Underflow"),
        _ => None,
    }
}

} // verus!
