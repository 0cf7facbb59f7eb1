use vstd::prelude::*;

verus! {

/// First storage key reserved for bond records; keys below it belong to
/// other persisted items.
pub const BOND_START: u32 = 1;

/// The storage key of bond slot `i`.
pub fn bi(i: u8) -> (r: u32)
    ensures
        r == BOND_START + i,
{
    BOND_START + i as u32
}

/// Which bit value [`get_indices`] collects.
#[derive(Copy, Clone, PartialEq, Eq, Structural, Debug)]
pub enum IndexState {
    Zero,
    One,
}

/// The bit value an [`IndexState`] stands for.
pub open spec fn index_state_value(s: IndexState) -> u8 {
    match s {
        IndexState::Zero => 0,
        IndexState::One => 1,
    }
}

/// The positions among the first `n` bits of `state` whose value is `want`,
/// in ascending order.
pub open spec fn bit_indices(state: u8, want: u8, n: int) -> Seq<u8>
    decreases n,
{
    if n <= 0 {
        seq![]
    } else {
        bit_indices(state, want, n - 1) + if (state & (1u8 << ((n - 1) as u8))) >> ((n - 1) as u8)
            == want {
            seq![(n - 1) as u8]
        } else {
            seq![]
        }
    }
}

/// Appends to `vec` the positions of the bits of `state` whose value matches
/// `index_state`, in ascending order.
pub fn get_indices(state: u8, vec: &mut Vec<u8>, index_state: IndexState)
    ensures
        final(vec)@ == old(vec)@ + bit_indices(state, index_state_value(index_state), 8),
{
    let num: u8 = match index_state {
        IndexState::Zero => 0,
        IndexState::One => 1,
    };
    let mut i: u8 = 0;
    while i < 8
        invariant
            i <= 8,
            num == index_state_value(index_state),
            vec@ == old(vec)@ + bit_indices(state, num, i as int),
        decreases 8 - i,
    {
        if (state & (1u8 << i)) >> i == num {
            vec.push(i);
        }
        proof {
            assert(vec@ =~= old(vec)@ + bit_indices(state, num, i as int + 1));
        }
        i = i + 1;
    }
}

} // verus!
