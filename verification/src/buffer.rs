//! The two copy buffers of the boot ROM and the toggle between them.

use vstd::prelude::*;

verus! {

/// Address of the low copy buffer.
pub const COPY_BUFFER_ADDRESS_LOW: usize = 0x4000_5000;

/// Address of the high copy buffer.
pub const COPY_BUFFER_ADDRESS_HIGH: usize = 0x4000_9000;

/// Which of the two copy buffers of the boot ROM the next transfer lands in.
#[derive(Debug, Clone, Copy, PartialEq, Eq, Structural)]
pub enum BufferState {
    Low,
    High,
}

impl BufferState {
    /// The other buffer.
    pub open spec fn flipped(self) -> BufferState {
        match self {
            BufferState::Low => BufferState::High,
            BufferState::High => BufferState::Low,
        }
    }

    /// The buffer reached from `self` after `n` toggles.
    pub open spec fn toggled(self, n: nat) -> BufferState
        decreases n,
    {
        if n == 0 {
            self
        } else {
            self.flipped().toggled((n - 1) as nat)
        }
    }

    /// The hardware address of the buffer.
    pub open spec fn spec_address(self) -> int {
        match self {
            BufferState::Low => 0x4000_5000,
            BufferState::High => 0x4000_9000,
        }
    }

    /// Toggle the buffer.
    pub fn toggle(&mut self)
        ensures
            *final(self) == old(self).flipped(),
    {
        match self {
            BufferState::High => *self = BufferState::Low,
            BufferState::Low => *self = BufferState::High,
        }
    }

    /// Gets the address of the buffer.
    #[verifier::when_used_as_spec(spec_address_usize)]
    pub fn address(self) -> (address: usize)
        ensures
            address == self.spec_address(),
            self == BufferState::Low ==> address == COPY_BUFFER_ADDRESS_LOW,
            self == BufferState::High ==> address == COPY_BUFFER_ADDRESS_HIGH,
    {
        match self {
            BufferState::Low => COPY_BUFFER_ADDRESS_LOW,
            BufferState::High => COPY_BUFFER_ADDRESS_HIGH,
        }
    }

    /// `spec_address` as a machine integer.
    pub open spec fn spec_address_usize(self) -> usize {
        match self {
            BufferState::Low => COPY_BUFFER_ADDRESS_LOW,
            BufferState::High => COPY_BUFFER_ADDRESS_HIGH,
        }
    }
}

impl Default for BufferState {
    fn default() -> (state: BufferState)
        ensures
            state == BufferState::Low,
    {
        BufferState::Low
    }
}

/// After `n` toggles the buffer is the starting one when `n` is even and the
/// other one when `n` is odd.
pub proof fn lemma_toggle_parity(state: BufferState, n: nat)
    ensures
        n % 2 == 0 ==> state.toggled(n) == state,
        n % 2 == 1 ==> state.toggled(n) == state.flipped(),
    decreases n,
{
    if n > 0 {
        lemma_toggle_parity(state.flipped(), (n - 1) as nat);
    }
}

/// Starting from `Low`, an odd number of toggles ends in `High` and an even
/// number in `Low`.
pub proof fn lemma_toggle_from_low(n: nat)
    ensures
        BufferState::Low.toggled(n) == (if n % 2 == 1 {
            BufferState::High
        } else {
            BufferState::Low
        }),
{
    lemma_toggle_parity(BufferState::Low, n);
}

/// One more toggle at the end is one more toggle in all.
pub proof fn lemma_toggle_step(state: BufferState, n: nat)
    ensures
        state.toggled(n + 1) == state.toggled(n).flipped(),
    decreases n,
{
    assert(state.toggled(n + 1) == state.flipped().toggled(n));
    if n > 0 {
        lemma_toggle_step(state.flipped(), (n - 1) as nat);
        assert(state.flipped().toggled(n) == state.flipped().toggled((n - 1) as nat).flipped());
    } else {
        assert(state.flipped().toggled(0) == state.flipped());
    }
}

/// The two buffers have different addresses.
pub proof fn lemma_addresses_differ(a: BufferState, b: BufferState)
    ensures
        a.spec_address() == b.spec_address() <==> a == b,
{
}

} // verus!
