use tegra_rcm::buffer::{BufferState, COPY_BUFFER_ADDRESS_HIGH, COPY_BUFFER_ADDRESS_LOW};

#[test]
fn default_buffer_is_low() {
    assert_eq!(BufferState::default(), BufferState::Low);
}

#[test]
fn toggle_flips() {
    let mut state = BufferState::Low;
    state.toggle();
    assert_eq!(state, BufferState::High);
    state.toggle();
    assert_eq!(state, BufferState::Low);
}

#[test]
fn buffer_toggle_parity() {
    for packets in 0..100usize {
        let mut state = BufferState::Low;
        for _ in 0..packets {
            state.toggle();
        }
        if packets % 2 == 1 {
            assert_eq!(state, BufferState::High, "after {packets} packets");
        } else {
            assert_eq!(state, BufferState::Low, "after {packets} packets");
        }
    }
}

#[test]
fn buffer_addresses() {
    assert_eq!(BufferState::Low.address(), 0x4000_5000);
    assert_eq!(BufferState::High.address(), 0x4000_9000);
    assert_eq!(COPY_BUFFER_ADDRESS_LOW, 0x4000_5000);
    assert_eq!(COPY_BUFFER_ADDRESS_HIGH, 0x4000_9000);
    assert_ne!(BufferState::Low.address(), BufferState::High.address());
}

#[test]
fn address_follows_the_toggle() {
    let mut state = BufferState::default();
    assert_eq!(state.address(), 0x4000_5000);
    state.toggle();
    assert_eq!(state.address(), 0x4000_9000);
    state.toggle();
    assert_eq!(state.address(), 0x4000_5000);
}
