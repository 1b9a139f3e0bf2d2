use riscv_peripheral::clic::example::{Interrupt, Priority};
use riscv_peripheral::clic::interrupt::{flag_is_set, Lane, INTERRUPTS};
use riscv_peripheral::clic::{
    Clic, ControllerState, InterruptNumber, PriorityNumber, CLIC, INTERRUPTS_OFFSET,
};
use riscv_peripheral::window::RegisterWindow;

#[derive(Clone, Copy, Debug, Eq, PartialEq)]
struct Platform;

impl Clic for Platform {
    const BASE: usize = 0x1000;
}

const ALL_INTERRUPTS: [Interrupt; 4] = [Interrupt::I1, Interrupt::I2, Interrupt::I3, Interrupt::I4];

const WINDOW_BASE: usize = 0x8000_0000;

/// A zeroed window as large as 32 control words, with its handle.
fn raw_registers() -> (RegisterWindow, INTERRUPTS) {
    let window = RegisterWindow::new(WINDOW_BASE, 32 * 4);
    let interrupts = INTERRUPTS::new(window.base());
    (window, interrupts)
}

fn window_bytes(window: &RegisterWindow) -> Vec<u8> {
    (0..window.len()).map(|i| window.read(window.base() + i)).collect()
}

#[test]
fn check_interrupt_enum() {
    assert_eq!(Interrupt::I1.number(), 1);
    assert_eq!(Interrupt::I2.number(), 2);
    assert_eq!(Interrupt::I3.number(), 3);
    assert_eq!(Interrupt::I4.number(), 4);

    assert_eq!(Interrupt::from_number(1), Ok(Interrupt::I1));
    assert_eq!(Interrupt::from_number(2), Ok(Interrupt::I2));
    assert_eq!(Interrupt::from_number(3), Ok(Interrupt::I3));
    assert_eq!(Interrupt::from_number(4), Ok(Interrupt::I4));

    assert_eq!(Interrupt::from_number(0), Err(0));
    assert_eq!(Interrupt::from_number(5), Err(5));
}

#[test]
fn check_priority_enum() {
    assert_eq!(Priority::L0.number(), 0);
    assert_eq!(Priority::L1.number(), 1);
    assert_eq!(Priority::L2.number(), 2);
    assert_eq!(Priority::L3.number(), 3);

    assert_eq!(Priority::from_number(0), Ok(Priority::L0));
    assert_eq!(Priority::from_number(1), Ok(Priority::L1));
    assert_eq!(Priority::from_number(2), Ok(Priority::L2));
    assert_eq!(Priority::from_number(3), Ok(Priority::L3));

    assert_eq!(Priority::from_number(4), Err(4));
}

#[test]
fn check_clic() {
    let interrupts = CLIC::<Platform>::interrupts();

    assert_eq!(interrupts.address(), 0x0000_2000);
}

#[test]
fn test_enable() {
    let (mut raw_reg, interrupts) = raw_registers();

    interrupts.enable(&mut raw_reg, Interrupt::I1);
    interrupts.enable(&mut raw_reg, Interrupt::I2);
    interrupts.enable(&mut raw_reg, Interrupt::I3);
    interrupts.enable(&mut raw_reg, Interrupt::I4);
    interrupts.disable(&mut raw_reg, Interrupt::I2);
    interrupts.disable(&mut raw_reg, Interrupt::I4);
    assert!(interrupts.is_enabled(&raw_reg, Interrupt::I1));
    assert!(!interrupts.is_enabled(&raw_reg, Interrupt::I2));
    assert!(interrupts.is_enabled(&raw_reg, Interrupt::I3));
    assert!(!interrupts.is_enabled(&raw_reg, Interrupt::I4));
}

#[test]
fn test_priorities() {
    let (mut raw_reg, interrupts) = raw_registers();

    interrupts.set_priority(&mut raw_reg, Interrupt::I1, Priority::L0);
    interrupts.set_priority(&mut raw_reg, Interrupt::I2, Priority::L1);
    interrupts.set_priority(&mut raw_reg, Interrupt::I3, Priority::L2);
    interrupts.set_priority(&mut raw_reg, Interrupt::I4, Priority::L3);

    assert_eq!(interrupts.get_priority(&raw_reg, Interrupt::I1), 0);
    assert_eq!(interrupts.get_priority(&raw_reg, Interrupt::I2), 1);
    assert_eq!(interrupts.get_priority(&raw_reg, Interrupt::I3), 2);
    assert_eq!(interrupts.get_priority(&raw_reg, Interrupt::I4), 3);
}

#[test]
fn test_pending() {
    let (mut raw_reg, interrupts) = raw_registers();

    interrupts.pend(&mut raw_reg, Interrupt::I1);
    interrupts.pend(&mut raw_reg, Interrupt::I2);
    interrupts.pend(&mut raw_reg, Interrupt::I3);
    interrupts.pend(&mut raw_reg, Interrupt::I4);

    interrupts.unpend(&mut raw_reg, Interrupt::I2);
    interrupts.unpend(&mut raw_reg, Interrupt::I4);

    assert!(interrupts.is_pending(&raw_reg, Interrupt::I1));
    assert!(!interrupts.is_pending(&raw_reg, Interrupt::I2));
    assert!(interrupts.is_pending(&raw_reg, Interrupt::I3));
    assert!(!interrupts.is_pending(&raw_reg, Interrupt::I4));
}

#[test]
fn interrupt_numbers_round_trip() {
    for source in ALL_INTERRUPTS {
        assert_eq!(Interrupt::from_number(source.number()), Ok(source));
    }
    for level in [Priority::L0, Priority::L1, Priority::L2, Priority::L3] {
        assert_eq!(Priority::from_number(level.number()), Ok(level));
    }
}

#[test]
fn numbers_out_of_range_are_rejected() {
    assert_eq!(Interrupt::from_number(Interrupt::MAX_INTERRUPT_NUMBER + 1), Err(5));
    assert_eq!(Interrupt::from_number(u16::MAX), Err(u16::MAX));
    assert_eq!(Priority::from_number(Priority::MAX_PRIORITY_NUMBER + 1), Err(4));
    assert_eq!(Priority::from_number(u8::MAX), Err(u8::MAX));
}

#[test]
fn lane_addresses_follow_the_layout() {
    let interrupts = INTERRUPTS::new(0x2000);
    assert_eq!(Lane::Pending.offset(), 0);
    assert_eq!(Lane::Enable.offset(), 1);
    assert_eq!(Lane::Priority.offset(), 3);
    assert_eq!(interrupts.lane_address(Interrupt::I1, Lane::Pending), 0x2004);
    assert_eq!(interrupts.lane_address(Interrupt::I1, Lane::Enable), 0x2005);
    assert_eq!(interrupts.lane_address(Interrupt::I1, Lane::Priority), 0x2007);
    assert_eq!(interrupts.lane_address(Interrupt::I3, Lane::Pending), 0x200c);
    assert_eq!(interrupts.lane_address(Interrupt::I4, Lane::Enable), 0x2011);
    assert_eq!(interrupts.lane_address(Interrupt::I4, Lane::Priority), 0x2013);
}

#[test]
fn enable_writes_only_its_lane() {
    let (mut window, interrupts) = raw_registers();
    for (i, source) in ALL_INTERRUPTS.into_iter().enumerate() {
        interrupts.pend(&mut window, source);
        interrupts.set_priority(&mut window, source, [Priority::L3, Priority::L2, Priority::L1, Priority::L0][i]);
    }
    let before = window_bytes(&window);
    interrupts.enable(&mut window, Interrupt::I2);
    let after = window_bytes(&window);
    let enable_index = 4 * 2 + 1;
    for i in 0..before.len() {
        if i == enable_index {
            assert_eq!(after[i], 1);
        } else {
            assert_eq!(after[i], before[i], "byte {} changed", i);
        }
    }
    assert!(interrupts.is_pending(&window, Interrupt::I2));
    assert_eq!(interrupts.get_priority(&window, Interrupt::I2), 2);
    assert!(!interrupts.is_enabled(&window, Interrupt::I1));
    assert!(!interrupts.is_enabled(&window, Interrupt::I3));
}

#[test]
fn lane_writes_are_idempotent() {
    let (mut once, interrupts) = raw_registers();
    let (mut twice, _) = raw_registers();
    interrupts.enable(&mut once, Interrupt::I3);
    interrupts.enable(&mut twice, Interrupt::I3);
    interrupts.enable(&mut twice, Interrupt::I3);
    assert_eq!(window_bytes(&once), window_bytes(&twice));

    interrupts.pend(&mut once, Interrupt::I1);
    interrupts.pend(&mut twice, Interrupt::I1);
    interrupts.pend(&mut twice, Interrupt::I1);
    assert_eq!(window_bytes(&once), window_bytes(&twice));

    interrupts.disable(&mut once, Interrupt::I3);
    interrupts.disable(&mut twice, Interrupt::I3);
    interrupts.disable(&mut twice, Interrupt::I3);
    interrupts.unpend(&mut once, Interrupt::I1);
    interrupts.unpend(&mut twice, Interrupt::I1);
    interrupts.unpend(&mut twice, Interrupt::I1);
    assert_eq!(window_bytes(&once), window_bytes(&twice));
    assert!(window_bytes(&once).iter().all(|b| *b == 0));
}

#[test]
fn priorities_read_back_as_written() {
    let (mut window, interrupts) = raw_registers();
    for level in [Priority::L3, Priority::L0, Priority::L2, Priority::L1] {
        interrupts.set_priority(&mut window, Interrupt::I4, level);
        assert_eq!(interrupts.get_priority(&window, Interrupt::I4), level.number());
    }
}

#[test]
fn raw_priority_is_surfaced_as_stored() {
    let (mut window, interrupts) = raw_registers();
    let addr = interrupts.lane_address(Interrupt::I2, Lane::Priority);
    window.write(addr, 0xa5);
    assert_eq!(interrupts.get_priority(&window, Interrupt::I2), 0xa5);
}

#[test]
fn only_one_reads_as_set() {
    assert!(flag_is_set(1));
    assert!(!flag_is_set(0));
    assert!(!flag_is_set(2));
    assert!(!flag_is_set(0xff));

    let (mut window, interrupts) = raw_registers();
    window.write(interrupts.lane_address(Interrupt::I1, Lane::Enable), 3);
    window.write(interrupts.lane_address(Interrupt::I1, Lane::Pending), 0x81);
    assert!(!interrupts.is_enabled(&window, Interrupt::I1));
    assert!(!interrupts.is_pending(&window, Interrupt::I1));
}

#[test]
fn window_of_minimal_size_reaches_the_highest_source() {
    let len = 4 * Interrupt::MAX_INTERRUPT_NUMBER as usize + 4;
    let mut window = RegisterWindow::new(0x4000, len);
    let interrupts = INTERRUPTS::new(0x4000);
    assert_eq!(window.len(), 20);
    interrupts.set_priority(&mut window, Interrupt::I4, Priority::L3);
    interrupts.enable(&mut window, Interrupt::I4);
    interrupts.pend(&mut window, Interrupt::I4);
    assert_eq!(window.read(0x4000 + len - 1), 3);
    assert!(interrupts.is_enabled(&window, Interrupt::I4));
    assert!(interrupts.is_pending(&window, Interrupt::I4));
}

#[test]
fn empty_window_holds_no_bytes() {
    let window = RegisterWindow::new(0x10, 0);
    assert_eq!(window.len(), 0);
    assert_eq!(window.base(), 0x10);
}

#[test]
fn threshold_passes_through() {
    let mut state = ControllerState {
        interrupts_enabled: false,
        threshold: 0,
        registers: RegisterWindow::new(0x1000 + INTERRUPTS_OFFSET, 32 * 4),
    };
    for thresh in [0usize, 1, 7, 255, usize::MAX] {
        CLIC::<Platform>::set_threshold(&mut state, thresh);
        assert_eq!(CLIC::<Platform>::get_threshold(&state), thresh);
    }
}

#[test]
fn global_gate_leaves_registers() {
    let interrupts = CLIC::<Platform>::interrupts();
    let mut state = ControllerState {
        interrupts_enabled: false,
        threshold: 2,
        registers: RegisterWindow::new(interrupts.address(), 32 * 4),
    };
    interrupts.enable(&mut state.registers, Interrupt::I1);
    interrupts.pend(&mut state.registers, Interrupt::I3);
    interrupts.set_priority(&mut state.registers, Interrupt::I3, Priority::L2);
    let before = window_bytes(&state.registers);

    CLIC::<Platform>::enable(&mut state);
    assert!(state.interrupts_enabled);
    assert_eq!(window_bytes(&state.registers), before);
    assert_eq!(state.threshold, 2);

    CLIC::<Platform>::disable(&mut state);
    assert!(!state.interrupts_enabled);
    assert_eq!(window_bytes(&state.registers), before);
    assert_eq!(state.threshold, 2);
}
