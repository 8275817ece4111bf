use raspi_drivers::arm_timer::ArmTimer;
use raspi_drivers::board::{
    board_table, enable_lines, main_task, poll_events, setup_irq_handlers, start_devices,
    BoardDevice, MainTaskContext,
};
use raspi_drivers::dmac::DMAC4;
use raspi_drivers::exception::{
    handle_exception, irq_handler, ConsoleItem, ConsoleLog, ExceptionClass, ExceptionContext,
    ExceptionOrigin, ExceptionState, InterruptDevice, IrqOutcome,
};
use raspi_drivers::int_device::Device;
use raspi_drivers::interrupt::Interrupt;
use raspi_drivers::interrupt_gic::Gic;
use raspi_drivers::interrupt_legacy::InterruptLegacy;
use raspi_drivers::raspi_bsp::{RasPiBsp, Soc};
use raspi_drivers::timer::TIMER;

fn text(s: &str) -> ConsoleItem {
    ConsoleItem::Text(s.to_string())
}

fn context() -> ExceptionContext {
    ExceptionContext { gpr: [0; 30], lr: 0, elr_el1: 0x8_0000, spsr_el1: 0 }
}

#[test]
fn peripheral_bases() {
    assert_eq!(RasPiBsp::mmio_base(Soc::Bcm2711), 0xfe00_0000);
    assert_eq!(RasPiBsp::mmio_base2(Soc::Bcm2711), Some(0xff80_0000));
    assert_eq!(RasPiBsp::mmio_base(Soc::Bcm2837), 0x3f00_0000);
    assert_eq!(RasPiBsp::mmio_base2(Soc::Bcm2837), None);
}

#[test]
fn board_table_holds_the_three_registrations() {
    let t = board_table();
    assert_eq!(t.devices.len(), 3);
    assert_eq!(t.devices[0].device.get(), Some(0));
    assert_eq!(
        t.devices[0].int_no,
        vec![Device::Timer0, Device::Timer1, Device::Timer2, Device::Timer3]
    );
    assert_eq!(t.devices[1].device.get(), Some(1));
    assert_eq!(t.devices[1].int_no, vec![Device::ArmTimer]);
    assert_eq!(t.devices[2].device.get(), Some(2));
    assert_eq!(t.devices[2].int_no, vec![Device::Dma]);
}

#[test]
fn setup_installs_everything_once() {
    let mut state: ExceptionState<Gic, ConsoleLog> = ExceptionState::new();
    let r = setup_irq_handlers(&mut state, ConsoleLog::new(), Gic::new());
    assert_eq!(r, (true, true));
    assert_eq!(state.get_irq_handlers().unwrap().devices.len(), 3);
    assert!(state.get_int_controller().is_some());
    assert_eq!(
        state.get_debug_context().unwrap().callback.as_ref().unwrap().items,
        vec![
            text("Successfully registerd handlers!\n"),
            text("Successfully registerd int controller!\n"),
        ]
    );
    let mut other = Gic::new();
    other.supported_lines = 9;
    let r = setup_irq_handlers(&mut state, ConsoleLog::new(), other);
    assert_eq!(r, (false, false));
    assert_eq!(state.get_int_controller().unwrap().supported_lines, 0);
    assert_eq!(
        state.get_debug_context().unwrap().callback.as_ref().unwrap().items,
        vec![
            text("Successfully registerd handlers!\n"),
            text("Successfully registerd int controller!\n"),
            text("Something wrong in handler registeration\n"),
            text("Something wrong in intc registeration\n"),
        ]
    );
}

#[test]
fn poll_takes_the_three_flags() {
    let mut timer = TIMER::new();
    let mut arm_timer = ArmTimer::new();
    let mut dma = DMAC4::new();
    let none = poll_events(&mut timer, &mut arm_timer, &mut dma);
    assert_eq!(none, MainTaskContext { timer_fired: false, arm_timer_fired: false, dma_fired: false });
    timer.regs.CS = 0b0011;
    timer.on_interruption(1);
    arm_timer.on_interruption(0);
    dma.regs.INT_STATUS = 1;
    dma.on_interruption(16);
    let all = poll_events(&mut timer, &mut arm_timer, &mut dma);
    assert_eq!(all, MainTaskContext { timer_fired: true, arm_timer_fired: true, dma_fired: true });
    let again = poll_events(&mut timer, &mut arm_timer, &mut dma);
    assert_eq!(again, none);
    assert!(timer.occurred(0));
}

#[test]
fn main_task_sets_the_next_match() {
    let mut timer = TIMER::new();
    let mut dma = DMAC4::new();
    let mut uart = ConsoleLog::new();
    timer.regs.CLO = 1000;
    let found = MainTaskContext { timer_fired: true, arm_timer_fired: false, dma_fired: false };
    assert!(main_task(found, &mut timer, &mut dma, &mut uart, 0x100).is_none());
    assert_eq!(timer.regs.C1, 2_001_000);
    assert_eq!(dma.regs.Channels[0].CS, 0);
    assert_eq!(uart.items, vec![text("[main] Timer fired ch1\n")]);
}

#[test]
fn main_task_next_match_wraps_with_the_counter() {
    let mut timer = TIMER::new();
    let mut dma = DMAC4::new();
    let mut uart = ConsoleLog::new();
    timer.regs.CLO = 0xffff_ffff;
    let found = MainTaskContext { timer_fired: true, arm_timer_fired: false, dma_fired: false };
    main_task(found, &mut timer, &mut dma, &mut uart, 0x100);
    assert_eq!(timer.regs.C1, 1_999_999);
}

#[test]
fn main_task_starts_the_transfer_again() {
    let mut timer = TIMER::new();
    let mut dma = DMAC4::new();
    let mut uart = ConsoleLog::new();
    dma.regs.ENABLE = 0xff;
    let found = MainTaskContext { timer_fired: false, arm_timer_fired: true, dma_fired: true };
    let cb = main_task(found, &mut timer, &mut dma, &mut uart, 0x4000).unwrap();
    assert_eq!(cb.TI, 0x110);
    assert_eq!(cb.source_address, 0x200_0000);
    assert_eq!(cb.destination_address, 0x800_0000);
    assert_eq!(cb.transfer_length, 0x600_0000);
    assert_eq!(dma.regs.ENABLE, 1);
    assert_eq!(dma.regs.Channels[0].CONBLK_AD, 0x4000);
    assert_eq!(dma.regs.Channels[0].CS, 1);
    assert_eq!(timer.regs.C1, 0);
    assert_eq!(
        uart.items,
        vec![text("[main] Arm timer fired\n"), text("[main] DMA trans done. Kick again.\n")]
    );
}

#[test]
fn main_task_with_nothing_found_does_nothing() {
    let mut timer = TIMER::new();
    let mut dma = DMAC4::new();
    let mut uart = ConsoleLog::new();
    let found = MainTaskContext { timer_fired: false, arm_timer_fired: false, dma_fired: false };
    assert!(main_task(found, &mut timer, &mut dma, &mut uart, 0).is_none());
    assert!(uart.items.is_empty());
    assert_eq!(timer.regs.C1, 0);
    assert_eq!(dma.regs.ENABLE, 0);
}

#[test]
fn start_devices_programs_all_three() {
    let mut timer = TIMER::new();
    let mut arm_timer = ArmTimer::new();
    let mut dma = DMAC4::new();
    timer.regs.CLO = 5;
    dma.regs.ENABLE = 0x100;
    let cb = start_devices(&mut timer, &mut arm_timer, &mut dma, 0x8000);
    assert_eq!(timer.regs.C1, 200_005);
    assert_eq!(arm_timer.regs.CONTROL, 0x2a2);
    assert_eq!(arm_timer.regs.LOAD, 10_000_000);
    assert_eq!(dma.regs.ENABLE, 0x101);
    assert_eq!(dma.regs.Channels[0].CONBLK_AD, 0x8000);
    assert_eq!(dma.regs.Channels[0].CS, 1);
    assert_eq!(cb.TI, 0x110);
    assert_eq!(cb.transfer_length, 0x600_0000);
}

#[test]
fn board_device_hands_the_line_to_its_driver() {
    let mut t = TIMER::new();
    t.regs.CS = 0b10;
    let mut devices = vec![
        BoardDevice::Timer(t),
        BoardDevice::ArmTimer(ArmTimer::new()),
        BoardDevice::Dma(DMAC4::new()),
    ];
    devices[0].on_fire(1);
    devices[1].on_fire(0);
    match &mut devices[0] {
        BoardDevice::Timer(t) => {
            assert_eq!(t.regs.CS, 0);
            assert!(t.occurred(1));
        }
        _ => panic!("the system timer stands first"),
    }
    match &mut devices[1] {
        BoardDevice::ArmTimer(t) => assert!(t.has_fired()),
        _ => panic!("the ARM timer stands second"),
    }
}

#[test]
fn arm_timer_end_to_end_on_the_legacy_controller() {
    let mut intc = InterruptLegacy::new();
    assert!(intc.enable_int(Device::ArmTimer));
    assert_eq!(intc.regs.ENABLE_BASIC_IRQ, 1);
    let mut state: ExceptionState<InterruptLegacy, ConsoleLog> = ExceptionState::new();
    assert_eq!(setup_irq_handlers(&mut state, ConsoleLog::new(), intc), (true, true));
    let mut arm_timer = ArmTimer::new();
    arm_timer.enable();
    arm_timer.enable_int();
    arm_timer.set_count_down(1_000_000);
    assert_eq!(arm_timer.regs.LOAD, 1_000_000);
    let mut devices = vec![
        BoardDevice::Timer(TIMER::new()),
        BoardDevice::ArmTimer(arm_timer),
        BoardDevice::Dma(DMAC4::new()),
    ];

    // The count-down reaches zero: the timer raises its line.
    if let BoardDevice::ArmTimer(t) = &mut devices[1] {
        t.regs.VALUE = 0;
        t.regs.RAW_IRQ = 1;
        t.regs.MASKED_IRQ = 1;
    }
    state.int_controller_mut().regs.BASIC_PENDING = 1;

    let r = irq_handler(&mut state, &mut devices);
    assert_eq!(r, IrqOutcome::Serviced { dev: Device::ArmTimer, id: 0, handled: true });
    if let BoardDevice::ArmTimer(t) = &devices[1] {
        assert_eq!(t.regs.IRQ_CLEAR, 1);
    }

    // The clear has reached the timer: the line is down again.
    state.int_controller_mut().regs.BASIC_PENDING = 0;
    assert_eq!(irq_handler(&mut state, &mut devices), IrqOutcome::NoMorePending);

    match &mut devices[1] {
        BoardDevice::ArmTimer(t) => {
            assert!(t.has_fired());
            assert!(!t.has_fired());
            assert!(!t.has_fired());
        }
        _ => panic!("the ARM timer stands second"),
    }
}

#[test]
fn arm_timer_end_to_end_on_the_gic() {
    let mut gic = Gic::new();
    gic.regs.GICD.TYPER = 7;
    gic.init();
    assert_eq!(enable_lines(&mut gic), (true, true, true));
    let mut state: ExceptionState<Gic, ConsoleLog> = ExceptionState::new();
    assert_eq!(setup_irq_handlers(&mut state, ConsoleLog::new(), gic), (true, true));
    let mut arm_timer = ArmTimer::new();
    arm_timer.enable();
    arm_timer.enable_int();
    arm_timer.set_count_down(1_000_000);
    let mut devices = vec![
        BoardDevice::Timer(TIMER::new()),
        BoardDevice::ArmTimer(arm_timer),
        BoardDevice::Dma(DMAC4::new()),
    ];

    // The count-down reaches zero: the controller acknowledges the timer's line.
    if let BoardDevice::ArmTimer(t) = &mut devices[1] {
        t.regs.VALUE = 0;
        t.regs.RAW_IRQ = 1;
        t.regs.MASKED_IRQ = 1;
    }
    state.int_controller_mut().regs.GICC.IAR = 64;
    let r = handle_exception(
        &mut state,
        &mut devices,
        ExceptionOrigin::CurrentElx,
        ExceptionClass::Irq,
        &context(),
    );
    assert_eq!(r, Some(IrqOutcome::Serviced { dev: Device::ArmTimer, id: 64, handled: true }));
    assert_eq!(state.get_int_controller().unwrap().regs.GICC.EOIR, 64);
    if let BoardDevice::ArmTimer(t) = &devices[1] {
        assert_eq!(t.regs.IRQ_CLEAR, 1);
    }
    state.int_controller_mut().regs.GICC.IAR = 1023;
    assert_eq!(irq_handler(&mut state, &mut devices), IrqOutcome::NoMorePending);
    match &mut devices[1] {
        BoardDevice::ArmTimer(t) => {
            assert!(t.has_fired());
            assert!(!t.has_fired());
        }
        _ => panic!("the ARM timer stands second"),
    }
}

#[test]
fn lines_are_enabled_and_routed_on_the_gic() {
    let mut gic = Gic::new();
    gic.supported_lines = 7;
    assert_eq!(enable_lines(&mut gic), (true, true, true));
    assert_eq!(gic.regs.GICD.ISENABLER, [0, 0, 1, 0x1_0002, 0, 0, 0, 0]);
    assert_eq!(gic.regs.GICD.ITARGETSR[24], 0x100);
    assert_eq!(gic.regs.GICD.ITARGETSR[16], 1);
    assert_eq!(gic.regs.GICD.ITARGETSR[28], 1);
    assert_eq!(gic.regs.GICD.CTLR, 3);
    let mut small = Gic::new();
    small.supported_lines = 6;
    assert_eq!(enable_lines(&mut small), (false, true, false));
    assert_eq!(small.regs.GICD.ISENABLER, [0, 0, 1, 0, 0, 0, 0, 0]);
}

#[test]
fn lines_are_enabled_on_the_legacy_controller() {
    let mut intc = InterruptLegacy::new();
    assert_eq!(enable_lines(&mut intc), (true, true, true));
    assert_eq!(intc.regs.ENABLE_IRQ, [0x1_0002, 0]);
    assert_eq!(intc.regs.ENABLE_BASIC_IRQ, 1);
}

#[test]
fn system_timer_end_to_end_on_the_gic() {
    let mut gic = Gic::new();
    gic.regs.GICD.TYPER = 7;
    gic.init();
    assert!(gic.enable_int(Device::Timer1));
    gic.set_target_cpu(Device::Timer1, 0);
    gic.enable_distribution();
    let mut state: ExceptionState<Gic, ConsoleLog> = ExceptionState::new();
    assert_eq!(setup_irq_handlers(&mut state, ConsoleLog::new(), gic), (true, true));
    let mut devices = vec![
        BoardDevice::Timer(TIMER::new()),
        BoardDevice::ArmTimer(ArmTimer::new()),
        BoardDevice::Dma(DMAC4::new()),
    ];
    if let BoardDevice::Timer(t) = &mut devices[0] {
        t.regs.CS = 0b0010;
    }
    state.int_controller_mut().regs.GICC.IAR = 97;
    let r = irq_handler(&mut state, &mut devices);
    assert_eq!(r, IrqOutcome::Serviced { dev: Device::Timer1, id: 97, handled: true });
    assert_eq!(state.get_int_controller().unwrap().regs.GICC.EOIR, 97);
    match &mut devices[0] {
        BoardDevice::Timer(t) => {
            assert_eq!(t.regs.CS, 0);
            assert!(t.occurred(1));
            assert!(!t.occurred(1));
        }
        _ => panic!("the system timer stands first"),
    }
}
