use raspi_drivers::arm_timer::ArmTimer;
use raspi_drivers::exception::{
    default_exception_handler, dispatch, handle_exception, irq_entry, irq_handler, route,
    set_debug_context,
    set_int_controller, set_irq_handlers2, ConsoleItem, ConsoleLog, ConsoleOut, DebugContext,
    ExceptionClass, ExceptionContext, ExceptionOrigin, ExceptionState, Handler, InterruptDevice,
    IrqHandler, IrqHandlersSettings, IrqOutcome, SerialConsole, SerialSink,
};
use raspi_drivers::int_device::Device;
use raspi_drivers::interrupt_gic::Gic;
use raspi_drivers::interrupt_legacy::InterruptLegacy;
use raspi_drivers::optional_cell::OptionalCell;
use std::cell::RefCell;
use std::rc::Rc;

fn context(lr: u64, elr: u64) -> ExceptionContext {
    ExceptionContext { gpr: [0; 30], lr, elr_el1: elr, spsr_el1: 0 }
}

fn text(s: &str) -> ConsoleItem {
    ConsoleItem::Text(s.to_string())
}

fn table(entries: Vec<(Option<usize>, Vec<Device>)>) -> IrqHandlersSettings {
    let mut handlers = Vec::new();
    for (device, int_no) in entries {
        let cell = match device {
            Some(d) => OptionalCell::new(d),
            None => OptionalCell::empty(),
        };
        handlers.push(IrqHandler::new(cell, int_no));
    }
    IrqHandlersSettings::new(handlers)
}

fn items<I>(state: &ExceptionState<I, ConsoleLog>) -> Vec<ConsoleItem> {
    state.get_debug_context().unwrap().callback.as_ref().unwrap().items.clone()
}

struct Recorder {
    name: usize,
    log: Rc<RefCell<Vec<(usize, u32)>>>,
}

impl InterruptDevice for Recorder {
    fn after_fire(self, id: u32) -> Self {
        self.log.borrow_mut().push((self.name, id));
        self
    }

    fn on_fire(&mut self, id: u32) {
        self.log.borrow_mut().push((self.name, id));
    }
}

#[test]
fn only_current_level_interrupts_reach_the_interrupt_handler() {
    let origins = [
        ExceptionOrigin::CurrentEl0,
        ExceptionOrigin::CurrentElx,
        ExceptionOrigin::LowerAarch64,
        ExceptionOrigin::LowerAarch32,
    ];
    let classes = [
        ExceptionClass::Synchronous,
        ExceptionClass::Irq,
        ExceptionClass::Fiq,
        ExceptionClass::SError,
    ];
    let mut entries = 0;
    for origin in origins {
        for class in classes {
            entries += 1;
            let current =
                origin == ExceptionOrigin::CurrentEl0 || origin == ExceptionOrigin::CurrentElx;
            let expected = if class == ExceptionClass::Irq && current {
                Handler::Irq
            } else {
                Handler::Default
            };
            assert_eq!(route(origin, class), expected);
        }
    }
    assert_eq!(entries, 16);
}

#[test]
fn console_log_keeps_what_it_is_given() {
    let mut log = ConsoleLog::new();
    log.puts("abc");
    log.hex(0x10);
    assert_eq!(log.items, vec![text("abc"), ConsoleItem::Hex(0x10)]);
}

#[test]
fn debug_context_tags_its_texts() {
    let mut ctx = DebugContext::new(OptionalCell::new(ConsoleLog::new()));
    ctx.puts("hello");
    ctx.hex(7);
    ctx.hexln(8);
    assert_eq!(
        ctx.callback.as_ref().unwrap().items,
        vec![
            text("[Exception] hello"),
            ConsoleItem::Hex(7),
            ConsoleItem::Hex(8),
            text("\n"),
        ]
    );
}

#[test]
fn empty_debug_context_reports_nothing() {
    let mut ctx: DebugContext<ConsoleLog> = DebugContext::new(OptionalCell::empty());
    ctx.puts("hello");
    ctx.hexln(8);
    assert!(ctx.callback.is_none());
}

#[test]
fn default_handler_reports_the_link_register() {
    let mut ctx = DebugContext::new(OptionalCell::new(ConsoleLog::new()));
    default_exception_handler(&mut ctx, &context(0x1_2345_6789, 0x8_0000));
    assert_eq!(
        ctx.callback.as_ref().unwrap().items,
        vec![
            text("[Exception] At exception handler from 0x"),
            ConsoleItem::Hex(0x2345_6789),
            text("\n"),
        ]
    );
}

#[test]
fn first_installation_succeeds_and_second_fails() {
    let mut state: ExceptionState<Gic, ConsoleLog> = ExceptionState::new();
    assert!(state.get_irq_handlers().is_none());
    assert!(set_irq_handlers2(&mut state, table(vec![(Some(3), vec![Device::Dma])])));
    assert!(!set_irq_handlers2(&mut state, table(vec![(Some(4), vec![Device::ArmTimer])])));
    let installed = state.get_irq_handlers().unwrap();
    assert_eq!(installed.devices.len(), 1);
    assert_eq!(installed.devices[0].device.get(), Some(3));
    assert_eq!(installed.devices[0].int_no, vec![Device::Dma]);
}

#[test]
fn console_and_controller_are_installed_once() {
    let mut state: ExceptionState<Gic, ConsoleLog> = ExceptionState::new();
    let mut first = ConsoleLog::new();
    first.puts("first");
    assert!(set_debug_context(&mut state, DebugContext::new(OptionalCell::new(first))));
    assert!(!set_debug_context(&mut state, DebugContext::new(OptionalCell::new(ConsoleLog::new()))));
    assert_eq!(items(&state), vec![text("first")]);
    let mut gic = Gic::new();
    gic.supported_lines = 7;
    assert!(set_int_controller(&mut state, gic));
    assert!(!set_int_controller(&mut state, Gic::new()));
    assert_eq!(state.get_int_controller().unwrap().supported_lines, 7);
}

#[test]
fn claims_looks_through_the_sources() {
    let h = IrqHandler::new(OptionalCell::new(0), vec![Device::Timer0, Device::Timer3]);
    assert!(h.claims(Device::Timer0));
    assert!(h.claims(Device::Timer3));
    assert!(!h.claims(Device::Timer1));
    let none = IrqHandler::new(OptionalCell::new(0), Vec::new());
    assert!(!none.claims(Device::Timer0));
}

#[test]
fn dispatch_calls_every_registration_in_order() {
    let log = Rc::new(RefCell::new(Vec::new()));
    let mut devices = vec![
        Recorder { name: 10, log: log.clone() },
        Recorder { name: 11, log: log.clone() },
        Recorder { name: 12, log: log.clone() },
    ];
    let handlers = table(vec![
        (Some(2), vec![Device::Dma]),
        (Some(1), vec![Device::ArmTimer]),
        (Some(0), vec![Device::Timer1, Device::Dma]),
    ]);
    assert!(dispatch(&handlers, Device::Dma, 112, &mut devices));
    assert_eq!(*log.borrow(), vec![(12, 112), (10, 112)]);
}

#[test]
fn dispatch_to_one_device_registered_twice() {
    let log = Rc::new(RefCell::new(Vec::new()));
    let mut devices = vec![Recorder { name: 5, log: log.clone() }];
    let handlers = table(vec![(Some(0), vec![Device::Dma]), (Some(0), vec![Device::Dma])]);
    assert!(dispatch(&handlers, Device::Dma, 1, &mut devices));
    assert_eq!(*log.borrow(), vec![(5, 1), (5, 1)]);
}

#[test]
fn dispatch_without_registration_is_not_handled() {
    let log = Rc::new(RefCell::new(Vec::new()));
    let mut devices = vec![Recorder { name: 5, log: log.clone() }];
    let handlers = table(vec![(Some(0), vec![Device::Dma])]);
    assert!(!dispatch(&handlers, Device::Timer1, 1, &mut devices));
    assert!(log.borrow().is_empty());
}

#[test]
fn dispatch_passes_over_empty_and_stray_handles() {
    let log = Rc::new(RefCell::new(Vec::new()));
    let mut devices = vec![Recorder { name: 5, log: log.clone() }];
    let handlers = table(vec![
        (None, vec![Device::Dma]),
        (Some(9), vec![Device::Dma]),
        (Some(0), vec![Device::Dma]),
    ]);
    assert!(dispatch(&handlers, Device::Dma, 3, &mut devices));
    assert_eq!(*log.borrow(), vec![(5, 3)]);
}

fn gic_state(iar: u32, handlers: IrqHandlersSettings) -> ExceptionState<Gic, ConsoleLog> {
    let mut state = ExceptionState::new();
    let mut gic = Gic::new();
    gic.regs.GICC.IAR = iar;
    assert!(set_int_controller(&mut state, gic));
    assert!(set_debug_context(&mut state, DebugContext::new(OptionalCell::new(ConsoleLog::new()))));
    assert!(set_irq_handlers2(&mut state, handlers));
    state
}

#[test]
fn round_serves_the_pending_source_and_ends_the_interrupt() {
    let log = Rc::new(RefCell::new(Vec::new()));
    let mut devices =
        vec![Recorder { name: 0, log: log.clone() }, Recorder { name: 1, log: log.clone() }];
    let mut state = gic_state(
        112,
        table(vec![(Some(0), vec![Device::Dma]), (Some(1), vec![Device::Dma])]),
    );
    let r = irq_handler(&mut state, &mut devices);
    assert_eq!(r, IrqOutcome::Serviced { dev: Device::Dma, id: 112, handled: true });
    assert_eq!(*log.borrow(), vec![(0, 112), (1, 112)]);
    assert_eq!(state.get_int_controller().unwrap().regs.GICC.EOIR, 112);
    assert_eq!(
        items(&state),
        vec![text("[Exception] Found pending id on GIC ")]
    );
}

#[test]
fn round_reports_a_source_without_registration() {
    let log = Rc::new(RefCell::new(Vec::new()));
    let mut devices = vec![Recorder { name: 0, log: log.clone() }];
    let mut state = gic_state(97, table(vec![(Some(0), vec![Device::Dma])]));
    let r = irq_handler(&mut state, &mut devices);
    assert_eq!(r, IrqOutcome::Serviced { dev: Device::Timer1, id: 97, handled: false });
    assert!(log.borrow().is_empty());
    assert_eq!(state.get_int_controller().unwrap().regs.GICC.EOIR, 97);
    assert_eq!(
        items(&state),
        vec![
            text("[Exception] Found pending id on GIC "),
            text("[Exception] Unhandled exception "),
            ConsoleItem::Hex(97),
            text("\n"),
        ]
    );
}

#[test]
fn round_with_nothing_pending_changes_nothing() {
    let log = Rc::new(RefCell::new(Vec::new()));
    let mut devices = vec![Recorder { name: 0, log: log.clone() }];
    let mut state = gic_state(1023, table(vec![(Some(0), vec![Device::Dma])]));
    let r = irq_handler(&mut state, &mut devices);
    assert_eq!(r, IrqOutcome::NoMorePending);
    assert!(log.borrow().is_empty());
    assert_eq!(state.get_int_controller().unwrap().regs.GICC.EOIR, 0);
    assert_eq!(
        items(&state),
        vec![text("[Exception] No more pending id.\n")]
    );
}

#[test]
fn rounds_drain_what_the_controller_acknowledges() {
    let log = Rc::new(RefCell::new(Vec::new()));
    let mut devices =
        vec![Recorder { name: 0, log: log.clone() }, Recorder { name: 1, log: log.clone() }];
    let mut state = gic_state(
        1023,
        table(vec![(Some(0), vec![Device::ArmTimer]), (Some(1), vec![Device::Dma, Device::Timer1])]),
    );
    let mut asserted = vec![64, 97, 112];
    let mut rounds = 0;
    loop {
        state.int_controller_mut().regs.GICC.IAR =
            if asserted.is_empty() { 1023 } else { asserted.remove(0) };
        rounds += 1;
        if irq_handler(&mut state, &mut devices) == IrqOutcome::NoMorePending {
            break;
        }
    }
    assert_eq!(rounds, 4);
    assert_eq!(*log.borrow(), vec![(0, 64), (1, 97), (1, 112)]);
}

#[test]
fn legacy_round_reports_the_gpu_line_first() {
    let mut state: ExceptionState<InterruptLegacy, ConsoleLog> = ExceptionState::new();
    let mut intc = InterruptLegacy::new();
    intc.regs.BASIC_PENDING = 1 << 8;
    intc.regs.IRQ_PENDING = [1 << 1, 0];
    assert!(set_int_controller(&mut state, intc));
    assert!(set_debug_context(&mut state, DebugContext::new(OptionalCell::new(ConsoleLog::new()))));
    assert!(set_irq_handlers2(&mut state, table(vec![(Some(0), vec![Device::Timer1])])));
    let log = Rc::new(RefCell::new(Vec::new()));
    let mut devices = vec![Recorder { name: 0, log: log.clone() }];
    let r = irq_handler(&mut state, &mut devices);
    assert_eq!(r, IrqOutcome::Serviced { dev: Device::Timer1, id: 1, handled: true });
    assert_eq!(*log.borrow(), vec![(0, 1)]);
}

#[test]
fn exceptions_that_are_no_interrupt_are_reported() {
    let mut state = gic_state(112, table(vec![(Some(0), vec![Device::Dma])]));
    let mut devices = vec![ArmTimer::new()];
    let r = handle_exception(
        &mut state,
        &mut devices,
        ExceptionOrigin::CurrentElx,
        ExceptionClass::Synchronous,
        &context(0xabc, 0),
    );
    assert_eq!(r, None);
    assert_eq!(
        items(&state),
        vec![
            text("[Exception] At exception handler from 0x"),
            ConsoleItem::Hex(0xabc),
            text("\n"),
        ]
    );
    let r = handle_exception(
        &mut state,
        &mut devices,
        ExceptionOrigin::LowerAarch64,
        ExceptionClass::Irq,
        &context(0xdef, 0),
    );
    assert_eq!(r, None);
    assert_eq!(state.get_int_controller().unwrap().regs.GICC.EOIR, 0);
}

#[test]
fn interrupts_at_the_current_level_are_served() {
    let mut state = gic_state(64, table(vec![(Some(0), vec![Device::ArmTimer])]));
    let mut devices = vec![ArmTimer::new()];
    let r = handle_exception(
        &mut state,
        &mut devices,
        ExceptionOrigin::CurrentElx,
        ExceptionClass::Irq,
        &context(0, 0),
    );
    assert_eq!(r, Some(IrqOutcome::Serviced { dev: Device::ArmTimer, id: 64, handled: true }));
    assert_eq!(state.get_int_controller().unwrap().regs.GICC.EOIR, 64);
    assert_eq!(devices[0].regs.IRQ_CLEAR, 1);
    assert!(devices[0].has_fired());
    assert!(!devices[0].has_fired());
}

#[test]
fn entry_is_reported_once_for_an_exception() {
    let mut state = gic_state(64, table(vec![(Some(0), vec![Device::ArmTimer])]));
    let mut devices = vec![ArmTimer::new()];
    let first = handle_exception(
        &mut state,
        &mut devices,
        ExceptionOrigin::CurrentEl0,
        ExceptionClass::Irq,
        &context(0, 0x8_1234),
    );
    assert!(first.is_some());
    state.int_controller_mut().regs.GICC.IAR = 1023;
    assert_eq!(irq_handler(&mut state, &mut devices), IrqOutcome::NoMorePending);
    assert_eq!(
        items(&state),
        vec![
            text("[Exception] IRQ handler from 0x"),
            ConsoleItem::Hex(0x8_1234),
            text("\n"),
            text("[Exception] Found pending id on GIC "),
            text("[Exception] No more pending id.\n"),
        ]
    );
}

#[test]
fn entry_report_names_the_interrupted_address() {
    let mut ctx = DebugContext::new(OptionalCell::new(ConsoleLog::new()));
    irq_entry(&mut ctx, &context(0, 0xffff_0000_0008_0abc));
    assert_eq!(
        ctx.callback.as_ref().unwrap().items,
        vec![text("[Exception] IRQ handler from 0x"), ConsoleItem::Hex(0x0008_0abc), text("\n")]
    );
}

#[test]
fn round_ends_an_unwired_line_by_its_own_number() {
    let log = Rc::new(RefCell::new(Vec::new()));
    let mut devices = vec![Recorder { name: 0, log: log.clone() }];
    let mut state = gic_state(5, table(vec![(Some(0), vec![Device::Dma])]));
    let r = irq_handler(&mut state, &mut devices);
    assert_eq!(r, IrqOutcome::Serviced { dev: Device::Invalid, id: 0, handled: false });
    assert!(log.borrow().is_empty());
    assert_eq!(state.get_int_controller().unwrap().regs.GICC.EOIR, 5);
}

struct Line {
    sent: Vec<ConsoleItem>,
}

impl SerialSink for Line {
    fn send_text(&mut self, s: &str) {
        self.sent.push(text(s));
    }

    fn send_hex(&mut self, h: u32) {
        self.sent.push(ConsoleItem::Hex(h));
    }
}

#[test]
fn serial_console_hands_everything_on_at_once() {
    let mut ctx = DebugContext::new(OptionalCell::new(SerialConsole::new(Line { sent: Vec::new() })));
    ctx.puts("x");
    ctx.hexln(3);
    assert_eq!(
        ctx.callback.as_ref().unwrap().sink.sent,
        vec![text("[Exception] x"), ConsoleItem::Hex(3), text("\n")]
    );
}
