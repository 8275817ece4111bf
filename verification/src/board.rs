//! The board as a whole: its three interrupt devices in one table, their
//! registration, their first programming and the task of the main loop.

use crate::arm_timer::ArmTimer;
use crate::dmac::{ControlBlock4, DmaChannelRegister, DMAC4};
use crate::exception::{
    set_debug_context, set_int_controller, set_irq_handlers2, spec_install, ConsoleEntry,
    ConsoleOut, DebugContext, ExceptionState, InterruptDevice, IrqHandler, IrqHandlersSettings,
};
use crate::int_device::Device;
use crate::interrupt::Interrupt;
use crate::optional_cell::OptionalCell;
use crate::timer::TIMER;
use vstd::prelude::*;

verus! {

broadcast use OptionalCell::lemma_spec_from;

/// Place of the system timer in the table of devices.
pub const TIMER_HANDLE: usize = 0;

/// Place of the ARM timer in the table of devices.
pub const ARM_TIMER_HANDLE: usize = 1;

/// Place of the DMA controller in the table of devices.
pub const DMA_HANDLE: usize = 2;

/// The channel of the system timer that the main loop works with.
pub const TIMER_CHANNEL: u32 = 1;

/// The channel of the DMA controller that the main loop works with.
pub const DMA_CHANNEL: usize = 0;

/// Ticks from the start to the first match of the system timer.
pub const FIRST_DURATION: u32 = 200_000;

/// Ticks from one match of the system timer to the next.
pub const DURATION: u32 = 2_000_000;

/// Ticks that the ARM timer counts down.
pub const ARM_TIMER_COUNT_DOWN: u32 = 10_000_000;

/// Where the DMA transfer reads.
pub const DMA_SRC: u32 = 0x200_0000;

/// Where the DMA transfer writes.
pub const DMA_DEST: u32 = 0x800_0000;

/// Bytes that the DMA transfer moves.
pub const DMA_SIZE: u32 = 0x600_0000;

/// One of the board's interrupt devices.
pub enum BoardDevice {
    Timer(TIMER),
    ArmTimer(ArmTimer),
    Dma(DMAC4),
}

impl InterruptDevice for BoardDevice {
    open spec fn after_fire(self, id: u32) -> Self {
        match self {
            BoardDevice::Timer(t) => BoardDevice::Timer(t.after_fire(id)),
            BoardDevice::ArmTimer(t) => BoardDevice::ArmTimer(t.after_fire(id)),
            BoardDevice::Dma(d) => BoardDevice::Dma(d.after_fire(id)),
        }
    }

    fn on_fire(&mut self, id: u32) {
        match self {
            BoardDevice::Timer(t) => t.on_fire(id),
            BoardDevice::ArmTimer(t) => t.on_fire(id),
            BoardDevice::Dma(d) => d.on_fire(id),
        }
    }
}

/// What the main loop found when it looked at the flags.
#[derive(Clone, Copy, Debug, PartialEq, Eq, Structural)]
pub struct MainTaskContext {
    pub timer_fired: bool,
    pub arm_timer_fired: bool,
    pub dma_fired: bool,
}

/// Takes the three flags that the main loop works with. The caller keeps
/// interrupts disabled for the call.
pub fn poll_events(timer: &mut TIMER, arm_timer: &mut ArmTimer, dma: &mut DMAC4) -> (r:
    MainTaskContext)
    ensures
        r.timer_fired == (old(timer).occurred[TIMER_CHANNEL as int]@ == Some(true)),
        r.arm_timer_fired == (old(arm_timer).fired@ == Some(true)),
        r.dma_fired == (old(dma).fired[DMA_CHANNEL as int]@ == Some(true)),
        final(timer).occurred[TIMER_CHANNEL as int]@.is_none(),
        final(arm_timer).fired@.is_none(),
        final(dma).fired[DMA_CHANNEL as int]@.is_none(),
        forall|i: int|
            0 <= i < 4 && i != TIMER_CHANNEL ==> #[trigger] final(timer).occurred[i]
                == old(timer).occurred[i],
        forall|i: int|
            0 <= i < 16 && i != DMA_CHANNEL ==> #[trigger] final(dma).fired[i] == old(dma).fired[i],
        final(timer).regs == old(timer).regs,
        final(arm_timer).regs == old(arm_timer).regs,
        final(dma).regs == old(dma).regs,
{
    let timer_fired = timer.occurred(TIMER_CHANNEL as usize);
    let arm_timer_fired = arm_timer.has_fired();
    let dma_fired = dma.has_fired(DMA_CHANNEL);
    MainTaskContext { timer_fired, arm_timer_fired, dma_fired }
}

/// The compare value that lies `duration` ticks after `current`, on a
/// counter that wraps at 32 bits.
pub open spec fn spec_next_match(current: u32, duration: u32) -> u32 {
    ((current + duration) % 0x1_0000_0000) as u32
}

fn next_match(current: u32, duration: u32) -> (r: u32)
    ensures
        r == spec_next_match(current, duration),
{
    duration.wrapping_add(current)
}

/// The transfer that the board runs again and again.
pub open spec fn spec_transfer() -> ControlBlock4 {
    ControlBlock4 {
        TI: 0x110,
        source_address: DMA_SRC,
        destination_address: DMA_DEST,
        transfer_length: DMA_SIZE,
        two_d_mode_stride: 0,
        next_control_block_address: 0,
        __reserved: [0u32, 0u32],
    }
}

fn transfer() -> (r: ControlBlock4)
    ensures
        r == spec_transfer(),
{
    let cb = ControlBlock4::new(DMA_SRC, DMA_DEST, DMA_SIZE, 0);
    assert(cb.__reserved =~= [0u32, 0u32]);
    cb
}

/// The DMA registers after channel 0 has been started on the control
/// block at `cb_addr`, with `enable` in the enable register.
pub open spec fn spec_dma_started(
    before: crate::dmac::RegisterBlock,
    enable: u32,
    cb_addr: u32,
    after: crate::dmac::RegisterBlock,
) -> bool {
    &&& after.ENABLE == enable
    &&& after.INT_STATUS == before.INT_STATUS
    &&& after.Channels@ == before.Channels@.update(
        DMA_CHANNEL as int,
        (DmaChannelRegister { CS: 1, CONBLK_AD: cb_addr, ..before.Channels[DMA_CHANNEL as int] }),
    )
}

/// What the main task reports for what it found.
pub open spec fn spec_main_report(context: MainTaskContext) -> Seq<ConsoleEntry> {
    (if context.timer_fired {
        seq![ConsoleEntry::Text("[main] Timer fired ch1\n"@)]
    } else {
        Seq::empty()
    }) + (if context.arm_timer_fired {
        seq![ConsoleEntry::Text("[main] Arm timer fired\n"@)]
    } else {
        Seq::empty()
    }) + (if context.dma_fired {
        seq![ConsoleEntry::Text("[main] DMA trans done. Kick again.\n"@)]
    } else {
        Seq::empty()
    })
}

/// One turn of the main loop's work. A match of the system timer is
/// answered by setting the next match, `DURATION` ticks from now. A finished
/// DMA transfer is answered by starting the transfer again, with channel 0
/// alone enabled; the control block handed back is the one that the caller
/// puts at `cb_addr` before the registers reach the hardware. Each event is
/// reported.
pub fn main_task<C: ConsoleOut>(
    context: MainTaskContext,
    timer: &mut TIMER,
    dma: &mut DMAC4,
    uart: &mut C,
    cb_addr: u32,
) -> (r: Option<ControlBlock4>)
    ensures
        final(uart).written() == old(uart).written() + spec_main_report(context),
        final(timer).occurred == old(timer).occurred,
        context.timer_fired ==> final(timer).regs == (crate::timer::RegisterBlock {
            C1: spec_next_match(old(timer).regs.CLO, DURATION),
            ..old(timer).regs
        }),
        !context.timer_fired ==> final(timer).regs == old(timer).regs,
        final(dma).fired == old(dma).fired,
        context.dma_fired ==> r == Some(spec_transfer()) && spec_dma_started(
            old(dma).regs,
            1,
            cb_addr,
            final(dma).regs,
        ),
        !context.dma_fired ==> r.is_none() && final(dma).regs == old(dma).regs,
{
    if context.timer_fired {
        uart.puts("[main] Timer fired ch1\n");
        let current = timer.get_counter32();
        timer.set(TIMER_CHANNEL, next_match(current, DURATION));
    }
    if context.arm_timer_fired {
        uart.puts("[main] Arm timer fired\n");
    }
    let r = if context.dma_fired {
        uart.puts("[main] DMA trans done. Kick again.\n");
        let cb = transfer();
        dma.init();
        dma.turn_on(DMA_CHANNEL);
        dma.exec(DMA_CHANNEL, cb_addr);
        proof {
            crate::bitfield::lemma_bit_zero_value();
        }
        Some(cb)
    } else {
        None
    };
    assert(uart.written() =~= old(uart).written() + spec_main_report(context));
    r
}

/// Programs the three devices for the first time: the system timer
/// matches `FIRST_DURATION` ticks from now; the ARM timer runs, with its
/// free-running counter and its interrupt, and counts down from
/// `ARM_TIMER_COUNT_DOWN`; the DMA controller has channel 0 enabled and
/// started. The control block handed back is the one that the caller puts
/// at `cb_addr` before the registers reach the hardware.
pub fn start_devices(timer: &mut TIMER, arm_timer: &mut ArmTimer, dma: &mut DMAC4, cb_addr: u32) -> (r:
    ControlBlock4)
    ensures
        r == spec_transfer(),
        final(timer).occurred == old(timer).occurred,
        final(timer).regs == (crate::timer::RegisterBlock {
            C1: spec_next_match(old(timer).regs.CLO, FIRST_DURATION),
            ..old(timer).regs
        }),
        final(arm_timer).fired == old(arm_timer).fired,
        final(arm_timer).regs == (crate::arm_timer::RegisterBlock {
            CONTROL: old(arm_timer).regs.CONTROL | 0x2a2,
            LOAD: ARM_TIMER_COUNT_DOWN,
            ..old(arm_timer).regs
        }),
        final(dma).fired == old(dma).fired,
        spec_dma_started(
            old(dma).regs,
            old(dma).regs.ENABLE | (1u32 << 0),
            cb_addr,
            final(dma).regs,
        ),
{
    let current = timer.get_counter32();
    timer.set(TIMER_CHANNEL, next_match(current, FIRST_DURATION));
    arm_timer.enable();
    arm_timer.start_free_run();
    arm_timer.enable_int();
    arm_timer.set_count_down(ARM_TIMER_COUNT_DOWN);
    proof {
        lemma_control_bits(old(arm_timer).regs.CONTROL);
    }
    let cb = transfer();
    dma.turn_on(DMA_CHANNEL);
    dma.exec(DMA_CHANNEL, cb_addr);
    cb
}

/// Whether a table holds the board's three registrations: the system
/// timer for its four channels, the ARM timer and the DMA controller, each
/// pointing at its place in the table of devices.
pub open spec fn spec_is_board_table(table: IrqHandlersSettings) -> bool {
    let h = table.devices@;
    &&& h.len() == 3
    &&& h[0].device@ == Some(TIMER_HANDLE)
    &&& h[0].int_no@ == seq![Device::Timer0, Device::Timer1, Device::Timer2, Device::Timer3]
    &&& h[1].device@ == Some(ARM_TIMER_HANDLE)
    &&& h[1].int_no@ == seq![Device::ArmTimer]
    &&& h[2].device@ == Some(DMA_HANDLE)
    &&& h[2].int_no@ == seq![Device::Dma]
}

/// The board's table of registrations.
pub fn board_table() -> (r: IrqHandlersSettings)
    ensures
        spec_is_board_table(r),
{
    let mut timer_int_ids: Vec<Device> = Vec::new();
    timer_int_ids.push(Device::Timer0);
    timer_int_ids.push(Device::Timer1);
    timer_int_ids.push(Device::Timer2);
    timer_int_ids.push(Device::Timer3);
    let mut dma_int_ids: Vec<Device> = Vec::new();
    dma_int_ids.push(Device::Dma);
    let mut arm_timer_int_ids: Vec<Device> = Vec::new();
    arm_timer_int_ids.push(Device::ArmTimer);
    let mut irq_devices: Vec<IrqHandler> = Vec::new();
    irq_devices.push(IrqHandler::new(OptionalCell::new(TIMER_HANDLE), timer_int_ids));
    irq_devices.push(IrqHandler::new(OptionalCell::new(ARM_TIMER_HANDLE), arm_timer_int_ids));
    irq_devices.push(IrqHandler::new(OptionalCell::new(DMA_HANDLE), dma_int_ids));
    let r = IrqHandlersSettings::new(irq_devices);
    assert(r.devices@[0].int_no@ =~= seq![
        Device::Timer0,
        Device::Timer1,
        Device::Timer2,
        Device::Timer3,
    ]);
    assert(r.devices@[1].int_no@ =~= seq![Device::ArmTimer]);
    assert(r.devices@[2].int_no@ =~= seq![Device::Dma]);
    r
}

/// What `setup_irq_handlers` reports for how the installations went.
pub open spec fn spec_setup_report(handlers_ok: bool, intc_ok: bool) -> Seq<ConsoleEntry> {
    seq![
        ConsoleEntry::Text(
            if handlers_ok {
                "Successfully registerd handlers!\n"@
            } else {
                "Something wrong in handler registeration\n"@
            },
        ),
        ConsoleEntry::Text(
            if intc_ok {
                "Successfully registerd int controller!\n"@
            } else {
                "Something wrong in intc registeration\n"@
            },
        ),
    ]
}

/// Installs the board's table of registrations, the console and the
/// interrupt controller, each where nothing is installed yet, and reports
/// on the installed console how it went. The first answer tells whether
/// both the table and the console were installed, the second whether the
/// controller was.
pub fn setup_irq_handlers<I: Interrupt, C: ConsoleOut>(
    state: &mut ExceptionState<I, C>,
    uart: C,
    intc: I,
) -> (r: (bool, bool))
    ensures
        r.0 == (old(state).devices().is_none() && old(state).debug_context().is_none()),
        r.1 == old(state).int_controller().is_none(),
        old(state).devices().is_some() ==> final(state).devices() == old(state).devices(),
        old(state).devices().is_none() ==> final(state).devices().is_some() && spec_is_board_table(
            final(state).devices().unwrap(),
        ),
        final(state).int_controller() == spec_install(old(state).int_controller(), intc).1,
        final(state).debug_context().is_some(),
        old(state).debug_context().is_none()
            ==> final(state).debug_context().unwrap().callback@.is_some()
            && final(state).debug_context().unwrap().written() == uart.written()
            + spec_setup_report(r.0, r.1),
        old(state).debug_context().is_some() ==> final(state).debug_context().unwrap().written()
            == old(state).debug_context().unwrap().spec_written_with(spec_setup_report(r.0, r.1))
            && final(state).debug_context().unwrap().callback@.is_some()
                == old(state).debug_context().unwrap().callback@.is_some(),
{
    let handler_info = board_table();
    let register_result = set_irq_handlers2(state, handler_info);
    let debug_context = DebugContext::new(OptionalCell::new(uart));
    let register_result_uart = set_debug_context(state, debug_context);
    let register_intc = set_int_controller(state, intc);
    let ok = register_result && register_result_uart;
    let ctx = state.debug_context_mut();
    match ctx.callback.take() {
        Some(mut c) => {
            if ok {
                c.puts("Successfully registerd handlers!\n");
            } else {
                c.puts("Something wrong in handler registeration\n");
            }
            if register_intc {
                c.puts("Successfully registerd int controller!\n");
            } else {
                c.puts("Something wrong in intc registeration\n");
            }
            ctx.callback.set(c);
        },
        None => {},
    }
    proof {
        let done = state.debug_context().unwrap();
        if old(state).debug_context().is_none() {
            assert(done.written() =~= uart.written() + spec_setup_report(ok, register_intc));
        } else {
            assert(done.written() =~= old(state).debug_context().unwrap().spec_written_with(
                spec_setup_report(ok, register_intc),
            ));
        }
    }
    (ok, register_intc)
}

/// Whether `after` and the three answers are what enabling and routing the
/// board's three lines makes of the controller `before`, by way of the
/// states `a` to `f`: the lines of the system timer's channel 1, of the ARM
/// timer and of the DMA controller are enabled, in this order; each is then
/// routed to the first core; at last delivery is switched on.
pub open spec fn spec_lines_enabled<I: Interrupt>(
    before: &I,
    a: &I,
    b: &I,
    c: &I,
    d: &I,
    e: &I,
    f: &I,
    after: &I,
    r: (bool, bool, bool),
) -> bool {
    &&& before.spec_enable_int(Device::Timer1, a, r.0)
    &&& a.spec_enable_int(Device::ArmTimer, b, r.1)
    &&& b.spec_enable_int(Device::Dma, c, r.2)
    &&& c.spec_set_target_cpu(Device::Timer1, 0, d)
    &&& d.spec_set_target_cpu(Device::ArmTimer, 0, e)
    &&& e.spec_set_target_cpu(Device::Dma, 0, f)
    &&& f.spec_enable_distribution(after)
}

/// Enables the lines of the system timer's channel 1, of the ARM timer and
/// of the DMA controller, routes each to the first core and switches
/// delivery on. The answers tell, line by line, whether the source has a
/// line on this controller. It is called after the devices have been
/// registered and before the core lets interrupts in.
pub fn enable_lines<I: Interrupt>(intc: &mut I) -> (r: (bool, bool, bool))
    ensures
        exists|a: I, b: I, c: I, d: I, e: I, f: I| #[trigger]
            spec_lines_enabled(old(intc), &a, &b, &c, &d, &e, &f, final(intc), r),
{
    let timer = intc.enable_int(Device::Timer1);
    let ghost a = *intc;
    let arm_timer = intc.enable_int(Device::ArmTimer);
    let ghost b = *intc;
    let dma = intc.enable_int(Device::Dma);
    let ghost c = *intc;
    proof {
        intc.lemma_can_target_first_core();
    }
    intc.set_target_cpu(Device::Timer1, 0);
    let ghost d = *intc;
    proof {
        intc.lemma_can_target_first_core();
    }
    intc.set_target_cpu(Device::ArmTimer, 0);
    let ghost e = *intc;
    proof {
        intc.lemma_can_target_first_core();
    }
    intc.set_target_cpu(Device::Dma, 0);
    let ghost f = *intc;
    intc.enable_distribution();
    assert(spec_lines_enabled(old(intc), &a, &b, &c, &d, &e, &f, intc, (timer, arm_timer, dma)));
    (timer, arm_timer, dma)
}

/// The ARM timer knows its line under the number that either controller
/// gives it: whichever controller reports the timer, the number handed to
/// the callback makes the timer clear its interrupt and set its flag.
pub proof fn lemma_arm_timer_served_on_both_controllers(
    timer: ArmTimer,
    gic: crate::interrupt_gic::Gic,
    legacy: crate::interrupt_legacy::InterruptLegacy,
)
    ensures
        timer.after_fire(gic.spec_device_to_id(Device::ArmTimer)).regs.IRQ_CLEAR == 1,
        timer.after_fire(gic.spec_device_to_id(Device::ArmTimer)).fired@ == Some(true),
        timer.after_fire(legacy.spec_device_to_id(Device::ArmTimer)).regs.IRQ_CLEAR == 1,
        timer.after_fire(legacy.spec_device_to_id(Device::ArmTimer)).fired@ == Some(true),
{
}

proof fn lemma_control_bits(control: u32)
    by (bit_vector)
    ensures
        ((control | (1u32 << 7u32)) | 0x202) | (1u32 << 5u32) == control | 0x2a2,
{
}

} // verus!
