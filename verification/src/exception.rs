//! The exception vector's routing, the registry of interrupt devices and
//! the routine that serves a pending interrupt.

use crate::int_device::Device;
use crate::interrupt::Interrupt;
use crate::optional_cell::OptionalCell;
use vstd::prelude::*;
use vstd::string::StringExecFns;

verus! {

broadcast use OptionalCell::lemma_spec_from;

/// The registers as the vector's entry code saves them on the stack. The
/// frame lives for one exception and is handed to the handler by reference.
#[derive(Clone, Copy, Debug)]
pub struct ExceptionContext {
    /// General purpose registers x0 to x29.
    pub gpr: [u64; 30],
    /// The link register, x30.
    pub lr: u64,
    /// The program counter at the time of the exception.
    pub elr_el1: u64,
    /// The saved program status.
    pub spsr_el1: u32,
}

/// Where the processor was when the exception was taken.
#[derive(Clone, Copy, Debug, PartialEq, Eq, Structural)]
pub enum ExceptionOrigin {
    /// The current level, on the stack of the lowest level.
    CurrentEl0,
    /// The current level, on its own stack.
    CurrentElx,
    /// A lower level that runs 64-bit code.
    LowerAarch64,
    /// A lower level that runs 32-bit code.
    LowerAarch32,
}

/// What kind of exception was taken.
#[derive(Clone, Copy, Debug, PartialEq, Eq, Structural)]
pub enum ExceptionClass {
    Synchronous,
    Irq,
    Fiq,
    SError,
}

/// The routine that an entry of the vector leads to.
#[derive(Clone, Copy, Debug, PartialEq, Eq, Structural)]
pub enum Handler {
    /// Reports where the exception came from; nothing is recovered.
    Default,
    /// Serves pending interrupts.
    Irq,
}

/// The routine for an entry of the vector. Interrupts are served when they
/// arrive at the current level; every other entry reports.
pub open spec fn spec_route(origin: ExceptionOrigin, class: ExceptionClass) -> Handler {
    if class == ExceptionClass::Irq && (origin == ExceptionOrigin::CurrentEl0 || origin
        == ExceptionOrigin::CurrentElx) {
        Handler::Irq
    } else {
        Handler::Default
    }
}

pub fn route(origin: ExceptionOrigin, class: ExceptionClass) -> (r: Handler)
    ensures
        r == spec_route(origin, class),
{
    match class {
        ExceptionClass::Irq => match origin {
            ExceptionOrigin::CurrentEl0 | ExceptionOrigin::CurrentElx => Handler::Irq,
            _ => Handler::Default,
        },
        _ => Handler::Default,
    }
}

/// A peripheral that can be served when an interrupt line of its own has
/// fired.
pub trait InterruptDevice: Sized {
    /// The device once it has served line `id`: the condition that raised
    /// the line is cleared and the event is recorded.
    spec fn after_fire(self, id: u32) -> Self;

    /// Serves line `id`. The device clears what raised the line before it
    /// returns, and records the event for the main loop.
    fn on_fire(&mut self, id: u32)
        ensures
            *final(self) == old(self).after_fire(id),
    ;
}

/// One thing that a console was given: a text, or a number to show in
/// hexadecimal.
pub ghost enum ConsoleEntry {
    Text(Seq<char>),
    Hex(u32),
}

/// Where diagnostics go.
pub trait ConsoleOut {
    /// All that the console was given so far, in order.
    spec fn written(&self) -> Seq<ConsoleEntry>;

    fn puts(&mut self, s: &str)
        ensures
            final(self).written() == old(self).written().push(ConsoleEntry::Text(s@)),
    ;

    fn hex(&mut self, h: u32)
        ensures
            final(self).written() == old(self).written().push(ConsoleEntry::Hex(h)),
    ;
}

/// One thing that a `ConsoleLog` holds.
#[derive(Clone, Debug, PartialEq, Eq)]
pub enum ConsoleItem {
    Text(String),
    Hex(u32),
}

impl View for ConsoleItem {
    type V = ConsoleEntry;

    open spec fn view(&self) -> ConsoleEntry {
        match self {
            ConsoleItem::Text(s) => ConsoleEntry::Text(s@),
            ConsoleItem::Hex(h) => ConsoleEntry::Hex(*h),
        }
    }
}

/// A console that keeps what it was given, for whoever owns the serial line
/// to send.
#[derive(Debug)]
pub struct ConsoleLog {
    pub items: Vec<ConsoleItem>,
}

impl ConsoleLog {
    pub fn new() -> (r: ConsoleLog)
        ensures
            r.written() == Seq::<ConsoleEntry>::empty(),
            r.items@.len() == 0,
    {
        let r = ConsoleLog { items: Vec::new() };
        assert(r.written() =~= Seq::<ConsoleEntry>::empty());
        r
    }
}

impl ConsoleOut for ConsoleLog {
    open spec fn written(&self) -> Seq<ConsoleEntry> {
        self.items@.map_values(|i: ConsoleItem| i@)
    }

    fn puts(&mut self, s: &str) {
        self.items.push(ConsoleItem::Text(String::from_str(s)));
        assert(self.written() =~= old(self).written().push(ConsoleEntry::Text(s@)));
    }

    fn hex(&mut self, h: u32) {
        self.items.push(ConsoleItem::Hex(h));
        assert(self.written() =~= old(self).written().push(ConsoleEntry::Hex(h)));
    }
}

/// A serial line that takes texts and numbers as they come.
pub trait SerialSink {
    fn send_text(&mut self, s: &str);

    fn send_hex(&mut self, h: u32);
}

/// A console that hands what it is given to a serial line at once and keeps
/// nothing, so that reporting needs no memory of its own.
pub struct SerialConsole<S> {
    pub sink: S,
    /// All that was handed to the serial line.
    pub sent: Ghost<Seq<ConsoleEntry>>,
}

impl<S: SerialSink> SerialConsole<S> {
    pub fn new(sink: S) -> (r: SerialConsole<S>)
        ensures
            r.sink == sink,
            r.written() == Seq::<ConsoleEntry>::empty(),
    {
        SerialConsole { sink, sent: Ghost(Seq::empty()) }
    }
}

impl<S: SerialSink> ConsoleOut for SerialConsole<S> {
    open spec fn written(&self) -> Seq<ConsoleEntry> {
        self.sent@
    }

    fn puts(&mut self, s: &str) {
        self.sink.send_text(s);
        self.sent = Ghost(self.sent@.push(ConsoleEntry::Text(s@)));
    }

    fn hex(&mut self, h: u32) {
        self.sink.send_hex(h);
        self.sent = Ghost(self.sent@.push(ConsoleEntry::Hex(h)));
    }
}

/// What every text of the exception handlers starts with.
pub open spec fn spec_tag() -> Seq<char> {
    "[Exception] "@
}

/// The handle of the console that the exception handlers report to. The
/// handle may be empty; nothing is reported then.
pub struct DebugContext<C> {
    pub callback: OptionalCell<C>,
}

impl<C: ConsoleOut> DebugContext<C> {
    /// All that the console behind the handle was given so far; nothing
    /// where the handle is empty.
    pub open spec fn written(&self) -> Seq<ConsoleEntry> {
        match self.callback@ {
            Some(c) => c.written(),
            None => Seq::empty(),
        }
    }

    /// What is written with `extra` added, where there is a console.
    pub open spec fn spec_written_with(&self, extra: Seq<ConsoleEntry>) -> Seq<ConsoleEntry> {
        if self.callback@.is_some() {
            self.written() + extra
        } else {
            Seq::empty()
        }
    }

    pub fn new(callback: OptionalCell<C>) -> (r: DebugContext<C>)
        ensures
            r.callback == callback,
    {
        DebugContext { callback }
    }

    /// Reports the text `s` behind the handlers' tag.
    pub fn puts(&mut self, s: &str)
        ensures
            final(self).callback@.is_some() == old(self).callback@.is_some(),
            final(self).written() == old(self).spec_written_with(
                seq![ConsoleEntry::Text(spec_tag() + s@)],
            ),
    {
        match self.callback.take() {
            Some(mut c) => {
                let s2 = String::from_str("[Exception] ").concat(s);
                c.puts(s2.as_str());
                self.callback.set(c);
                assert(self.written() =~= old(self).spec_written_with(
                    seq![ConsoleEntry::Text(spec_tag() + s@)],
                ));
            },
            None => {},
        }
    }

    /// Reports the number `v`.
    pub fn hex(&mut self, v: u32)
        ensures
            final(self).callback@.is_some() == old(self).callback@.is_some(),
            final(self).written() == old(self).spec_written_with(seq![ConsoleEntry::Hex(v)]),
    {
        match self.callback.take() {
            Some(mut c) => {
                c.hex(v);
                self.callback.set(c);
                assert(self.written() =~= old(self).spec_written_with(seq![ConsoleEntry::Hex(v)]));
            },
            None => {},
        }
    }

    /// Reports the number `v` and ends the line.
    pub fn hexln(&mut self, v: u32)
        ensures
            final(self).callback@.is_some() == old(self).callback@.is_some(),
            final(self).written() == old(self).spec_written_with(
                seq![ConsoleEntry::Hex(v), ConsoleEntry::Text("\n"@)],
            ),
    {
        match self.callback.take() {
            Some(mut c) => {
                c.hex(v);
                c.puts("\n");
                self.callback.set(c);
                assert(self.written() =~= old(self).spec_written_with(
                    seq![ConsoleEntry::Hex(v), ConsoleEntry::Text("\n"@)],
                ));
            },
            None => {},
        }
    }
}

/// One registration: the device to call, by its place in the table of
/// devices, and the sources that it serves. The table of devices belongs to
/// whoever runs the board; a registration only points into it.
pub struct IrqHandler {
    pub device: OptionalCell<usize>,
    pub int_no: Vec<Device>,
}

impl IrqHandler {
    /// Whether the registration is for source `dev`.
    pub open spec fn spec_claims(&self, dev: Device) -> bool {
        self.int_no@.contains(dev)
    }

    pub fn new(device: OptionalCell<usize>, int_no: Vec<Device>) -> (r: IrqHandler)
        ensures
            r.device == device,
            r.int_no == int_no,
    {
        IrqHandler { device, int_no }
    }

    pub fn claims(&self, dev: Device) -> (r: bool)
        ensures
            r == self.spec_claims(dev),
    {
        let mut i: usize = 0;
        while i < self.int_no.len()
            invariant
                i <= self.int_no@.len(),
                forall|j: int| 0 <= j < i ==> self.int_no@[j] != dev,
            decreases self.int_no@.len() - i,
        {
            if self.int_no[i] == dev {
                return true;
            }
            i += 1;
        }
        false
    }
}

/// The table of registrations, in the order in which they were made.
pub struct IrqHandlersSettings {
    pub devices: Vec<IrqHandler>,
}

impl IrqHandlersSettings {
    pub fn new(devices: Vec<IrqHandler>) -> (r: IrqHandlersSettings)
        ensures
            r.devices == devices,
    {
        IrqHandlersSettings { devices }
    }
}

/// What the exception handlers share for the life of the program: the
/// table of registrations, the console handle and the interrupt controller.
/// Each is installed once, before interrupts are let in, and stays.
pub struct ExceptionState<I, C> {
    devices: Option<IrqHandlersSettings>,
    debug_context: Option<DebugContext<C>>,
    int_controller: Option<I>,
}

impl<I, C> ExceptionState<I, C> {
    /// The installed table of registrations.
    pub closed spec fn devices(&self) -> Option<IrqHandlersSettings> {
        self.devices
    }

    /// The installed console handle.
    pub closed spec fn debug_context(&self) -> Option<DebugContext<C>> {
        self.debug_context
    }

    /// The installed interrupt controller.
    pub closed spec fn int_controller(&self) -> Option<I> {
        self.int_controller
    }

    /// A state with nothing installed.
    pub fn new() -> (r: Self)
        ensures
            r.devices().is_none(),
            r.debug_context().is_none(),
            r.int_controller().is_none(),
    {
        ExceptionState { devices: None, debug_context: None, int_controller: None }
    }

    /// The installed table of registrations, if there is one.
    pub fn get_irq_handlers(&self) -> (r: Option<&IrqHandlersSettings>)
        ensures
            r.is_some() == self.devices().is_some(),
            r.is_some() ==> *r.unwrap() == self.devices().unwrap(),
    {
        self.devices.as_ref()
    }

    /// The installed console handle, if there is one.
    pub fn get_debug_context(&self) -> (r: Option<&DebugContext<C>>)
        ensures
            r.is_some() == self.debug_context().is_some(),
            r.is_some() ==> *r.unwrap() == self.debug_context().unwrap(),
    {
        self.debug_context.as_ref()
    }

    /// The installed interrupt controller, if there is one.
    pub fn get_int_controller(&self) -> (r: Option<&I>)
        ensures
            r.is_some() == self.int_controller().is_some(),
            r.is_some() ==> *r.unwrap() == self.int_controller().unwrap(),
    {
        self.int_controller.as_ref()
    }

    /// The installed console handle, to send on or to add to what it
    /// holds.
    pub fn debug_context_mut(&mut self) -> (r: &mut DebugContext<C>)
        requires
            old(self).debug_context().is_some(),
        ensures
            *r == old(self).debug_context().unwrap(),
            final(self).debug_context() == Some(*final(r)),
            final(self).devices() == old(self).devices(),
            final(self).int_controller() == old(self).int_controller(),
    {
        self.debug_context.as_mut().unwrap()
    }

    /// The installed interrupt controller, to bring its registers up to
    /// date with the hardware.
    pub fn int_controller_mut(&mut self) -> (r: &mut I)
        requires
            old(self).int_controller().is_some(),
        ensures
            *r == old(self).int_controller().unwrap(),
            final(self).int_controller() == Some(*final(r)),
            final(self).devices() == old(self).devices(),
            final(self).debug_context() == old(self).debug_context(),
    {
        self.int_controller.as_mut().unwrap()
    }
}

/// What installing `value` into a slot makes of it, and whether it was
/// installed: only an empty slot takes the value.
pub open spec fn spec_install<T>(slot: Option<T>, value: T) -> (bool, Option<T>) {
    if slot.is_none() {
        (true, Some(value))
    } else {
        (false, slot)
    }
}

/// The first installation into an empty slot succeeds. A second one, of
/// whatever value, fails and leaves the first value in the slot.
pub proof fn lemma_install_once<T>(first: T, second: T)
    ensures
        spec_install(None, first) == (true, Some(first)),
        spec_install(spec_install(None, first).1, second) == (false, Some(first)),
{
}

/// Installs the table of registrations. False, with the state unchanged,
/// when a table is installed already.
pub fn set_irq_handlers2<I, C>(state: &mut ExceptionState<I, C>, h: IrqHandlersSettings) -> (ok:
    bool)
    ensures
        (ok, final(state).devices()) == spec_install(old(state).devices(), h),
        final(state).debug_context() == old(state).debug_context(),
        final(state).int_controller() == old(state).int_controller(),
{
    if state.devices.is_some() {
        return false;
    }
    state.devices = Some(h);
    true
}

/// Installs the console handle. False, with the state unchanged, when a
/// handle is installed already.
pub fn set_debug_context<I, C>(state: &mut ExceptionState<I, C>, c: DebugContext<C>) -> (ok: bool)
    ensures
        (ok, final(state).debug_context()) == spec_install(old(state).debug_context(), c),
        final(state).devices() == old(state).devices(),
        final(state).int_controller() == old(state).int_controller(),
{
    if state.debug_context.is_some() {
        return false;
    }
    state.debug_context = Some(c);
    true
}

/// Installs the interrupt controller. False, with the state unchanged,
/// when a controller is installed already.
pub fn set_int_controller<I, C>(state: &mut ExceptionState<I, C>, c: I) -> (ok: bool)
    ensures
        (ok, final(state).int_controller()) == spec_install(old(state).int_controller(), c),
        final(state).devices() == old(state).devices(),
        final(state).debug_context() == old(state).debug_context(),
{
    if state.int_controller.is_some() {
        return false;
    }
    state.int_controller = Some(c);
    true
}

/// The low 32 bits of an address, which is what the reports show.
pub open spec fn spec_low_word(x: u64) -> u32 {
    (x & 0xffff_ffff) as u32
}

fn low_word(x: u64) -> (r: u32)
    ensures
        r == spec_low_word(x),
{
    assert(x & 0xffff_ffff <= 0xffff_ffff) by (bit_vector);
    (x & 0xffff_ffff) as u32
}

/// What the default handler reports: where the exception was taken from.
pub open spec fn spec_default_report(e: ExceptionContext) -> Seq<ConsoleEntry> {
    seq![
        ConsoleEntry::Text(spec_tag() + "At exception handler from 0x"@),
        ConsoleEntry::Hex(spec_low_word(e.lr)),
        ConsoleEntry::Text("\n"@),
    ]
}

/// Reports an exception that nothing here recovers from. The caller halts
/// afterwards.
pub fn default_exception_handler<C: ConsoleOut>(ctx: &mut DebugContext<C>, e: &ExceptionContext)
    ensures
        final(ctx).callback@.is_some() == old(ctx).callback@.is_some(),
        final(ctx).written() == old(ctx).spec_written_with(spec_default_report(*e)),
{
    let lr = e.lr;
    ctx.puts("At exception handler from 0x");
    ctx.hexln(low_word(lr));
    assert(ctx.written() =~= old(ctx).spec_written_with(spec_default_report(*e)));
}

/// How one round of the interrupt handler ended.
#[derive(Clone, Copy, Debug, PartialEq, Eq, Structural)]
pub enum IrqOutcome {
    /// The controller reported source `dev` on line `id`. Every
    /// registration for the source was called, or none was there
    /// (`handled` is false), and the controller was told that the source has
    /// been served. The caller asks again.
    Serviced { dev: Device, id: u32, handled: bool },
    /// The controller reported nothing. The caller returns from the
    /// exception.
    NoMorePending,
}

/// The table of devices after the first `n` registrations have had their
/// turn for source `dev` on line `id`: each registration for the source
/// has its device serve the line, one after the other in the order of
/// registration. A registration whose handle is empty, or points outside
/// the table, calls nothing.
pub open spec fn spec_dispatch<D: InterruptDevice>(
    handlers: Seq<IrqHandler>,
    dev: Device,
    id: u32,
    devices: Seq<D>,
    n: nat,
) -> Seq<D>
    decreases n,
{
    if n == 0 {
        devices
    } else {
        let before = spec_dispatch(handlers, dev, id, devices, (n - 1) as nat);
        let h = handlers[n - 1];
        if h.spec_claims(dev) && h.device@.is_some() && h.device@.unwrap() < before.len() {
            before.update(
                h.device@.unwrap() as int,
                before[h.device@.unwrap() as int].after_fire(id),
            )
        } else {
            before
        }
    }
}

/// Whether one of the first `n` registrations is for source `dev`.
pub open spec fn spec_handled(handlers: Seq<IrqHandler>, dev: Device, n: nat) -> bool {
    exists|i: int| 0 <= i < n && #[trigger] handlers[i].spec_claims(dev)
}

/// What is reported once when an interrupt is taken: where it was taken
/// from.
pub open spec fn spec_irq_entry_report(e: ExceptionContext) -> Seq<ConsoleEntry> {
    seq![
        ConsoleEntry::Text(spec_tag() + "IRQ handler from 0x"@),
        ConsoleEntry::Hex(spec_low_word(e.elr_el1)),
        ConsoleEntry::Text("\n"@),
    ]
}

/// What one round of the interrupt handler reports: for a pending source
/// its line and whether a registration was there, else that nothing is
/// left.
pub open spec fn spec_irq_report(pending: Option<(u32, bool)>) -> Seq<ConsoleEntry> {
    match pending {
        Some((id, handled)) => if handled {
            seq![ConsoleEntry::Text(spec_tag() + "Found pending id on GIC "@)]
        } else {
            seq![
                ConsoleEntry::Text(spec_tag() + "Found pending id on GIC "@),
                ConsoleEntry::Text(spec_tag() + "Unhandled exception "@),
                ConsoleEntry::Hex(id),
                ConsoleEntry::Text("\n"@),
            ]
        },
        None => seq![ConsoleEntry::Text(spec_tag() + "No more pending id.\n"@)],
    }
}

/// Reports that an interrupt was taken, and from where. It is called once
/// for an exception, before the first round of the interrupt handler.
pub fn irq_entry<C: ConsoleOut>(ctx: &mut DebugContext<C>, e: &ExceptionContext)
    ensures
        final(ctx).callback@.is_some() == old(ctx).callback@.is_some(),
        final(ctx).written() == old(ctx).spec_written_with(spec_irq_entry_report(*e)),
{
    ctx.puts("IRQ handler from 0x");
    ctx.hexln(low_word(e.elr_el1));
    assert(ctx.written() =~= old(ctx).spec_written_with(spec_irq_entry_report(*e)));
}

/// Calls the device of every registration for source `dev`, in the order
/// of registration, and tells whether there was a registration at all.
pub fn dispatch<D: InterruptDevice>(
    handlers: &IrqHandlersSettings,
    dev: Device,
    id: u32,
    devices: &mut Vec<D>,
) -> (handled: bool)
    ensures
        final(devices)@ == spec_dispatch(
            handlers.devices@,
            dev,
            id,
            old(devices)@,
            handlers.devices@.len(),
        ),
        handled == spec_handled(handlers.devices@, dev, handlers.devices@.len()),
{
    let mut handled: bool = false;
    let mut i: usize = 0;
    while i < handlers.devices.len()
        invariant
            i <= handlers.devices@.len(),
            devices@ == spec_dispatch(handlers.devices@, dev, id, old(devices)@, i as nat),
            handled == spec_handled(handlers.devices@, dev, i as nat),
        decreases handlers.devices@.len() - i,
    {
        let d = &handlers.devices[i];
        if d.claims(dev) {
            match d.device.get() {
                Some(k) => {
                    if k < devices.len() {
                        devices[k].on_fire(id);
                    }
                },
                None => {},
            }
            handled = true;
        }
        i += 1;
    }
    handled
}

/// Whether `after`, `devices_after` and `r` are what one round of the
/// interrupt handler makes of `before` and `devices_before`, after `prefix`
/// has been reported. While the controller reports a source, its
/// registrations are dispatched, the controller is told that the source has
/// been served, and the outcome names the source. Else nothing changes but
/// the console.
pub open spec fn spec_irq_round<I: Interrupt, C: ConsoleOut, D: InterruptDevice>(
    before: ExceptionState<I, C>,
    devices_before: Seq<D>,
    prefix: Seq<ConsoleEntry>,
    after: ExceptionState<I, C>,
    devices_after: Seq<D>,
    r: IrqOutcome,
) -> bool {
    let intc = before.int_controller().unwrap();
    let ctx = before.debug_context().unwrap();
    &&& after.devices() == before.devices()
    &&& after.int_controller().is_some()
    &&& after.debug_context().is_some()
    &&& after.debug_context().unwrap().callback@.is_some() == ctx.callback@.is_some()
    &&& match intc.spec_first_pending_device() {
        Some(dev) => {
            let handlers = before.devices().unwrap().devices@;
            let id = intc.spec_device_to_id(dev);
            let handled = spec_handled(handlers, dev, handlers.len());
            &&& r == (IrqOutcome::Serviced { dev, id, handled })
            &&& devices_after == spec_dispatch(handlers, dev, id, devices_before, handlers.len())
            &&& intc.spec_end_interrupt_handling(dev, &after.int_controller().unwrap())
            &&& after.debug_context().unwrap().written() == ctx.spec_written_with(
                prefix + spec_irq_report(Some((id, handled))),
            )
        },
        None => {
            &&& r == IrqOutcome::NoMorePending
            &&& devices_after == devices_before
            &&& after.int_controller() == before.int_controller()
            &&& after.debug_context().unwrap().written() == ctx.spec_written_with(
                prefix + spec_irq_report(None),
            )
        },
    }
}

fn irq_round<I: Interrupt, C: ConsoleOut, D: InterruptDevice>(
    state: &mut ExceptionState<I, C>,
    devices: &mut Vec<D>,
    e: Option<&ExceptionContext>,
) -> (r: IrqOutcome)
    requires
        old(state).debug_context().is_some(),
        old(state).int_controller().is_some(),
        old(state).int_controller().unwrap().spec_first_pending_device().is_some()
            ==> old(state).devices().is_some(),
    ensures
        spec_irq_round(
            *old(state),
            old(devices)@,
            match e {
                Some(e) => spec_irq_entry_report(*e),
                None => Seq::empty(),
            },
            *final(state),
            final(devices)@,
            r,
        ),
{
    let ghost prefix = match e {
        Some(e) => spec_irq_entry_report(*e),
        None => Seq::empty(),
    };
    let mut ctx = state.debug_context.take().unwrap();
    let mut intc = state.int_controller.take().unwrap();
    match e {
        Some(e) => irq_entry(&mut ctx, e),
        None => {
            assert(ctx.written() =~= old(state).debug_context().unwrap().spec_written_with(prefix));
        },
    }
    let pending = intc.get_first_pending_device();
    let r = match pending {
        Some(dev) => {
            ctx.puts("Found pending id on GIC ");
            let id = intc.device_to_id(dev);
            let handled = match &state.devices {
                Some(devs) => dispatch(devs, dev, id, devices),
                None => false,
            };
            if !handled {
                ctx.puts("Unhandled exception ");
                ctx.hexln(id);
            }
            intc.end_interrupt_handling(dev);
            assert(ctx.written() =~= old(state).debug_context().unwrap().spec_written_with(
                prefix + spec_irq_report(Some((id, handled))),
            ));
            IrqOutcome::Serviced { dev, id, handled }
        },
        None => {
            ctx.puts("No more pending id.\n");
            assert(ctx.written() =~= old(state).debug_context().unwrap().spec_written_with(
                prefix + spec_irq_report(None),
            ));
            IrqOutcome::NoMorePending
        },
    };
    state.debug_context = Some(ctx);
    state.int_controller = Some(intc);
    r
}

/// One round of the interrupt handler: asks the controller for a pending
/// source, has the registered devices serve it and tells the controller
/// that it has been served. The caller brings the controller's registers up
/// to date and asks again until the answer is `NoMorePending`.
pub fn irq_handler<I: Interrupt, C: ConsoleOut, D: InterruptDevice>(
    state: &mut ExceptionState<I, C>,
    devices: &mut Vec<D>,
) -> (r: IrqOutcome)
    requires
        old(state).debug_context().is_some(),
        old(state).int_controller().is_some(),
        old(state).int_controller().unwrap().spec_first_pending_device().is_some()
            ==> old(state).devices().is_some(),
    ensures
        spec_irq_round(
            *old(state),
            old(devices)@,
            Seq::empty(),
            *final(state),
            final(devices)@,
            r,
        ),
{
    irq_round(state, devices, None)
}

/// Serves an exception that arrived through the entry for `origin` and
/// `class`. An interrupt at the current level is reported and gets the
/// first round of the interrupt handler; the caller goes on with
/// `irq_handler` until nothing is pending. Anything else is reported only,
/// and the answer is nothing.
pub fn handle_exception<I: Interrupt, C: ConsoleOut, D: InterruptDevice>(
    state: &mut ExceptionState<I, C>,
    devices: &mut Vec<D>,
    origin: ExceptionOrigin,
    class: ExceptionClass,
    e: &ExceptionContext,
) -> (r: Option<IrqOutcome>)
    requires
        old(state).debug_context().is_some(),
        spec_route(origin, class) == Handler::Irq ==> {
            &&& old(state).int_controller().is_some()
            &&& old(state).int_controller().unwrap().spec_first_pending_device().is_some()
                ==> old(state).devices().is_some()
        },
    ensures
        spec_route(origin, class) == Handler::Irq ==> r.is_some() && spec_irq_round(
            *old(state),
            old(devices)@,
            spec_irq_entry_report(*e),
            *final(state),
            final(devices)@,
            r.unwrap(),
        ),
        spec_route(origin, class) == Handler::Default ==> {
            &&& r.is_none()
            &&& final(devices)@ == old(devices)@
            &&& final(state).devices() == old(state).devices()
            &&& final(state).int_controller() == old(state).int_controller()
            &&& final(state).debug_context().is_some()
            &&& final(state).debug_context().unwrap().callback@.is_some()
                == old(state).debug_context().unwrap().callback@.is_some()
            &&& final(state).debug_context().unwrap().written()
                == old(state).debug_context().unwrap().spec_written_with(spec_default_report(*e))
        },
{
    match route(origin, class) {
        Handler::Irq => Some(irq_round(state, devices, Some(e))),
        Handler::Default => {
            let mut ctx = state.debug_context.take().unwrap();
            default_exception_handler(&mut ctx, e);
            state.debug_context = Some(ctx);
            None
        },
    }
}

/// Two registrations for one source, with two devices: when the source
/// fires, the device of the first serves the line, then the device of the
/// second, each once, and the round counts as handled. Where both point at
/// the same device, it serves the line twice.
pub proof fn lemma_dispatch_fans_out<D: InterruptDevice>(
    first: IrqHandler,
    second: IrqHandler,
    dev: Device,
    id: u32,
    devices: Seq<D>,
)
    requires
        first.spec_claims(dev),
        second.spec_claims(dev),
        first.device@.is_some(),
        second.device@.is_some(),
        first.device@.unwrap() < devices.len(),
        second.device@.unwrap() < devices.len(),
    ensures
        ({
            let a = first.device@.unwrap() as int;
            let b = second.device@.unwrap() as int;
            let after_first = devices.update(a, devices[a].after_fire(id));
            let after_both = spec_dispatch(seq![first, second], dev, id, devices, 2);
            &&& after_both == after_first.update(b, after_first[b].after_fire(id))
            &&& after_both.len() == devices.len()
            &&& a != b ==> after_both[a] == devices[a].after_fire(id) && after_both[b]
                == devices[b].after_fire(id)
            &&& forall|k: int|
                0 <= k < devices.len() && k != a && k != b ==> after_both[k] == devices[k]
        }),
        spec_handled(seq![first, second], dev, 2),
{
    let handlers = seq![first, second];
    reveal_with_fuel(spec_dispatch, 3);
    assert(handlers[0] == first);
    assert(handlers[1] == second);
    assert(handlers[0].spec_claims(dev));
}

/// A source that no registration is for reaches no device.
pub proof fn lemma_dispatch_unclaimed<D: InterruptDevice>(
    handlers: Seq<IrqHandler>,
    dev: Device,
    id: u32,
    devices: Seq<D>,
    n: nat,
)
    requires
        n <= handlers.len(),
        forall|i: int| 0 <= i < n ==> !(#[trigger] handlers[i]).spec_claims(dev),
    ensures
        spec_dispatch(handlers, dev, id, devices, n) == devices,
        !spec_handled(handlers, dev, n),
    decreases n,
{
    if n > 0 {
        lemma_dispatch_unclaimed(handlers, dev, id, devices, (n - 1) as nat);
    }
}

} // verus!
