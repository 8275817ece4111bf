//! What an interrupt controller offers to the dispatch routine and to the
//! boot sequence, whatever hardware stands behind it.

use crate::int_device::Device;
use vstd::prelude::*;

verus! {

pub trait Interrupt {
    /// Whether `after` and `ok` are what enabling the line of `dev` makes
    /// of this controller.
    spec fn spec_enable_int(&self, dev: Device, after: &Self, ok: bool) -> bool;

    /// Whether `after` is this controller with the line of `dev` routed to
    /// core `cpu`.
    spec fn spec_set_target_cpu(&self, dev: Device, cpu: u32, after: &Self) -> bool;

    /// Whether `after` is this controller with delivery switched on.
    spec fn spec_enable_distribution(&self, after: &Self) -> bool;

    /// The line that the controller reports as pending, if any.
    spec fn spec_first_pending_id(&self) -> Option<u32>;

    /// The source that the controller reports as pending, if any.
    spec fn spec_first_pending_device(&self) -> Option<Device>;

    /// Whether `after` is this controller once the handling of `dev` has
    /// been signalled as complete.
    spec fn spec_end_interrupt_handling(&self, dev: Device, after: &Self) -> bool;

    /// The line number of a source on this controller.
    spec fn spec_device_to_id(&self, dev: Device) -> u32;

    /// Whether this controller can be told to route a line to core `cpu`.
    /// A controller that routes nothing takes any number.
    spec fn spec_can_target(&self, cpu: u32) -> bool;

    /// The first core can be named to every controller.
    proof fn lemma_can_target_first_core(&self)
        ensures
            self.spec_can_target(0),
    ;

    /// Makes the line of `dev` deliverable. False when the source has no
    /// line on this controller.
    fn enable_int(&mut self, dev: Device) -> (ok: bool)
        ensures
            old(self).spec_enable_int(dev, final(self), ok),
    ;

    /// Routes the line of `dev` to core `cpu`, where the controller routes
    /// at all.
    fn set_target_cpu(&mut self, dev: Device, cpu: u32)
        requires
            old(self).spec_can_target(cpu),
        ensures
            old(self).spec_set_target_cpu(dev, cpu, final(self)),
    ;

    /// Switches delivery on as a whole, where the controller has such a
    /// switch.
    fn enable_distribution(&mut self)
        ensures
            old(self).spec_enable_distribution(final(self)),
    ;

    fn get_first_pending_id(&self) -> (r: Option<u32>)
        ensures
            r == self.spec_first_pending_id(),
    ;

    fn get_first_pending_device(&self) -> (r: Option<Device>)
        ensures
            r == self.spec_first_pending_device(),
    ;

    /// Tells the controller that `dev` has been served.
    fn end_interrupt_handling(&mut self, dev: Device)
        ensures
            old(self).spec_end_interrupt_handling(dev, final(self)),
    ;

    fn device_to_id(&self, dev: Device) -> (r: u32)
        ensures
            r == self.spec_device_to_id(dev),
    ;
}

} // verus!
