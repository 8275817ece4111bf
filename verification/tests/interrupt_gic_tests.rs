use raspi_drivers::int_device::Device;
use raspi_drivers::interrupt::Interrupt;
use raspi_drivers::interrupt_gic::{Gic, Id};

const ALL: [Device; 7] = [
    Device::Timer0,
    Device::Timer1,
    Device::Timer2,
    Device::Timer3,
    Device::ArmTimer,
    Device::Dma,
    Device::Invalid,
];

#[test]
fn gic_line_numbers() {
    assert_eq!(Id::TIMER0, 29);
    assert_eq!(Id::TIMER1, 30);
    assert_eq!(Id::TIMER2, 27);
    assert_eq!(Id::TIMER3, 26);
    assert_eq!(Id::LOCAL_TIMER, 53);
    assert_eq!(Id::ARMC_TIMER, 64);
    assert_eq!(Id::VC_TIMER0, 96);
    assert_eq!(Id::VC_TIMER1, 97);
    assert_eq!(Id::VC_TIMER2, 98);
    assert_eq!(Id::VC_TIMER3, 99);
    assert_eq!(Id::DMA0, 112);
}

#[test]
fn sources_map_to_their_lines() {
    assert_eq!(Gic::to_id(Device::Timer1), 97);
    assert_eq!(Gic::to_id(Device::Timer3), 99);
    assert_eq!(Gic::to_id(Device::ArmTimer), 64);
    assert_eq!(Gic::to_id(Device::Dma), 112);
    assert_eq!(Gic::to_id(Device::Timer0), 0);
    assert_eq!(Gic::to_id(Device::Timer2), 0);
    assert_eq!(Gic::to_id(Device::Invalid), 0);
}

#[test]
fn mapping_round_trips_for_the_wired_sources() {
    for dev in ALL {
        let back = Gic::to_device(Gic::to_id(dev));
        match dev {
            Device::Timer1 | Device::Timer3 | Device::ArmTimer | Device::Dma => {
                assert_eq!(back, dev)
            }
            _ => assert_eq!(back, Device::Invalid),
        }
    }
}

#[test]
fn unknown_lines_map_to_invalid() {
    assert_eq!(Gic::to_device(0), Device::Invalid);
    assert_eq!(Gic::to_device(96), Device::Invalid);
    assert_eq!(Gic::to_device(1023), Device::Invalid);
}

#[test]
fn init_keeps_the_line_number_field() {
    let mut g = Gic::new();
    g.regs.GICD.TYPER = 0xffff_ffe7;
    assert_eq!(g.get_supported_int_number(), 7);
    g.init();
    assert_eq!(g.supported_lines, 7);
}

#[test]
fn enable_int_sets_the_bit_of_the_line() {
    let mut g = Gic::new();
    g.supported_lines = 7;
    g.regs.GICD.ISENABLER[3] = 0x8000_0000;
    assert!(g.enable_int(Device::Timer1));
    assert_eq!(g.regs.GICD.ISENABLER[3], 0x8000_0002);
    assert!(g.enable_int(Device::Dma));
    assert_eq!(g.regs.GICD.ISENABLER[3], 0x8001_0002);
    assert!(g.enable_int(Device::ArmTimer));
    assert_eq!(g.regs.GICD.ISENABLER[2], 1);
}

#[test]
fn gic_enabling_twice_changes_nothing_more() {
    let mut g = Gic::new();
    g.supported_lines = 7;
    assert!(g.enable_int(Device::Dma));
    let once = g.regs.GICD.ISENABLER;
    assert!(g.enable_int(Device::Dma));
    assert_eq!(g.regs.GICD.ISENABLER, once);
}

#[test]
fn enable_int_fails_beyond_the_supported_lines() {
    let mut g = Gic::new();
    g.supported_lines = 6;
    assert!(g.enable_int(Device::ArmTimer));
    assert!(!g.enable_int(Device::Timer1));
    assert!(!g.enable_int(Device::Dma));
    assert_eq!(g.regs.GICD.ISENABLER, [0, 0, 1, 0, 0, 0, 0, 0]);
}

#[test]
fn enable_int_with_no_lines_known() {
    let mut g = Gic::new();
    assert!(!g.enable_int(Device::ArmTimer));
    assert_eq!(g.regs.GICD.ISENABLER, [0; 8]);
}

#[test]
fn enable_int_fails_for_a_source_without_a_line() {
    for dev in [Device::Invalid, Device::Timer0, Device::Timer2] {
        let mut g = Gic::new();
        g.supported_lines = 7;
        assert!(!g.enable_int(dev));
        assert_eq!(g.regs.GICD.ISENABLER, [0; 8]);
    }
}

#[test]
fn set_target_cpu_passes_over_a_source_without_a_line() {
    for dev in [Device::Invalid, Device::Timer0, Device::Timer2] {
        let mut g = Gic::new();
        g.set_target_cpu(dev, 1);
        assert_eq!(g.regs.GICD.ITARGETSR, [0; 32]);
    }
}

#[test]
fn enable_int_with_a_line_number_field_out_of_range() {
    let mut g = Gic::new();
    g.supported_lines = 40;
    assert!(g.enable_int(Device::Dma));
    assert_eq!(g.regs.GICD.ISENABLER[3], 0x1_0000);
}

#[test]
fn set_target_cpu_writes_the_byte_of_the_line() {
    let mut g = Gic::new();
    g.set_target_cpu(Device::Timer1, 0);
    assert_eq!(g.regs.GICD.ITARGETSR[24], 0x0000_0100);
    g.set_target_cpu(Device::Timer3, 2);
    assert_eq!(g.regs.GICD.ITARGETSR[24], 0x0400_0000);
    g.set_target_cpu(Device::Dma, 1);
    assert_eq!(g.regs.GICD.ITARGETSR[28], 2);
    g.set_target_cpu(Device::ArmTimer, 3);
    assert_eq!(g.regs.GICD.ITARGETSR[16], 8);
}

#[test]
fn enable_distribution_sets_the_two_groups() {
    let mut g = Gic::new();
    g.regs.GICD.CTLR = 0x8000_0004;
    g.enable_distribution();
    assert_eq!(g.regs.GICD.CTLR, 0x8000_0007);
}

#[test]
fn acknowledge_names_the_line() {
    let mut g = Gic::new();
    g.regs.GICC.IAR = 97;
    assert_eq!(g.get_first_pending_id(), Some(97));
    assert_eq!(g.get_first_pending_device(), Some(Device::Timer1));
    g.regs.GICC.IAR = (5 << 10) | 112;
    assert_eq!(g.get_first_pending_id(), Some(112));
    assert_eq!(g.get_first_pending_device(), Some(Device::Dma));
    g.regs.GICC.IAR = 256;
    assert_eq!(g.get_first_pending_id(), Some(256));
    assert_eq!(g.get_first_pending_device(), Some(Device::Invalid));
    g.regs.GICC.IAR = 257;
    assert_eq!(g.get_first_pending_id(), None);
    g.regs.GICC.IAR = 1023;
    assert_eq!(g.get_first_pending_id(), None);
    assert_eq!(g.get_first_pending_device(), None);
}

#[test]
fn draining_gives_each_asserted_line_once_then_none() {
    let asserted: [u32; 3] = [64, 97, 112];
    let mut hardware: Vec<u32> = asserted.to_vec();
    let mut g = Gic::new();
    let mut seen: Vec<u32> = Vec::new();
    let mut reads = 0;
    loop {
        g.regs.GICC.IAR = if hardware.is_empty() { 1023 } else { hardware.remove(0) };
        reads += 1;
        match g.get_first_pending_id() {
            Some(id) => {
                seen.push(id);
                g.end_interrupt_handling(Gic::to_device(id));
                assert_eq!(g.regs.GICC.EOIR, id);
            }
            None => break,
        }
    }
    assert_eq!(seen, vec![64, 97, 112]);
    assert_eq!(reads, asserted.len() + 1);
}

#[test]
fn end_of_interrupt_writes_the_line() {
    let mut g = Gic::new();
    g.end_interrupt_handling(Device::Dma);
    assert_eq!(g.regs.GICC.EOIR, 112);
    assert_eq!(g.device_to_id(Device::Timer3), 99);
}

#[test]
fn end_of_interrupt_for_an_unwired_line_writes_what_was_acknowledged() {
    let mut g = Gic::new();
    g.regs.GICC.IAR = (3 << 10) | 5;
    assert_eq!(g.get_first_pending_device(), Some(Device::Invalid));
    g.end_interrupt_handling(Device::Invalid);
    assert_eq!(g.regs.GICC.EOIR, 5);
}
