use raspi_drivers::arm_timer::ArmTimer;
use raspi_drivers::exception::InterruptDevice;

#[test]
fn new_timer_has_not_fired() {
    let mut t = ArmTimer::new();
    assert_eq!(t.regs.CONTROL, 0);
    assert_eq!(t.regs.LOAD, 0);
    assert!(!t.has_fired());
}

#[test]
fn enable_sets_bit_7() {
    let mut t = ArmTimer::new();
    t.regs.CONTROL = 0x0000_0002;
    t.enable();
    assert_eq!(t.regs.CONTROL, 0x82);
    t.enable();
    assert_eq!(t.regs.CONTROL, 0x82);
}

#[test]
fn start_free_run_sets_bits_9_and_1() {
    let mut t = ArmTimer::new();
    t.start_free_run();
    assert_eq!(t.regs.CONTROL, 0x202);
}

#[test]
fn enable_int_sets_bit_5() {
    let mut t = ArmTimer::new();
    t.regs.CONTROL = 0x80;
    t.enable_int();
    assert_eq!(t.regs.CONTROL, 0xa0);
}

#[test]
fn count_down_is_loaded_and_read() {
    let mut t = ArmTimer::new();
    t.set_count_down(1_000_000);
    assert_eq!(t.regs.LOAD, 1_000_000);
    t.regs.VALUE = 77;
    assert_eq!(t.read_count_down(), 77);
    t.regs.FREE_RUN_COUNTER = 123;
    assert_eq!(t.read_free_run(), 123);
}

#[test]
fn clear_irq_writes_one() {
    let mut t = ArmTimer::new();
    t.clear_irq();
    assert_eq!(t.regs.IRQ_CLEAR, 1);
}

#[test]
fn interruption_on_own_line_clears_and_records() {
    let mut t = ArmTimer::new();
    t.on_interruption(0);
    assert_eq!(t.regs.IRQ_CLEAR, 1);
    assert!(t.has_fired());
    assert!(!t.has_fired());
}

#[test]
fn interruption_on_the_line_of_the_gic_clears_and_records() {
    let mut t = ArmTimer::new();
    t.on_interruption(64);
    assert_eq!(t.regs.IRQ_CLEAR, 1);
    assert!(t.has_fired());
    assert!(!t.has_fired());
}

#[test]
fn interruption_on_other_line_is_ignored() {
    for id in [1, 16, 63, 65, 97, 112, 1023] {
        let mut t = ArmTimer::new();
        t.on_interruption(id);
        assert_eq!(t.regs.IRQ_CLEAR, 0);
        assert!(!t.has_fired());
    }
}

#[test]
fn on_fire_is_the_interruption() {
    let mut t = ArmTimer::new();
    t.on_fire(0);
    assert_eq!(t.regs.IRQ_CLEAR, 1);
    assert!(t.has_fired());
}
