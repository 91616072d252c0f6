use bl702_hal::bits::flag_of;
use bl702_hal::bits::get_bit;
use bl702_hal::bits::get_field;
use bl702_hal::bits::mask_at;
use bl702_hal::bits::mask_of;
use bl702_hal::bits::set_field;
use bl702_hal::bits::value_at;
use bl702_hal::bits::Fields;
use bl702_hal::hw::modify_word;
use bl702_hal::hw::store_byte;
use bl702_hal::hw::Action;
use bl702_hal::hw::Program;
use bl702_hal::interrupts::_setup_interrupts;
use bl702_hal::interrupts::clear_interrupt;
use bl702_hal::interrupts::disable_interrupt;
use bl702_hal::interrupts::enable_interrupt;
use bl702_hal::interrupts::start_trap_rust_hal;
use bl702_hal::interrupts::Interrupt;
use bl702_hal::interrupts::TrapFrame;
use bl702_hal::interrupts::TrapRoute;

#[test]
fn masks() {
    assert_eq!(mask_of(1), 1);
    assert_eq!(mask_of(3), 7);
    assert_eq!(mask_of(8), 0xff);
    assert_eq!(mask_of(31), 0x7fff_ffff);
    assert_eq!(mask_of(32), 0xffff_ffff);
    assert_eq!(mask_at(0, 32), 0xffff_ffff);
    assert_eq!(mask_at(8, 5), 0x0000_1f00);
    assert_eq!(mask_at(31, 1), 0x8000_0000);
    assert_eq!(value_at(8, 5, 0xff), 0x0000_1f00);
    assert_eq!(value_at(8, 5, 10), 0x0000_0a00);
    assert_eq!(flag_of(true), 1);
    assert_eq!(flag_of(false), 0);
}

#[test]
fn fields_read_and_written() {
    assert_eq!(get_field(0xdead_beef, 0, 32), 0xdead_beef);
    assert_eq!(get_field(0xdead_beef, 8, 8), 0xbe);
    assert_eq!(get_field(0xdead_beef, 28, 4), 0xd);
    assert_eq!(set_field(0xdead_beef, 8, 8, 0x12), 0xdead_12ef);
    // a number too wide for the field is cut to the field
    assert_eq!(set_field(0, 4, 4, 0x1f5), 0x50);
    assert_eq!(set_field(0xffff_ffff, 16, 16, 0), 0x0000_ffff);
    assert!(get_bit(0x8000_0000, 31));
    assert!(!get_bit(0x7fff_ffff, 31));
    assert!(get_bit(1, 0));
    for lo in 0..28u32 {
        let word = set_field(0xa5a5_a5a5, lo, 5, 0x15);
        assert_eq!(get_field(word, lo, 5), 0x15);
        assert_eq!(word & !mask_at(lo, 5), 0xa5a5_a5a5 & !mask_at(lo, 5));
    }
}

#[test]
fn field_choices() {
    let none = Fields::none();
    assert_eq!(none, Fields { mask: 0, value: 0 });
    let fields = none.with(8, 3, 7).with_bit(2, true).with_bit(1, false).with(11, 2, 1);
    assert_eq!(fields, Fields { mask: 0x0000_1f06, value: 0x0000_0f04 });
    // a field chosen twice holds what was chosen last
    assert_eq!(none.with(4, 4, 9).with(4, 4, 2), Fields { mask: 0xf0, value: 0x20 });
}

#[test]
fn program_is_an_ordered_list() {
    let mut program = Program::new();
    assert_eq!(program.len(), 0);
    assert_eq!(program.get(0), None);
    program.write(0x10, 1);
    program.modify(0x14, 0xf0, 0x20);
    program.push(Action::DisableInterrupts);
    program.write_fields(0x18, Fields { mask: 0xff, value: 0x12 });
    program.modify_fields(0x1c, Fields { mask: 0xff, value: 0x34 });
    program.zero_words(0x100, 3);
    program.zero_words(0x200, 0);
    assert_eq!(program.len(), 8);
    assert_eq!(program.get(1), Some(Action::Modify { addr: 0x14, mask: 0xf0, value: 0x20 }));
    assert_eq!(program.get(8), None);
    let taken = program.take();
    assert_eq!(
        taken,
        vec![
            Action::Write { addr: 0x10, value: 1 },
            Action::Modify { addr: 0x14, mask: 0xf0, value: 0x20 },
            Action::DisableInterrupts,
            Action::Write { addr: 0x18, value: 0x12 },
            Action::Modify { addr: 0x1c, mask: 0xff, value: 0x34 },
            Action::Write { addr: 0x100, value: 0 },
            Action::Write { addr: 0x104, value: 0 },
            Action::Write { addr: 0x108, value: 0 },
        ]
    );
    assert_eq!(program.len(), 0);
    assert_eq!(program.into_actions(), Vec::new());
}

#[test]
fn readback_follows_the_actions_in_order() {
    let mut program = Program::new();
    assert_eq!(program.readback(0x40, 0x1234), 0x1234);
    program.modify(0x40, 0x0000_00ff, 0x0000_0055);
    assert_eq!(program.readback(0x40, 0xaaaa_aaaa), 0xaaaa_aa55);
    program.write(0x40, 0x0f0f_0f0f);
    program.write(0x44, 0xffff_ffff);
    program.modify(0x40, 0xff00_0000, 0x1234_5678);
    program.push(Action::RomCall { index: 1, arg0: 2, arg1: 3 });
    program.push(Action::EnableInterrupts);
    program.push(Action::SetTrapVector { value: 0x40 });
    // bits of the value outside the mask are not written
    assert_eq!(program.readback(0x40, 0), 0x120f_0f0f);
    assert_eq!(program.readback(0x44, 0), 0xffff_ffff);
    assert_eq!(program.readback(0x48, 7), 7);
    program.push(Action::WriteByte { addr: 0x42, byte: 0xee });
    program.push(Action::WriteByte { addr: 0x47, byte: 0x01 });
    assert_eq!(program.readback(0x40, 0), 0x12ee_0f0f);
    assert_eq!(program.readback(0x44, 0), 0x01ff_ffff);
    assert_eq!(modify_word(0xffff_0000, 0x00ff_ff00, 0x1234_5678), 0xff34_5600);
    assert_eq!(store_byte(0x1122_3344, 0, 0xaa), 0x1122_33aa);
    assert_eq!(store_byte(0x1122_3344, 3, 0xaa), 0xaa22_3344);
}

#[test]
fn interrupts_without_a_number_do_nothing() {
    let mut program = Program::new();
    assert_eq!(Interrupt::Unknown.to_irq(), None);
    enable_interrupt(Interrupt::Unknown, &mut program);
    disable_interrupt(Interrupt::Unknown, &mut program);
    clear_interrupt(Interrupt::Unknown, &mut program);
    assert_eq!(program.len(), 0);
    for irq in [0u32, 15, 16, 17, 79, 255, u32::MAX] {
        assert_eq!(Interrupt::from(irq), Interrupt::Unknown);
    }
}

#[test]
fn interrupt_setup() {
    let mut program = Program::new();
    _setup_interrupts(0x2300_1000, &mut program);
    let actions = program.into_actions();
    assert_eq!(actions.len(), 51);
    assert_eq!(actions[0], Action::DisableInterrupts);
    assert_eq!(actions[1], Action::SetTrapVector { value: 0x2300_1002 });
    for i in 0..24u32 {
        assert_eq!(
            actions[2 + i as usize],
            Action::Write { addr: 0x0280_0400 + 4 * i, value: 0 }
        );
        assert_eq!(
            actions[26 + i as usize],
            Action::Write { addr: 0x0280_0000 + 4 * i, value: 0 }
        );
    }
    assert_eq!(actions[50], Action::EnableInterrupts);
}

#[test]
fn traps_are_routed_by_their_cause() {
    assert_eq!(start_trap_rust_hal(true, 0), TrapRoute::Core);
    assert_eq!(start_trap_rust_hal(true, 200), TrapRoute::Core);
    assert_eq!(start_trap_rust_hal(false, 0), TrapRoute::Core);
    assert_eq!(start_trap_rust_hal(false, 15), TrapRoute::Core);
    assert_eq!(start_trap_rust_hal(false, 16), TrapRoute::Peripheral(Interrupt::Unknown));
    assert_eq!(start_trap_rust_hal(false, 0x1234), TrapRoute::Peripheral(Interrupt::Unknown));
}

#[test]
fn trap_frame_starts_out_zeroed() {
    let frame = TrapFrame::default();
    assert_eq!(frame.ra, 0);
    assert_eq!(frame.sp, 0);
    let copy = frame;
    assert_eq!(copy.a0, frame.a0);
}
