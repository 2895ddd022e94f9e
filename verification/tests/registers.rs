use emulator_6502::registers::Registers;

#[test]
fn test_flags() {
    let mut r = Registers::new();
    r.set_flag('N', true);
    assert_eq!(r.get_flag('N'), true);

    r.clear_flag('N');
    assert_eq!(r.get_flag('N'), false);

    r.set_flag('Z', true);
    assert_eq!(r.get_flag('Z'), true);

    r.clear_flag('Z');
    assert_eq!(r.get_flag('Z'), false);

    // this flag should already be set by the constructor
    assert_eq!(r.get_flag('I'), true);

    // clear all flags
    r.clear_flags();
    assert_eq!(r.get_flag('I'), false);
}
