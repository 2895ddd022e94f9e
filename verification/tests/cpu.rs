use emulator_6502::cpu::{make_cpu, CPU};
use emulator_6502::mmu::MMU;

#[test]
fn test_construct_cpu() {
    let mmu = MMU::new(&Vec::new()).unwrap();
    let cpu = CPU::new(mmu);
}

// ----- test cpu methods -----

#[test]
fn test_to_bcd() {
    let mut cpu = make_cpu(Some(vec![])).unwrap();

    assert_eq!(cpu.to_bcd(0), 0);
    assert_eq!(cpu.to_bcd(5), 0x05);
    assert_eq!(cpu.to_bcd(11), 0x11);
    assert_eq!(cpu.to_bcd(99), 0x99);
}

#[test]
fn test_from_bcd() {
    let mut cpu = make_cpu(None).unwrap();

    assert_eq!(cpu.from_bcd(0), 0);
    assert_eq!(cpu.from_bcd(0x05), 5);
    assert_eq!(cpu.from_bcd(0x11), 11);
    assert_eq!(cpu.from_bcd(0x99), 99);
}

#[test]
fn test_from_twos_com() {
    let mut cpu = make_cpu(None).unwrap();

    assert_eq!(cpu.from_twos_com(0x00), 0);
    assert_eq!(cpu.from_twos_com(0x01), 1);
    assert_eq!(cpu.from_twos_com(0x7F), 127);
    assert_eq!(cpu.from_twos_com(0xFF), -1);
    assert_eq!(cpu.from_twos_com(0x80), -128);
}

#[test]
fn test_next_byte() {
    let mut cpu = make_cpu(Some(vec![1, 2, 3])).unwrap();

    assert_eq!(cpu.next_byte().unwrap(), 1);
    assert_eq!(cpu.next_byte().unwrap(), 2);
    assert_eq!(cpu.next_byte().unwrap(), 3);
    assert_eq!(cpu.next_byte().unwrap(), 0);
}

#[test]
fn test_next_word() {
    let mut cpu = make_cpu(Some(vec![1, 2, 3, 4, 5, 9, 10])).unwrap();

    assert_eq!(cpu.next_word().unwrap(), 0x0201);
    cpu.next_byte().unwrap();
    assert_eq!(cpu.next_word().unwrap(), 0x0504);
    assert_eq!(cpu.next_word().unwrap(), 0x0A09);
}

#[test]
fn cpu_test_stack() {
    let mut cpu = make_cpu(None).unwrap();

    cpu.stack_push(0x10).unwrap();
    assert_eq!(cpu.stack_pop().unwrap(), 0x10);
    cpu.stack_push_word(0x0510).unwrap();
    assert_eq!(cpu.stack_pop_word().unwrap(), 0x0510);
    assert_eq!(cpu.stack_pop().unwrap(), 0x00);
    cpu.stack_push(0x00).unwrap();
    cpu.stack_push_word(0x0510).unwrap();
    assert_eq!(cpu.stack_pop().unwrap(), 0x10);
    assert_eq!(cpu.stack_pop().unwrap(), 0x05);
}

// ----- test addressing modes -----
#[test]
fn test_zeropage_addressing() {
    let mut cpu = make_cpu(Some(vec![1, 2, 3, 4, 5])).unwrap();
    assert_eq!(cpu.z_a().unwrap(), 1);

    cpu.r.x = 0;
    assert_eq!(cpu.zx_a().unwrap(), 2);
    cpu.r.x = 1;
    assert_eq!(cpu.zx_a().unwrap(), 4);

    cpu.r.y = 0;
    assert_eq!(cpu.zy_a().unwrap(), 4);
    cpu.r.y = 1;
    assert_eq!(cpu.zy_a().unwrap(), 6);
}

#[test]
fn test_absolute_addressing() {
    let mut cpu = make_cpu(
        Some(vec![1, 2, 3, 4, 5, 6, 7, 8, 9, 10])
    ).unwrap();
    assert_eq!(cpu.a_a().unwrap(), 0x0201);

    cpu.r.x = 0;
    cpu.r.cc = 0;
    assert_eq!(cpu.ax_a().unwrap(), 0x0403);
    assert_eq!(cpu.r.cc, 0);
    cpu.r.x = 0xFF;
    cpu.r.cc = 0;
    assert_eq!(cpu.ax_a().unwrap(), 0x0605+0xFF);
    assert_eq!(cpu.r.cc, 1);

    cpu.r.y = 0;
    cpu.r.cc = 0;
    assert_eq!(cpu.ay_a().unwrap(), 0x0807);
    assert_eq!(cpu.r.cc, 0);
    cpu.r.y = 0xFF;
    cpu.r.cc = 0;
    assert_eq!(cpu.ay_a().unwrap(), 0x0a09+0xFF);
    assert_eq!(cpu.r.cc, 1);

}

#[test]
fn test_indirect_addressing() {
    let mut cpu = make_cpu(
        Some(vec![
            0x06, 0x10,
            0xFF, 0x10,
            0x00, 0x00,
            0xF0, 0x00,
        ])
    ).unwrap();

    assert_eq!(cpu.i_a().unwrap(), 0x00F0);
    assert_eq!(cpu.i_a().unwrap(), 0x0600);

    cpu.r.y = 0x05;
    cpu.mmu.write(0x00, 0x21).unwrap();
    cpu.mmu.write(0x01, 0x43).unwrap();
    assert_eq!(cpu.iy_a().unwrap(), 0x4326);

    cpu.r.x = 0x02;
    cpu.mmu.write(0x02, 0x34).unwrap();
    cpu.mmu.write(0x03, 0x12).unwrap();
    assert_eq!(cpu.ix_a().unwrap(), 0x1234);
}

