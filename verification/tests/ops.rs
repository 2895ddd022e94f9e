use emulator_6502::cpu::make_cpu;
use emulator_6502::mmu::Block;
use emulator_6502::ops::make_op_table;

// ----- test all instructions -----
// there are 56 of these instructions, plus a couple undocumented extras

#[test]
fn test_adc() {
    let ops = make_op_table();
    let mut cpu = make_cpu(Some(vec![1, 2, 250, 3, 100, 100])).unwrap();
    let src = ops[0x69].addr.resolve(&mut cpu).unwrap();
    ops[0x69].code.execute(&mut cpu, src).unwrap();
    assert_eq!(cpu.r.a, 1);

    let src = ops[0x69].addr.resolve(&mut cpu).unwrap();
    ops[0x69].code.execute(&mut cpu, src).unwrap();
    assert_eq!(cpu.r.a, 3);

    let src = ops[0x69].addr.resolve(&mut cpu).unwrap();
    ops[0x69].code.execute(&mut cpu, src).unwrap();
    assert_eq!(cpu.r.a, 253);
    assert!(cpu.r.get_flag('N'));
    cpu.r.clear_flags();

    let src = ops[0x69].addr.resolve(&mut cpu).unwrap();
    ops[0x69].code.execute(&mut cpu, src).unwrap();
    assert!(cpu.r.get_flag('C'));
    assert!(cpu.r.get_flag('Z'));
    cpu.r.clear_flags();

    let src = ops[0x69].addr.resolve(&mut cpu).unwrap();
    ops[0x69].code.execute(&mut cpu, src).unwrap();
    let src = ops[0x69].addr.resolve(&mut cpu).unwrap();
    ops[0x69].code.execute(&mut cpu, src).unwrap();
    assert!(cpu.r.get_flag('V'));
}

#[test]
fn test_adc_decimal() {
    let ops = make_op_table();
    let mut cpu = make_cpu(Some(vec![0x01, 0x55, 0x50])).unwrap();
    cpu.r.set_flag('D', true);

    let src = ops[0x69].addr.resolve(&mut cpu).unwrap();
    ops[0x69].code.execute(&mut cpu, src).unwrap();
    assert_eq!(cpu.r.a, 0x01);

    let src = ops[0x69].addr.resolve(&mut cpu).unwrap();
    ops[0x69].code.execute(&mut cpu, src).unwrap();
    assert_eq!(cpu.r.a, 0x56);

    let src = ops[0x69].addr.resolve(&mut cpu).unwrap();
    ops[0x69].code.execute(&mut cpu, src).unwrap();
    assert_eq!(cpu.r.a, 0x06);
    assert!(cpu.r.get_flag('C'));
}

#[test]
fn test_and() {
    let ops = make_op_table();
    let mut cpu = make_cpu(Some(vec![0xFF, 0xFF, 0x01, 0x2])).unwrap();

    cpu.r.a = 0x00;
    let src = ops[0x29].addr.resolve(&mut cpu).unwrap();
    ops[0x29].code.execute(&mut cpu, src).unwrap();
    assert_eq!(cpu.r.a, 0);

    cpu.r.a = 0xFF;
    let src = ops[0x29].addr.resolve(&mut cpu).unwrap();
    ops[0x29].code.execute(&mut cpu, src).unwrap();
    assert_eq!(cpu.r.a, 0xFF);

    cpu.r.a = 0x01;
    let src = ops[0x29].addr.resolve(&mut cpu).unwrap();
    ops[0x29].code.execute(&mut cpu, src).unwrap();
    assert_eq!(cpu.r.a, 0x01);

    cpu.r.a = 0x01;
    let src = ops[0x29].addr.resolve(&mut cpu).unwrap();
    ops[0x29].code.execute(&mut cpu, src).unwrap();
    assert_eq!(cpu.r.a, 0x00);
}

#[test]
fn test_asl() {
    let ops = make_op_table();
    let mut cpu = make_cpu(Some(vec![0x00])).unwrap();

    cpu.r.a = 1;
    let src = ops[0x0A].addr.resolve(&mut cpu).unwrap();
    ops[0x0A].code.execute(&mut cpu, src).unwrap();
    assert_eq!(cpu.r.a, 2);

    cpu.mmu.write(0, 4).unwrap();
    let src = ops[0x06].addr.resolve(&mut cpu).unwrap();
    ops[0x06].code.execute(&mut cpu, src).unwrap();
    assert_eq!(cpu.mmu.read(0).unwrap(), 8);
}

#[test]
fn test_branch() {
    let ops = make_op_table();
    let mut cpu = make_cpu(Some(vec![0x01, 0x00, 0x00, 0xFC])).unwrap();

    let src = ops[0x10].addr.resolve(&mut cpu).unwrap();
    ops[0x10].code.execute(&mut cpu, src).unwrap();
    assert_eq!(cpu.r.pc, 0x1002);

    let src = ops[0x70].addr.resolve(&mut cpu).unwrap();
    ops[0x70].code.execute(&mut cpu, src).unwrap();
    assert_eq!(cpu.r.pc, 0x1003);

    cpu.r.set_flag('C', true);
    let src = ops[0xB0].addr.resolve(&mut cpu).unwrap();
    ops[0xB0].code.execute(&mut cpu, src).unwrap();
    assert_eq!(cpu.r.pc, 0x1000);

    let src = ops[0xD0].addr.resolve(&mut cpu).unwrap();
    ops[0xD0].code.execute(&mut cpu, src).unwrap();
    assert_eq!(cpu.r.pc, 0x1002);
}

#[test]
fn test_bit() {
    let ops = make_op_table();
    let mut cpu = make_cpu(Some(vec![0x00, 0x00, 0x10])).unwrap();
    cpu.mmu.write(0, 0xFF).unwrap();
    cpu.r.a = 1;

    let src = ops[0x24].addr.resolve(&mut cpu).unwrap();
    ops[0x24].code.execute(&mut cpu, src).unwrap();
    assert_eq!(cpu.r.get_flag('Z'), false);
    assert_eq!(cpu.r.get_flag('N'), true);
    assert_eq!(cpu.r.get_flag('V'), true);

    let src = ops[0x2C].addr.resolve(&mut cpu).unwrap();
    ops[0x2C].code.execute(&mut cpu, src).unwrap();
    assert_eq!(cpu.r.get_flag('Z'), true);
    assert_eq!(cpu.r.get_flag('N'), false);
    assert_eq!(cpu.r.get_flag('V'), false);
}

#[test]
fn test_brk() {
    let ops = make_op_table();
    let mut cpu = make_cpu(None).unwrap();
    let block = Block::new(0xFFFE, 0x2, true, Some(vec![0x34, 0x12])).unwrap();
    cpu.mmu.add_block(&block).unwrap();
    cpu.r.p = 239;

    let src = ops[0x00].addr.resolve(&mut cpu).unwrap();
    ops[0x00].code.execute(&mut cpu, src).unwrap();
    assert_eq!(cpu.r.get_flag('B'), true);
    assert_eq!(cpu.r.get_flag('I'), true);
    assert_eq!(cpu.r.pc, 0x1234);
    assert_eq!(cpu.stack_pop().unwrap(), 255);
    assert_eq!(cpu.stack_pop_word().unwrap(), 0x1000);
}

#[test]
fn test_cmp() {
    let ops = make_op_table();
    let mut cpu = make_cpu(Some(vec![0x0F, 0x10, 0x11, 0xFE, 0xFF, 0x00, 0x7F])).unwrap();

    cpu.r.a = 0x10;
    let src = ops[0xC9].addr.resolve(&mut cpu).unwrap();
    ops[0xC9].code.execute(&mut cpu, src).unwrap();
    assert_eq!(cpu.r.get_flag('Z'), false);
    assert_eq!(cpu.r.get_flag('C'), true);
    assert_eq!(cpu.r.get_flag('N'), false);

    let src = ops[0xC9].addr.resolve(&mut cpu).unwrap();
    ops[0xC9].code.execute(&mut cpu, src).unwrap();
    assert_eq!(cpu.r.get_flag('Z'), true);
    assert_eq!(cpu.r.get_flag('C'), true);
    assert_eq!(cpu.r.get_flag('N'), false);

    let src = ops[0xC9].addr.resolve(&mut cpu).unwrap();
    ops[0xC9].code.execute(&mut cpu, src).unwrap();
    assert_eq!(cpu.r.get_flag('Z'), false);
    assert_eq!(cpu.r.get_flag('C'), false);
    assert_eq!(cpu.r.get_flag('N'), true);

    cpu.r.a = 0xFF;
    let src = ops[0xC9].addr.resolve(&mut cpu).unwrap();
    ops[0xC9].code.execute(&mut cpu, src).unwrap();
    assert_eq!(cpu.r.get_flag('Z'), false);
    assert_eq!(cpu.r.get_flag('C'), true);
    assert_eq!(cpu.r.get_flag('N'), false);

    let src = ops[0xC9].addr.resolve(&mut cpu).unwrap();
    ops[0xC9].code.execute(&mut cpu, src).unwrap();
    assert_eq!(cpu.r.get_flag('Z'), true);
    assert_eq!(cpu.r.get_flag('C'), true);
    assert_eq!(cpu.r.get_flag('N'), false);

    let src = ops[0xC9].addr.resolve(&mut cpu).unwrap();
    ops[0xC9].code.execute(&mut cpu, src).unwrap();
    assert_eq!(cpu.r.get_flag('Z'), false);
    assert_eq!(cpu.r.get_flag('C'), true);
    assert_eq!(cpu.r.get_flag('N'), true);

    let src = ops[0xC9].addr.resolve(&mut cpu).unwrap();
    ops[0xC9].code.execute(&mut cpu, src).unwrap();
    assert_eq!(cpu.r.get_flag('Z'), false);
    assert_eq!(cpu.r.get_flag('C'), true);
    assert_eq!(cpu.r.get_flag('N'), true);
}

#[test]
fn test_cpx() {
    let ops = make_op_table();
    let mut cpu = make_cpu(Some(vec![0x0F, 0x10, 0x11])).unwrap();

    cpu.r.x = 0x10;
    let src = ops[0xE0].addr.resolve(&mut cpu).unwrap();
    ops[0xE0].code.execute(&mut cpu, src).unwrap();
    assert_eq!(cpu.r.get_flag('Z'), false);
    assert_eq!(cpu.r.get_flag('C'), true);
    assert_eq!(cpu.r.get_flag('N'), false);

    let src = ops[0xE0].addr.resolve(&mut cpu).unwrap();
    ops[0xE0].code.execute(&mut cpu, src).unwrap();
    assert_eq!(cpu.r.get_flag('Z'), true);
    assert_eq!(cpu.r.get_flag('C'), true);
    assert_eq!(cpu.r.get_flag('N'), false);

    let src = ops[0xE0].addr.resolve(&mut cpu).unwrap();
    ops[0xE0].code.execute(&mut cpu, src).unwrap();
    assert_eq!(cpu.r.get_flag('Z'), false);
    assert_eq!(cpu.r.get_flag('C'), false);
    assert_eq!(cpu.r.get_flag('N'), true);
}

#[test]
fn test_cpy() {
    let ops = make_op_table();
    let mut cpu = make_cpu(Some(vec![0x0F, 0x10, 0x11])).unwrap();

    cpu.r.y = 0x10;
    let src = ops[0xC0].addr.resolve(&mut cpu).unwrap();
    ops[0xC0].code.execute(&mut cpu, src).unwrap();
    assert_eq!(cpu.r.get_flag('Z'), false);
    assert_eq!(cpu.r.get_flag('C'), true);
    assert_eq!(cpu.r.get_flag('N'), false);

    let src = ops[0xC0].addr.resolve(&mut cpu).unwrap();
    ops[0xC0].code.execute(&mut cpu, src).unwrap();
    assert_eq!(cpu.r.get_flag('Z'), true);
    assert_eq!(cpu.r.get_flag('C'), true);
    assert_eq!(cpu.r.get_flag('N'), false);

    let src = ops[0xC0].addr.resolve(&mut cpu).unwrap();
    ops[0xC0].code.execute(&mut cpu, src).unwrap();
    assert_eq!(cpu.r.get_flag('Z'), false);
    assert_eq!(cpu.r.get_flag('C'), false);
    assert_eq!(cpu.r.get_flag('N'), true);
}

#[test]
fn test_dec() {
    let ops = make_op_table();
    let mut cpu = make_cpu(Some(vec![0x00])).unwrap();
    let src = ops[0xC6].addr.resolve(&mut cpu).unwrap();
    ops[0xC6].code.execute(&mut cpu, src).unwrap();
    assert_eq!(cpu.mmu.read(0x00).unwrap(), 0xFF);
}

#[test]
fn test_dex() {
    let ops = make_op_table();
    let mut cpu = make_cpu(None).unwrap();
    let src = ops[0xCA].addr.resolve(&mut cpu).unwrap();
    ops[0xCA].code.execute(&mut cpu, src).unwrap();
    assert_eq!(cpu.r.x, 0xFF);
}

#[test]
fn test_dey() {
    let ops = make_op_table();
    let mut cpu = make_cpu(None).unwrap();
    let src = ops[0x88].addr.resolve(&mut cpu).unwrap();
    ops[0x88].code.execute(&mut cpu, src).unwrap();
    assert_eq!(cpu.r.y, 0xFF);
}

#[test]
fn test_eor() {
    let ops = make_op_table();
    let mut cpu = make_cpu(Some(vec![0x0F, 0xF0, 0xFF])).unwrap();
    let src = ops[0x49].addr.resolve(&mut cpu).unwrap();
    ops[0x49].code.execute(&mut cpu, src).unwrap();
    assert_eq!(cpu.r.a, 0x0F);

    let src = ops[0x49].addr.resolve(&mut cpu).unwrap();
    ops[0x49].code.execute(&mut cpu, src).unwrap();
    assert_eq!(cpu.r.a, 0xFF);

    let src = ops[0x49].addr.resolve(&mut cpu).unwrap();
    ops[0x49].code.execute(&mut cpu, src).unwrap();
    assert_eq!(cpu.r.a, 0x00);
}

#[test]
fn test_flag_ops() {
    let ops = make_op_table();
    let mut cpu = make_cpu(None).unwrap();
    let src = ops[0x38].addr.resolve(&mut cpu).unwrap();
    ops[0x38].code.execute(&mut cpu, src).unwrap();
    assert_eq!(cpu.r.get_flag('C'), true);
    let src = ops[0x78].addr.resolve(&mut cpu).unwrap();
    ops[0x78].code.execute(&mut cpu, src).unwrap();
    assert_eq!(cpu.r.get_flag('I'), true);
    let src = ops[0xF8].addr.resolve(&mut cpu).unwrap();
    ops[0xF8].code.execute(&mut cpu, src).unwrap();
    assert_eq!(cpu.r.get_flag('D'), true);

    cpu.r.set_flag('V', true);
    let src = ops[0x18].addr.resolve(&mut cpu).unwrap();
    ops[0x18].code.execute(&mut cpu, src).unwrap();
    assert_eq!(cpu.r.get_flag('C'), false);
    let src = ops[0x58].addr.resolve(&mut cpu).unwrap();
    ops[0x58].code.execute(&mut cpu, src).unwrap();
    assert_eq!(cpu.r.get_flag('I'), false);
    let src = ops[0xB8].addr.resolve(&mut cpu).unwrap();
    ops[0xB8].code.execute(&mut cpu, src).unwrap();
    assert_eq!(cpu.r.get_flag('V'), false);
    let src = ops[0xD8].addr.resolve(&mut cpu).unwrap();
    ops[0xD8].code.execute(&mut cpu, src).unwrap();
    assert_eq!(cpu.r.get_flag('D'), false);
}

#[test]
fn test_inc() {
    let ops = make_op_table();
    let mut cpu = make_cpu(Some(vec![0x00,])).unwrap();
    let src = ops[0xe6].addr.resolve(&mut cpu).unwrap();
    ops[0xe6].code.execute(&mut cpu, src).unwrap();
    assert_eq!(cpu.mmu.read(0x00).unwrap(), 0x01);
}

#[test]
fn test_inx() {
    let ops = make_op_table();
    let mut cpu = make_cpu(None).unwrap();
    let src = ops[0xE8].addr.resolve(&mut cpu).unwrap();
    ops[0xE8].code.execute(&mut cpu, src).unwrap();
    assert_eq!(cpu.r.x, 0x01);
}

#[test]
fn test_iny() {
    let ops = make_op_table();
    let mut cpu = make_cpu(None).unwrap();
    let src = ops[0xC8].addr.resolve(&mut cpu).unwrap();
    ops[0xC8].code.execute(&mut cpu, src).unwrap();
    assert_eq!(cpu.r.y, 0x01);
}

#[test]
fn test_jmp() {
    let ops = make_op_table();
    let mut cpu = make_cpu(Some(vec![0x00, 0x10])).unwrap();
    let src = ops[0x4C].addr.resolve(&mut cpu).unwrap();
    ops[0x4C].code.execute(&mut cpu, src).unwrap();
    assert_eq!(cpu.r.pc, 0x1000);

    let src = ops[0x6C].addr.resolve(&mut cpu).unwrap();
    ops[0x6C].code.execute(&mut cpu, src).unwrap();
    assert_eq!(cpu.r.pc, 0x1000);
}

#[test]
fn ops_test_jsr() {
    let ops = make_op_table();
    let mut cpu = make_cpu(Some(vec![0x00, 0x10])).unwrap();
    let src = ops[0x20].addr.resolve(&mut cpu).unwrap();
    ops[0x20].code.execute(&mut cpu, src).unwrap();
    assert_eq!(cpu.r.pc, 0x1000);
    assert_eq!(cpu.stack_pop_word().unwrap(), 0x1001);
}

#[test]
fn test_lda() {
    let ops = make_op_table();
    let mut cpu = make_cpu(Some(vec![0x01,])).unwrap();
    let src = ops[0xA9].addr.resolve(&mut cpu).unwrap();
    ops[0xA9].code.execute(&mut cpu, src).unwrap();
    assert_eq!(cpu.r.a, 0x01);
}

#[test]
fn test_ldx() {
    let ops = make_op_table();
    let mut cpu = make_cpu(Some(vec![0x01,])).unwrap();
    let src = ops[0xA2].addr.resolve(&mut cpu).unwrap();
    ops[0xA2].code.execute(&mut cpu, src).unwrap();
    assert_eq!(cpu.r.x, 0x01);
}

#[test]
fn test_ldy() {
    let ops = make_op_table();
    let mut cpu = make_cpu(Some(vec![0x01,])).unwrap();
    let src = ops[0xA0].addr.resolve(&mut cpu).unwrap();
    ops[0xA0].code.execute(&mut cpu, src).unwrap();
    assert_eq!(cpu.r.y, 0x01);
}

#[test]
fn test_lsr() {
    let ops = make_op_table();
    let mut cpu = make_cpu(Some(vec![0x00,])).unwrap();
    cpu.r.a = 0x02;

    let src = ops[0x4A].addr.resolve(&mut cpu).unwrap();
    ops[0x4A].code.execute(&mut cpu, src).unwrap();
    assert_eq!(cpu.r.a, 0x01);
    assert_eq!(cpu.r.get_flag('C'), false);

    let src = ops[0x4A].addr.resolve(&mut cpu).unwrap();
    ops[0x4A].code.execute(&mut cpu, src).unwrap();
    assert_eq!(cpu.r.a, 0x00);
    assert_eq!(cpu.r.get_flag('C'), true);

    cpu.mmu.write(0x00, 0x02).unwrap();
    let src = ops[0x46].addr.resolve(&mut cpu).unwrap();
    ops[0x46].code.execute(&mut cpu, src).unwrap();
    assert_eq!(cpu.mmu.read(0x00).unwrap(), 0x01);
}


#[test]
fn test_ora() {
    let ops = make_op_table();
    let mut cpu = make_cpu(Some(vec![0x0F, 0xF0, 0xFF])).unwrap();

    let src = ops[0x09].addr.resolve(&mut cpu).unwrap();
    ops[0x09].code.execute(&mut cpu, src).unwrap();
    assert_eq!(cpu.r.a, 0x0F);

    let src = ops[0x09].addr.resolve(&mut cpu).unwrap();
    ops[0x09].code.execute(&mut cpu, src).unwrap();
    assert_eq!(cpu.r.a, 0xFF);

    let src = ops[0x09].addr.resolve(&mut cpu).unwrap();
    ops[0x09].code.execute(&mut cpu, src).unwrap();
    assert_eq!(cpu.r.a, 0xFF);
}


#[test]
fn test_p() {
    let ops = make_op_table();
    let mut cpu = make_cpu(None).unwrap();

    cpu.r.a = 0xCC;
    let src = ops[0x48].addr.resolve(&mut cpu).unwrap();
    ops[0x48].code.execute(&mut cpu, src).unwrap();
    assert_eq!(cpu.stack_pop().unwrap(), 0xCC);

    cpu.r.p = 0xFF;
    let src = ops[0x08].addr.resolve(&mut cpu).unwrap();
    ops[0x08].code.execute(&mut cpu, src).unwrap();
    assert_eq!(cpu.stack_pop().unwrap(), 0xFF);

    cpu.r.a = 0x00;
    cpu.stack_push(0xDD).unwrap();
    let src = ops[0x68].addr.resolve(&mut cpu).unwrap();
    ops[0x68].code.execute(&mut cpu, src).unwrap();
    assert_eq!(cpu.r.a, 0xDD);

    cpu.r.p = 0x20;
    cpu.stack_push(0xFD).unwrap();
    let src = ops[0x28].addr.resolve(&mut cpu).unwrap();
    ops[0x28].code.execute(&mut cpu, src).unwrap();
    assert_eq!(cpu.r.p, 0xFD);
}

#[test]
fn test_rol() {
    let ops = make_op_table();
    let mut cpu = make_cpu(Some(vec!(0x00))).unwrap();

    cpu.r.a = 0xFF;
    let src = ops[0x2A].addr.resolve(&mut cpu).unwrap();
    ops[0x2A].code.execute(&mut cpu, src).unwrap();
    assert_eq!(cpu.r.a, 0xFE);
    assert_eq!(cpu.r.get_flag('C'), true);

    let src = ops[0x2A].addr.resolve(&mut cpu).unwrap();
    ops[0x2A].code.execute(&mut cpu, src).unwrap();
    assert_eq!(cpu.r.a, 0xFD);
    assert_eq!(cpu.r.get_flag('C'), true);

    let src = ops[0x26].addr.resolve(&mut cpu).unwrap();
    ops[0x26].code.execute(&mut cpu, src).unwrap();
    assert_eq!(cpu.mmu.read(0x00).unwrap(), 0x01);
    assert_eq!(cpu.r.get_flag('C'), false);
}

#[test]
fn test_ror() {
    let ops = make_op_table();
    let mut cpu = make_cpu(Some(vec!(0x00))).unwrap();

    cpu.r.a = 0xFF;
    let src = ops[0x6A].addr.resolve(&mut cpu).unwrap();
    ops[0x6A].code.execute(&mut cpu, src).unwrap();
    assert_eq!(cpu.r.a, 0x7F);
    assert_eq!(cpu.r.get_flag('C'), true);

    let src = ops[0x6A].addr.resolve(&mut cpu).unwrap();
    ops[0x6A].code.execute(&mut cpu, src).unwrap();
    assert_eq!(cpu.r.a, 0xBF);
    assert_eq!(cpu.r.get_flag('C'), true);

    let src = ops[0x66].addr.resolve(&mut cpu).unwrap();
    ops[0x66].code.execute(&mut cpu, src).unwrap();
    assert_eq!(cpu.mmu.read(0x00).unwrap(), 0x80);
    assert_eq!(cpu.r.get_flag('C'), false);
}


#[test]
fn test_rti() {
    let ops = make_op_table();
    let mut cpu = make_cpu(Some(vec!(0x00))).unwrap();

    cpu.stack_push_word(0x1234).unwrap();
    cpu.stack_push(0xFD).unwrap();

    let src = ops[0x40].addr.resolve(&mut cpu).unwrap();
    ops[0x40].code.execute(&mut cpu, src).unwrap();
    assert_eq!(cpu.r.pc, 0x1234);
    assert_eq!(cpu.r.get_flag('N'), true);
    assert_eq!(cpu.r.get_flag('V'), true);
    assert_eq!(cpu.r.get_flag('B'), true);
    assert_eq!(cpu.r.get_flag('D'), true);
    assert_eq!(cpu.r.get_flag('I'), true);
    assert_eq!(cpu.r.get_flag('Z'), false);
    assert_eq!(cpu.r.get_flag('C'), true);
}

#[test]
fn test_rts() {
    let ops = make_op_table();
    let mut cpu = make_cpu(Some(vec!(0x00))).unwrap();

    cpu.stack_push_word(0x1234).unwrap();
    let src = ops[0x60].addr.resolve(&mut cpu).unwrap();
    ops[0x60].code.execute(&mut cpu, src).unwrap();
    assert_eq!(cpu.r.pc, 0x1235);
}
