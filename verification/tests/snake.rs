use emulator_6502::fault::Fault;
use emulator_6502::ops::make_op_table;
use emulator_6502::snake::{
    Key, SnakeApp, INPUT_PORT, RANDOM_BOUND, RANDOM_PORT, SCREEN_BASE, SCREEN_CELLS,
    STEPS_PER_UPDATE,
};

#[test]
fn test_key_codes() {
    assert_eq!(Key::Up.key_code(), 0x77);
    assert_eq!(Key::Down.key_code(), 0x73);
    assert_eq!(Key::Left.key_code(), 0x61);
    assert_eq!(Key::Right.key_code(), 0x64);
}

#[test]
fn test_snake_ports() {
    assert_eq!(RANDOM_PORT, 0xFE);
    assert_eq!(INPUT_PORT, 0xFF);
    assert_eq!(RANDOM_BOUND, 16);
    assert_eq!(STEPS_PER_UPDATE, 15);
    assert_eq!(SCREEN_BASE, 0x200);
    assert_eq!(SCREEN_CELLS, 32 * 32);
}

#[test]
fn test_snake_app_starts_at_rom() {
    let app = SnakeApp::new(Some(vec![0xEA])).unwrap();
    assert_eq!(app.cpu.r.pc, 0x600);
    assert_eq!(app.cpu.r.s, 0xFC);
    assert_eq!(app.cpu.mmu.read(0x600).unwrap(), 0xEA);
    assert_eq!(app.ops, make_op_table());
    assert!(SnakeApp::new(Some(vec![0u8; 0x1001])).is_err());
}

#[test]
fn test_handle_press_writes_input_port() {
    let mut app = SnakeApp::new(None).unwrap();
    app.handle_press(Key::Left).unwrap();
    assert_eq!(app.cpu.mmu.read(0xFF).unwrap(), 0x61);
    app.handle_press(Key::Up).unwrap();
    assert_eq!(app.cpu.mmu.read(0xFF).unwrap(), 0x77);
    assert_eq!(app.cpu.r.pc, 0x600);
}

#[test]
fn test_tick_feeds_random_port_and_steps() {
    // LDA 0xFE
    let mut app = SnakeApp::new(Some(vec![0xA5, 0xFE])).unwrap();
    app.tick(0x0B).unwrap();
    assert_eq!(app.cpu.mmu.read(0xFE).unwrap(), 0x0B);
    assert_eq!(app.cpu.r.a, 0x0B);
    assert_eq!(app.cpu.r.pc, 0x602);
}

#[test]
fn test_update_executes_fifteen_instructions() {
    // INX, fifteen times and once more
    let mut rom = Vec::new();
    for _ in 0..16 {
        rom.push(0xE8);
        rom.push(0x00);
    }
    let mut app = SnakeApp::new(Some(rom)).unwrap();
    app.update().unwrap();
    assert_eq!(app.cpu.r.x, 15);
    assert_eq!(app.cpu.r.pc, 0x600 + 30);
    assert!(app.cpu.mmu.read(0xFE).unwrap() < 16);
}

#[test]
fn test_update_stops_at_fault() {
    // INX, INX, then an opcode without operation
    let mut app = SnakeApp::new(Some(vec![0xE8, 0x00, 0xE8, 0x00, 0x02, 0x00])).unwrap();
    assert_eq!(app.update(), Err(Fault::NotImplemented));
    assert_eq!(app.cpu.r.x, 2);
    assert_eq!(app.cpu.r.pc, 0x606);
}

#[test]
fn test_random_bytes_stay_below_bound_and_vary() {
    // JMP 0x600
    let mut app = SnakeApp::new(Some(vec![0x4C, 0x00, 0x06])).unwrap();
    let mut seen = [false; 16];
    for _ in 0..200 {
        app.update().unwrap();
        let byte = app.cpu.mmu.read(0xFE).unwrap();
        assert!(byte < 16);
        seen[byte as usize] = true;
    }
    assert!(seen.iter().filter(|s| **s).count() > 1);
}

#[test]
fn test_screen_is_read_row_by_row() {
    let mut app = SnakeApp::new(None).unwrap();
    app.cpu.mmu.write(0x200, 3).unwrap();
    app.cpu.mmu.write(0x221, 5).unwrap();
    app.cpu.mmu.write(0x5FF, 7).unwrap();
    app.cpu.mmu.write(0x1FF, 9).unwrap();
    let cells = app.screen().unwrap();
    assert_eq!(cells.len(), 1024);
    assert_eq!(cells[0], 3);
    assert_eq!(cells[33], 5);
    assert_eq!(cells[1023], 7);
    assert_eq!(cells.iter().filter(|c| **c != 0).count(), 3);
}
