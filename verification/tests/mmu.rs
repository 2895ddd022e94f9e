use emulator_6502::mmu::{Block, MMU};

#[test]
fn test_create_empty() {
    let mmu = MMU::new(&Vec::new()).unwrap();
}

#[test]
fn test_create() {
    let mut blocks = Vec::new();
    blocks.push(Block::new(0, 128, false, None).unwrap());
    let mut mmu = MMU::new(&blocks).unwrap();
    blocks.push(Block::new(128, 256, false, None).unwrap());
    mmu = MMU::new(&blocks).unwrap();
}

#[test]
fn test_create_with_list() {
    let mut blocks = Vec::new();
    let mut memory = vec![0; 128];
    memory[0] = 1;
    memory[1] = 2;
    memory[2] = 3;
    blocks.push(Block::new(0, 128, false, Some(memory)).unwrap());
    let mmu = MMU::new(&blocks).unwrap();

    assert_eq!(mmu.read(0).unwrap(), 1);
    assert_eq!(mmu.read(1).unwrap(), 2);
    assert_eq!(mmu.read(2).unwrap(), 3);
}

#[test]
#[should_panic]
fn test_create_overlapping() {
    let mut blocks = Vec::new();
    blocks.push(Block::new(0, 129, false, None).unwrap());
    let mut mmu = MMU::new(&blocks).unwrap();
    blocks.push(Block::new(128, 256, false, None).unwrap());
    mmu = MMU::new(&blocks).unwrap();
}

#[test]
fn test_add_block() {
    let mut mmu = MMU::new(&Vec::new()).unwrap();
    mmu.add_block(&Block::new(0, 128, false, None).unwrap()).unwrap();
    mmu.add_block(&Block::new(128, 128, false, None).unwrap()).unwrap();
}

#[test]
#[should_panic]
fn test_add_block_overlapping() {
    let mut mmu = MMU::new(&Vec::new()).unwrap();
    mmu.add_block(&Block::new(0, 129, false, None).unwrap()).unwrap();
    mmu.add_block(&Block::new(128, 256, false, None).unwrap()).unwrap();
}

#[test]
fn test_write() {
    let mut mmu = MMU::new(&Vec::new()).unwrap();
    mmu.add_block(&Block::new(0, 128, false, None).unwrap()).unwrap();

    mmu.write(16, 25).unwrap();
    assert_eq!(mmu.read(16).unwrap(), 25);
}

#[test]
fn test_write_multiple_blocks() {
    let mut mmu = MMU::new(&Vec::new()).unwrap();
    mmu.add_block(&Block::new(0, 128, false, None).unwrap()).unwrap();
    mmu.add_block(&Block::new(128, 128, false, None).unwrap()).unwrap();

    mmu.write(16, 25).unwrap();
    mmu.write(130, 14).unwrap();
    assert_eq!(mmu.read(16).unwrap(), 25);
    assert_eq!(mmu.read(130).unwrap(), 14);
}

#[test]
#[should_panic]
fn test_write_readonly() {
    let mut mmu = MMU::new(&Vec::new()).unwrap();
    mmu.add_block(&Block::new(0, 128, true, None).unwrap()).unwrap();

    mmu.write(16, 25).unwrap();
}

#[test]
fn test_read() {
    let mut mmu = MMU::new(&Vec::new()).unwrap();
    mmu.add_block(&Block::new(0, 128, false, None).unwrap()).unwrap();

    mmu.write(16, 25).unwrap();
    assert_eq!(mmu.read(16).unwrap(), 25);
}

#[test]
#[should_panic]
fn test_index_error() {
    let mut mmu = MMU::new(&Vec::new()).unwrap();
    mmu.add_block(&Block::new(0, 128, false, None).unwrap()).unwrap();

    mmu.write(128, 25).unwrap();
}

#[test]
fn test_reset() {
    let mut mmu = MMU::new(&Vec::new()).unwrap();
    mmu.add_block(&Block::new(0, 128, false, None).unwrap()).unwrap();

    mmu.write(16, 25).unwrap();
    mmu.reset();
    assert_eq!(mmu.read(16).unwrap(), 0);
}
