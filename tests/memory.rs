use emu6502::memory::{Memory, MemoryError, MEMORY_SIZE, ROM_START};

#[test]
fn new_memory_is_zeroed() {
    let m = Memory::new();
    assert_eq!(m.read(0x0000), Ok(0));
    assert_eq!(m.read(0x7FFF), Ok(0));
    assert_eq!(m.read(0xFFFF), Ok(0));
}

#[test]
fn write_then_read_in_ram() {
    let mut m = Memory::new();
    for (a, v) in [(0x0000u16, 0x12u8), (0x00FF, 0xFF), (0x1234, 0x80), (0x7FFF, 0x01)] {
        assert_eq!(m.write(a, v), Ok(()));
        assert_eq!(m.read(a), Ok(v));
    }
}

#[test]
fn write_to_rom_is_refused() {
    let mut m = Memory::new();
    for a in [0x8000u16, 0xC000, 0xFFFC, 0xFFFF] {
        assert_eq!(m.write(a, 0xAB), Err(MemoryError::RomWriteAttempt(a)));
        assert_eq!(m.read(a), Ok(0));
    }
}

#[test]
fn rom_write_leaves_loaded_byte() {
    let mut m = Memory::new();
    assert_eq!(m.load_image(&[0x11, 0x22]), Ok(()));
    assert_eq!(m.write(0x8001, 0x99), Err(MemoryError::RomWriteAttempt(0x8001)));
    assert_eq!(m.read(0x8001), Ok(0x22));
}

#[test]
fn load_image_places_bytes_at_rom_start() {
    let mut m = Memory::new();
    m.write(0x0010, 0x42).unwrap();
    assert_eq!(m.load_image(&[1, 2, 3]), Ok(()));
    assert_eq!(m.read(ROM_START as u16), Ok(1));
    assert_eq!(m.read(ROM_START as u16 + 1), Ok(2));
    assert_eq!(m.read(ROM_START as u16 + 2), Ok(3));
    assert_eq!(m.read(ROM_START as u16 + 3), Ok(0));
    assert_eq!(m.read(0x0010), Ok(0x42));
}

#[test]
fn load_image_filling_rom_exactly() {
    let mut m = Memory::new();
    let mut image = vec![0u8; MEMORY_SIZE - ROM_START];
    image[0x7FFC] = 0x34;
    image[0x7FFF] = 0x99;
    assert_eq!(m.load_image(&image), Ok(()));
    assert_eq!(m.read(0xFFFC), Ok(0x34));
    assert_eq!(m.read(0xFFFF), Ok(0x99));
}

#[test]
fn load_image_too_large_is_refused() {
    let mut m = Memory::new();
    let image = vec![7u8; MEMORY_SIZE - ROM_START + 1];
    assert_eq!(m.load_image(&image), Err(MemoryError::ImageTooLarge(0x8001)));
    assert_eq!(m.read(0x8000), Ok(0));
}
