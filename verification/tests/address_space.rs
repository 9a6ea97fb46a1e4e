use rv32core::bus::Bus;
use rv32core::memory::Memory;
use rv32core::rom::Rom;
use rv32core::util::{Fault, MemorySize};

// The example address map: read-only 0x1000..=0x1FFF, read-write
// 0x8000_0000..=0x800F_FFFF.

#[test]
fn first_and_last_byte_of_each_region_are_reachable() {
    let mut bus = Bus::from_binary_file(vec![0xAA]);
    assert_eq!(bus.read(0x1000, MemorySize::Byte), Ok(0xAA));
    assert_eq!(bus.read(0x1FFF, MemorySize::Byte), Ok(0));
    assert_eq!(bus.write(0x8000_0000, MemorySize::Byte, 0x5C), Ok(()));
    assert_eq!(bus.read(0x8000_0000, MemorySize::Byte), Ok(0x5C));
    assert_eq!(bus.write(0x800F_FFFF, MemorySize::Byte, 0x77), Ok(()));
    assert_eq!(bus.read(0x800F_FFFF, MemorySize::Byte), Ok(0x77));
}

#[test]
fn unmapped_addresses_fault() {
    let mut bus = Bus::new();
    assert_eq!(bus.read(0x0FFF, MemorySize::Byte), Err(Fault::AddressFault { address: 0x0FFF }));
    assert_eq!(bus.read(0x2000, MemorySize::Byte), Err(Fault::AddressFault { address: 0x2000 }));
    assert_eq!(bus.read(0, MemorySize::Word), Err(Fault::AddressFault { address: 0 }));
    assert_eq!(
        bus.read(0x8010_0000, MemorySize::Byte),
        Err(Fault::AddressFault { address: 0x8010_0000 })
    );
    assert_eq!(
        bus.write(0x2000, MemorySize::Byte, 1),
        Err(Fault::AddressFault { address: 0x2000 })
    );
    assert_eq!(
        bus.write(0xFFFF_FFFF, MemorySize::Word, 1),
        Err(Fault::AddressFault { address: 0xFFFF_FFFF })
    );
}

#[test]
fn accesses_running_past_a_region_end_fault() {
    let mut bus = Bus::new();
    assert_eq!(bus.read(0x1FFF, MemorySize::Word), Err(Fault::AddressFault { address: 0x1FFF }));
    assert_eq!(
        bus.read(0x1FFE, MemorySize::Word),
        Err(Fault::AddressFault { address: 0x1FFE })
    );
    assert_eq!(bus.read(0x1FFC, MemorySize::Word), Ok(0));
    assert_eq!(
        bus.read(0x800F_FFFE, MemorySize::Word),
        Err(Fault::AddressFault { address: 0x800F_FFFE })
    );
    assert_eq!(
        bus.write(0x800F_FFFF, MemorySize::HalfWord, 1),
        Err(Fault::AddressFault { address: 0x800F_FFFF })
    );
}

#[test]
fn writes_into_the_read_only_region_are_protected() {
    let mut bus = Bus::from_binary_file(vec![1, 2, 3, 4]);
    assert_eq!(
        bus.write(0x1000, MemorySize::Byte, 0xFF),
        Err(Fault::WriteProtectFault { address: 0x1000 })
    );
    assert_eq!(
        bus.write(0x1FFF, MemorySize::Word, 0xFF),
        Err(Fault::WriteProtectFault { address: 0x1FFF })
    );
    // Reads still return the loaded contents.
    assert_eq!(bus.read(0x1000, MemorySize::Word), Ok(0x0403_0201));
    assert_eq!(bus.read(0x1001, MemorySize::HalfWord), Ok(0x0302));
    assert_eq!(bus.read(0x1003, MemorySize::Byte), Ok(4));
}

#[test]
fn multi_byte_values_are_little_endian() {
    let mut bus = Bus::new();
    assert_eq!(bus.write(0x8000_0000, MemorySize::Word, 0x1122_3344), Ok(()));
    assert_eq!(bus.read(0x8000_0000, MemorySize::Byte), Ok(0x44));
    assert_eq!(bus.read(0x8000_0001, MemorySize::Byte), Ok(0x33));
    assert_eq!(bus.read(0x8000_0002, MemorySize::Byte), Ok(0x22));
    assert_eq!(bus.read(0x8000_0003, MemorySize::Byte), Ok(0x11));
    assert_eq!(bus.read(0x8000_0001, MemorySize::HalfWord), Ok(0x2233));
    assert_eq!(bus.read(0x8000_0000, MemorySize::Word), Ok(0x1122_3344));
}

#[test]
fn narrow_writes_store_only_the_low_bytes() {
    let mut bus = Bus::new();
    assert_eq!(bus.write(0x8000_0000, MemorySize::Word, 0xFFFF_FFFF), Ok(()));
    assert_eq!(bus.write(0x8000_0000, MemorySize::HalfWord, 0x1234_5678), Ok(()));
    assert_eq!(bus.read(0x8000_0000, MemorySize::Word), Ok(0xFFFF_5678));
    assert_eq!(bus.write(0x8000_0003, MemorySize::Byte, 0xABC), Ok(()));
    assert_eq!(bus.read(0x8000_0000, MemorySize::Word), Ok(0xBCFF_5678));
}

#[test]
fn a_configurable_layout_routes_by_the_given_bases() {
    let rom = Rom::with_image(vec![0x11, 0x22], 16);
    let mem = Memory::with_size(32);
    let mut bus = Bus::with_layout(0, rom, 0x100, mem);
    assert_eq!(bus.read(0, MemorySize::HalfWord), Ok(0x2211));
    assert_eq!(bus.read(15, MemorySize::Byte), Ok(0));
    assert_eq!(bus.read(16, MemorySize::Byte), Err(Fault::AddressFault { address: 16 }));
    assert_eq!(bus.write(0x100, MemorySize::Word, 0xCAFE_F00D), Ok(()));
    assert_eq!(bus.read(0x100, MemorySize::Word), Ok(0xCAFE_F00D));
    assert_eq!(bus.read(0x11F, MemorySize::Byte), Ok(0));
    assert_eq!(bus.read(0x120, MemorySize::Byte), Err(Fault::AddressFault { address: 0x120 }));
    assert_eq!(bus.write(1, MemorySize::Byte, 9), Err(Fault::WriteProtectFault { address: 1 }));
}

#[test]
fn region_storage_reads_back_what_it_stores() {
    let mut mem = Memory::with_size(8);
    mem.write(2, MemorySize::Word, 0xA1B2_C3D4);
    assert_eq!(mem.read(2, MemorySize::Word), 0xA1B2_C3D4);
    assert_eq!(mem.read(2, MemorySize::Byte), 0xD4);
    assert_eq!(mem.read(4, MemorySize::HalfWord), 0xA1B2);
    // A narrower write keeps the neighbouring bytes.
    mem.write(3, MemorySize::Byte, 0x00);
    assert_eq!(mem.read(2, MemorySize::Word), 0xA1B2_00D4);
}

#[test]
fn rom_storage_returns_the_image_little_endian() {
    let rom = Rom::from_binary_file(vec![0x0D, 0x0C, 0x0B, 0x0A]);
    assert_eq!(rom.read(0, MemorySize::Word), 0x0A0B_0C0D);
    assert_eq!(rom.read(1, MemorySize::HalfWord), 0x0B0C);
    assert_eq!(rom.read(4, MemorySize::Byte), 0, "past the image, the fill is zero");
}

#[test]
fn rom_images_shorter_than_the_region_are_zero_filled() {
    let bus = Bus::from_binary_file(vec![0xFE]);
    assert_eq!(bus.read(0x1000, MemorySize::Byte), Ok(0xFE));
    assert_eq!(bus.read(0x1001, MemorySize::Word), Ok(0));
    assert_eq!(bus.read(0x1FFF, MemorySize::Byte), Ok(0));
}
