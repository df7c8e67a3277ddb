use embassy_silabs::cmu::CmuRegs;
use embassy_silabs::flash::{
    Error, Flash, FlashMem, FlashRegion, MscRegs, MscStatus, FLASH_BASE, FLASH_SIZE, PAGE_SIZE,
};

fn done() -> MscStatus {
    MscStatus { invaddr: false, locked: false, reglock: false, busy: false, pending: false, wdataready: true }
}

fn setup() -> (Flash, FlashMem, MscRegs) {
    let mut cmu = CmuRegs::reset();
    let mut msc = MscRegs { locked: true, wren: true };
    let flash = Flash::new(&mut cmu, &mut msc);
    assert!(cmu.clken1.msc);
    assert_eq!(msc, MscRegs { locked: false, wren: false });
    (flash, FlashMem::erased(), msc)
}

#[test]
fn geometry() {
    let (flash, _, _) = setup();
    assert_eq!(flash.base_address(), 0x0800_0000);
    assert_eq!(flash.capacity(), 1536 * 1024);
    assert_eq!(flash.page_size(), 0x2000);
    assert_eq!(flash.main_flash_region(), FlashRegion { base: FLASH_BASE, size: FLASH_SIZE });
    assert!(flash.is_valid_address(FLASH_BASE, FLASH_SIZE));
    assert!(!flash.is_valid_address(FLASH_BASE, FLASH_SIZE + 1));
    assert!(!flash.is_valid_address(FLASH_BASE - 1, 1));
    assert!(!flash.is_valid_address(FLASH_BASE + FLASH_SIZE, 0));
}

#[test]
fn write_then_read_back() {
    let (mut flash, mut mem, mut msc) = setup();
    let addr = FLASH_BASE + 2 * PAGE_SIZE;
    let data = [0x78u8, 0x56, 0x34, 0x12, 0xEF, 0xBE, 0xAD, 0xDE];
    assert_eq!(flash.write(addr, &data, &mut mem, &mut msc, &mut Vec::new(), done), Ok(()));
    let mut buf = [0u8; 8];
    assert_eq!(flash.read(addr, &mut buf, &mem), Ok(()));
    assert_eq!(buf, data);
    assert_eq!(flash.verify(addr, &data, &mem), Ok(true));
    assert_eq!(flash.verify(addr, &[0u8; 8], &mem), Ok(false));
    assert_eq!(msc, MscRegs { locked: false, wren: false });
}

#[test]
fn write_across_page_boundary() {
    let (mut flash, mut mem, mut msc) = setup();
    let addr = FLASH_BASE + PAGE_SIZE - 4;
    let data = [1u8, 2, 3, 4, 5, 6, 7, 8];
    let mut bursts = Vec::new();
    assert_eq!(flash.write(addr, &data, &mut mem, &mut msc, &mut bursts, done), Ok(()));
    assert_eq!(bursts, vec![(addr, 4), (FLASH_BASE + PAGE_SIZE, 4)]);
    let mut buf = [0u8; 8];
    flash.read(addr, &mut buf, &mem).unwrap();
    assert_eq!(buf, data);
}

#[test]
fn programming_only_clears_bits() {
    let (mut flash, mut mem, mut msc) = setup();
    let addr = FLASH_BASE;
    flash.write(addr, &[0xF0, 0xF0, 0xF0, 0xF0], &mut mem, &mut msc, &mut Vec::new(), done).unwrap();
    flash.write(addr, &[0x3C, 0xFF, 0x0F, 0x00], &mut mem, &mut msc, &mut Vec::new(), done).unwrap();
    let mut buf = [0u8; 4];
    flash.read(addr, &mut buf, &mem).unwrap();
    assert_eq!(buf, [0x30, 0xF0, 0x00, 0x00]);
}

#[test]
fn erase_restores_ones() {
    let (mut flash, mut mem, mut msc) = setup();
    let addr = FLASH_BASE + PAGE_SIZE;
    flash.write(addr + 16, &[0, 0, 0, 0], &mut mem, &mut msc, &mut Vec::new(), done).unwrap();
    assert_eq!(flash.is_erased(addr, PAGE_SIZE, &mem), Ok(false));
    let mut pages = Vec::new();
    assert_eq!(flash.erase(addr, PAGE_SIZE, &mut mem, &mut msc, &mut pages, done), Ok(()));
    assert_eq!(pages, vec![addr]);
    assert_eq!(flash.is_erased(addr, PAGE_SIZE, &mem), Ok(true));
}

#[test]
fn alignment_errors() {
    let (mut flash, mut mem, mut msc) = setup();
    assert_eq!(flash.erase(FLASH_BASE + 4, PAGE_SIZE, &mut mem, &mut msc, &mut Vec::new(), done), Err(Error::Alignment));
    assert_eq!(flash.erase(FLASH_BASE, 100, &mut mem, &mut msc, &mut Vec::new(), done), Err(Error::Alignment));
    assert_eq!(flash.write(FLASH_BASE + 2, &[0; 4], &mut mem, &mut msc, &mut Vec::new(), done), Err(Error::Alignment));
    assert_eq!(flash.write(FLASH_BASE, &[0; 3], &mut mem, &mut msc, &mut Vec::new(), done), Err(Error::Alignment));
}

#[test]
fn range_errors() {
    let (mut flash, mut mem, mut msc) = setup();
    let mut buf = [0u8; 4];
    assert_eq!(flash.read(0x0000_1000, &mut buf, &mem), Err(Error::InvalidAddress));
    assert_eq!(flash.write(FLASH_BASE + FLASH_SIZE - 4, &[0; 8], &mut mem, &mut msc, &mut Vec::new(), done), Err(Error::InvalidAddress));
    assert_eq!(flash.erase(FLASH_BASE + FLASH_SIZE, PAGE_SIZE, &mut mem, &mut msc, &mut Vec::new(), done), Err(Error::InvalidAddress));
    assert_eq!(flash.verify(0, &[1], &mem), Err(Error::InvalidAddress));
    assert_eq!(flash.is_erased(FLASH_BASE + FLASH_SIZE, 4, &mem), Err(Error::InvalidAddress));
}

#[test]
fn empty_write_is_ok() {
    let (mut flash, mut mem, mut msc) = setup();
    assert_eq!(flash.write(FLASH_BASE, &[], &mut mem, &mut msc, &mut Vec::new(), done), Ok(()));
}

#[test]
fn controller_errors_end_the_operation() {
    let (mut flash, mut mem, mut msc) = setup();
    let locked = || MscStatus { locked: true, ..done() };
    assert_eq!(flash.erase(FLASH_BASE, PAGE_SIZE, &mut mem, &mut msc, &mut Vec::new(), locked), Err(Error::Locked));
    let invalid = || MscStatus { invaddr: true, ..done() };
    assert_eq!(flash.write(FLASH_BASE, &[0; 4], &mut mem, &mut msc, &mut Vec::new(), invalid), Err(Error::InvalidAddress));
    assert_eq!(flash.is_erased(FLASH_BASE, 4, &mem), Ok(true));
    let busy = || MscStatus { busy: true, ..done() };
    assert_eq!(flash.erase(FLASH_BASE, PAGE_SIZE, &mut mem, &mut msc, &mut Vec::new(), busy), Err(Error::Timeout));
    assert!(!msc.wren);
}

#[test]
fn release_locks() {
    let (flash, _, mut msc) = setup();
    flash.release(&mut msc);
    assert_eq!(msc, MscRegs { locked: true, wren: false });
}

#[test]
fn erase_issues_pages_in_order() {
    let (mut flash, mut mem, mut msc) = setup();
    let mut pages = Vec::new();
    assert_eq!(flash.erase(FLASH_BASE + PAGE_SIZE, 3 * PAGE_SIZE, &mut mem, &mut msc, &mut pages, done), Ok(()));
    assert_eq!(pages, vec![FLASH_BASE + PAGE_SIZE, FLASH_BASE + 2 * PAGE_SIZE, FLASH_BASE + 3 * PAGE_SIZE]);
    let mut none = Vec::new();
    assert_eq!(flash.erase(FLASH_BASE, 0, &mut mem, &mut msc, &mut none, done), Ok(()));
    assert!(none.is_empty());
    let invalid = || MscStatus { invaddr: true, ..done() };
    let mut refused = Vec::new();
    assert_eq!(flash.erase(FLASH_BASE, PAGE_SIZE, &mut mem, &mut msc, &mut refused, invalid), Err(Error::InvalidAddress));
    assert!(refused.is_empty());
}
