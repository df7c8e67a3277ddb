use embassy_silabs::cmu::CmuRegs;
use embassy_silabs::ldma::{on_interrupt, Config, Descriptor, Error, Ldma, LdmaRegs, TransferConfig};

fn regs() -> LdmaRegs {
    LdmaRegs {
        en: false,
        numfixed: 0,
        chdis: 0,
        dbghalt: 0,
        reqdis: 0,
        ien: 0,
        if_flags: 0,
        chdone: 0,
        linkload: 0,
        ch_cfg: [0; 8],
        ch_ctrl: [0; 8],
        ch_link: [0; 8],
        xbar_reqsel: [0; 8],
    }
}

#[test]
fn controller_setup() {
    let mut cmu = CmuRegs::reset();
    let mut r = regs();
    let ldma = Ldma::new(Config { num_fixed_priority: 2 }, &mut cmu, &mut r);
    assert_eq!(ldma.alloc, 0);
    assert!(cmu.clken0.ldma && cmu.clken0.ldmaxbar);
    assert!(r.en);
    assert_eq!(r.numfixed, 2);
    assert_eq!(r.chdis, 0xFF);
}

#[test]
fn channels_allocate_lowest_first_and_release() {
    let mut cmu = CmuRegs::reset();
    let mut r = regs();
    let mut ldma = Ldma::new(Config::default(), &mut cmu, &mut r);
    let a = ldma.allocate_channel().unwrap();
    let b = ldma.allocate_channel().unwrap();
    assert_eq!(a.index(), 0);
    assert_eq!(b.index(), 1);
    ldma.release_channel(a);
    let c = ldma.allocate_channel().unwrap();
    assert_eq!(c.index(), 0);
    let mut held = Vec::new();
    while let Some(ch) = ldma.allocate_channel() {
        held.push(ch);
    }
    assert_eq!(held.len(), 6);
    assert_eq!(ldma.alloc, 0xFF);
}

#[test]
fn descriptors_and_counts() {
    let cfg = TransferConfig::default();
    let d = Descriptor::memory_to_memory(0x2000_0000, 0x2000_1000, 16, &cfg);
    assert_eq!(d.src, 0x2000_0000);
    assert_eq!(d.dst, 0x2000_1000);
    assert_eq!((d.ctrl >> 4) & 0x7FF, 15);
    let mut d2 = d;
    d2.link_to(0x2000_2000);
    assert_eq!(d2.link, 0x2000_2001);
    assert_eq!(Ldma::memory_transfer_descriptor(0, 4, 0, 5, 1), Err(Error::CountTooLarge));
    assert_eq!(Ldma::memory_transfer_descriptor(0, 0, 0, 0, 1), Err(Error::CountTooLarge));
    assert_eq!(Ldma::memory_transfer_descriptor(0, 4, 0, 4, 3), Err(Error::CountTooLarge));
    assert_eq!(Ldma::memory_transfer_descriptor(0, 2049, 0, 2049, 1), Err(Error::CountTooLarge));
    assert!(Ldma::memory_transfer_descriptor(0, 2048, 0, 2048, 4).is_ok());
}

#[test]
fn transfer_progress() {
    let mut cmu = CmuRegs::reset();
    let mut r = regs();
    let mut ldma = Ldma::new(Config::default(), &mut cmu, &mut r);
    let ch = ldma.allocate_channel().unwrap();
    assert_eq!(ldma.start_transfer_with_descriptor(&mut r, &ch, 0x2000_0040), Ok(()));
    r.ch_ctrl[0] = Descriptor::memory_to_memory(0, 0, 10, &TransferConfig::default()).ctrl;
    r.chdone = 0;
    r.if_flags = 0;
    assert_eq!(ldma.remaining_count(&r, &ch), 10);
    assert_eq!(ldma.poll_complete(&mut r, &ch), None);
    r.chdone = 1;
    assert!(ldma.is_complete(&r, &ch));
    assert_eq!(ldma.remaining_count(&r, &ch), 0);
    assert_eq!(ldma.poll_complete(&mut r, &ch), Some(Ok(())));
    assert_eq!(r.chdone, 0);
    r.if_flags = 1 << 31;
    assert_eq!(ldma.poll_complete(&mut r, &ch), Some(Err(Error::TransferError)));
}

#[test]
fn interrupt_wakes_done_channels() {
    let mut r = regs();
    r.if_flags = 0b101;
    assert_eq!(on_interrupt(&mut r), 0b101);
    assert_eq!(r.if_flags, 0);
    r.if_flags = 1 << 31;
    assert_eq!(on_interrupt(&mut r), 0xFF);
    assert_eq!(r.if_flags, 0);
}

#[test]
fn controller_release_disables_everything() {
    let mut cmu = CmuRegs::reset();
    let mut r = regs();
    let ldma = Ldma::new(Config::default(), &mut cmu, &mut r);
    r.ien = 0x0F;
    ldma.release(&mut r);
    assert_eq!(r.chdis, 0xFF);
    assert_eq!(r.ien, 0);
    assert!(!r.en);
}

#[test]
fn blocking_transfer_starts_and_settles() {
    let mut cmu = CmuRegs::reset();
    let mut r = regs();
    let mut ldma = Ldma::new(Config::default(), &mut cmu, &mut r);
    let ch = ldma.allocate_channel().unwrap();
    let placed = std::cell::Cell::new(None);
    let place = |d: Descriptor| {
        placed.set(Some(d));
        0x2000_0101
    };
    let src = [1u32, 2, 3, 4];
    let mut dst = [0u32; 4];
    let ok = ldma.transfer_blocking(&mut r, &ch, 0x2000_0000, &src, 0x2000_0400, &mut dst, place, || (1 << ch.index(), 0));
    assert_eq!(ok, Ok(()));
    assert_eq!(dst, [1, 2, 3, 4]);
    let d = placed.get().unwrap();
    assert_eq!((d.src, d.dst), (0x2000_0000, 0x2000_0400));
    assert_eq!((d.ctrl >> 4) & 0x7FF, 3);
    assert_eq!(r.ch_link[ch.index() as usize], 0x2000_0100);
    assert_eq!(r.chdone & (1 << ch.index()), 0);
    assert_eq!(r.if_flags, 1 << ch.index());
    let mut dst2 = [0u32; 4];
    let failed = ldma.transfer_blocking(&mut r, &ch, 0x2000_0000, &src, 0x2000_0400, &mut dst2, |_d| 0x2000_0100, || (0, 1 << 31));
    assert_eq!(failed, Err(Error::TransferError));
    assert_eq!(r.if_flags, 1 << 31);
    let before = r;
    let mut short = [9u32; 3];
    assert_eq!(
        ldma.transfer_blocking(&mut r, &ch, 0x2000_0000, &src, 0x2000_0400, &mut short, |_d| 0, || (0, 0)),
        Err(Error::CountTooLarge)
    );
    assert_eq!(short, [9, 9, 9]);
    assert_eq!(r, before);
    let wide = [0u64; 2];
    let mut wide_dst = [0u64; 2];
    assert_eq!(
        ldma.transfer_blocking(&mut r, &ch, 0x2000_0000, &wide, 0x2000_0400, &mut wide_dst, |_d| 0, || (0, 0)),
        Err(Error::CountTooLarge)
    );
}
