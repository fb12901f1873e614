use tock::mpu::{Mpu, BASE_ADDRESS};
use tock::process::{AppId, AppPtr, AppSlice, Private, Process, Shared};

#[test]
fn mpu_regions_field() {
    let m = Mpu::new();
    assert_eq!(m.regs, BASE_ADDRESS);
    assert_eq!(m.type_register(), 0xE000ED90);
    assert_eq!(m.num_regions(0x0000_0800), 8);
    assert_eq!(m.num_regions(0xffff_10ff), 0x10);
}

#[test]
fn app_slices() {
    let s: AppSlice<Shared, u8> = AppSlice::new(0x2000, 16, AppId::new(0));
    assert_eq!(s.len(), 16);
    assert_eq!(s.ptr.addr, 0x2000);
    let p: AppPtr<Private, u32> = AppPtr::new(0x44, AppId::new(0));
    assert_eq!(p.process.idx(), 0);
}

#[test]
fn exposed_bounds() {
    let p = Process::create(100, 200, 1);
    assert!(p.in_exposed_bounds(100, 100));
    assert!(p.in_exposed_bounds(200, 0));
    assert!(!p.in_exposed_bounds(99, 1));
    assert!(!p.in_exposed_bounds(150, 51));
    assert!(!p.in_exposed_bounds(201, 0));
}
