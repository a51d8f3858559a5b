#[test]
fn x86_64_set_pc_touches_only_the_resume_slot() {
    let mut c = green_future::x86_64::ThreadContext::zeroed();
    c.set_pc(0xdead_0000);
    assert_eq!(c.rip, 0xdead_0000);
    assert_eq!(c.rbx, 0);
    assert_eq!(c.rbp, 0);
    assert_eq!(c.r12, 0);
    assert_eq!(c.r13, 0);
    assert_eq!(c.r14, 0);
    assert_eq!(c.r15, 0);
    c.set_pc(0x1000);
    assert_eq!(c.rip, 0x1000);
}

#[test]
fn riscv_set_pc_touches_only_the_return_address() {
    let mut c = green_future::riscv::ThreadContext::zeroed();
    c.set_pc(0xdead_0000);
    assert_eq!(c.ra, 0xdead_0000);
    assert_eq!(c.s, [0usize; 12]);
}

#[test]
fn aarch64_set_pc_touches_only_the_link_register() {
    let mut c = green_future::aarch64::ThreadContext::zeroed();
    c.set_pc(0xdead_0000);
    assert_eq!(c.lr, 0xdead_0000);
    assert_eq!(c.x19to29, [0usize; 11]);
}
