use memory_addr::VirtAddr;
use task_context::{HartState, TaskContext};

fn fields(c: &TaskContext) -> [usize; 15] {
    [
        c.ra, c.sp, c.s0, c.s1, c.s2, c.s3, c.s4, c.s5, c.s6, c.s7, c.s8, c.s9, c.s10, c.s11, c.tp,
    ]
}

fn from_fields(v: [usize; 15]) -> TaskContext {
    TaskContext {
        ra: v[0],
        sp: v[1],
        s0: v[2],
        s1: v[3],
        s2: v[4],
        s3: v[5],
        s4: v[6],
        s5: v[7],
        s6: v[8],
        s7: v[9],
        s8: v[10],
        s9: v[11],
        s10: v[12],
        s11: v[13],
        tp: v[14],
    }
}

fn hart_with(pc: usize, base: usize) -> HartState {
    let mut v = [0usize; 15];
    for (i, x) in v.iter_mut().enumerate() {
        *x = base + i;
    }
    HartState { pc, regs: from_fields(v) }
}

#[test]
fn new_record_is_all_zero() {
    assert_eq!(fields(&TaskContext::new()), [0; 15]);
    assert_eq!(fields(&TaskContext::default()), [0; 15]);
}

#[test]
fn init_sets_entry_stack_and_tls_only() {
    let mut c = TaskContext::new();
    c.init(0x1000, VirtAddr::from_usize(0x2000), VirtAddr::from_usize(0x3000));
    assert_eq!(c.ra, 0x1000);
    assert_eq!(c.sp, 0x2000);
    assert_eq!(c.tp, 0x3000);
    assert_eq!(&fields(&c)[2..14], &[0; 12]);
}

#[test]
fn init_keeps_callee_saved_registers() {
    let mut c = from_fields([9; 15]);
    c.init(1, VirtAddr::from_usize(2), VirtAddr::from_usize(3));
    assert_eq!(fields(&c), [1, 2, 9, 9, 9, 9, 9, 9, 9, 9, 9, 9, 9, 9, 3]);
}

#[test]
fn saved_fp_and_pc() {
    let mut c = TaskContext::new();
    c.s0 = 0xdead;
    c.ra = 0xbeef;
    assert_eq!(c.thread_saved_fp(), 0xdead);
    assert_eq!(c.thread_saved_pc(), 0xbeef);
}

#[test]
fn switch_saves_current_and_loads_next() {
    let mut hart = hart_with(0x500, 100);
    let mut current = TaskContext::new();
    let next = from_fields([
        0x8000, 0x9000, 1, 2, 3, 4, 5, 6, 7, 8, 9, 10, 11, 12, 0x7000,
    ]);
    hart.context_switch(&mut current, &next);
    assert_eq!(
        fields(&current),
        [100, 101, 102, 103, 104, 105, 106, 107, 108, 109, 110, 111, 112, 113, 114]
    );
    assert_eq!(fields(&hart.regs), fields(&next));
    assert_eq!(hart.pc, 0x8000);
}

#[test]
fn first_resume_starts_at_entry() {
    let mut a = TaskContext::new();
    let _b = TaskContext::new();
    a.init(0x1000, VirtAddr::from_usize(0x2000), VirtAddr::from_usize(0x3000));
    let mut scratch = TaskContext::new();
    let mut hart = hart_with(0x40, 50);
    hart.call_context_switch(0x44, &mut scratch, &a);
    assert_eq!(hart.pc, 0x1000);
    assert_eq!(hart.regs.sp, 0x2000);
    assert_eq!(hart.regs.tp, 0x3000);
    assert_eq!(&fields(&hart.regs)[2..14], &[0; 12]);
}

#[test]
fn saved_pc_is_after_call_site() {
    let mut hart = hart_with(0x40, 50);
    let mut current = TaskContext::new();
    let next = from_fields([0x8000; 15]);
    hart.call_context_switch(0x1234, &mut current, &next);
    assert_eq!(current.thread_saved_pc(), 0x1234);
    assert_eq!(current.sp, 51);
}

#[test]
fn round_trip_restores_registers() {
    let mut hart = hart_with(0x40, 200);
    let before = fields(&hart.regs);
    let mut a = TaskContext::new();
    let mut b = TaskContext::new();
    b.init(0x6000, VirtAddr::from_usize(0x7000), VirtAddr::from_usize(0x7100));

    hart.call_context_switch(0x48, &mut a, &b);
    assert_eq!(hart.pc, 0x6000);
    // task B runs and changes every register
    hart.regs = from_fields([77; 15]);
    hart.call_context_switch(0x6010, &mut b, &a);

    assert_eq!(hart.pc, 0x48);
    assert_eq!(&fields(&hart.regs)[1..], &before[1..]);
    assert_eq!(b.ra, 0x6010);
    assert_eq!(b.sp, 77);
}

#[test]
fn switch_leaves_other_records_alone() {
    let mut hart = hart_with(0x40, 300);
    let mut a = TaskContext::new();
    let b = from_fields([5; 15]);
    let c = from_fields([6; 15]);
    hart.context_switch(&mut a, &b);
    assert_eq!(fields(&c), [6; 15]);
    assert_eq!(fields(&b), [5; 15]);
}
