use rcore_os::rustos::batch::{entry_sstatus, Batch, Effect, Launch};
use rcore_os::rustos::TrapContext;

const TOPS: [usize; 8] = [0x1000, 0x2000, 0x3000, 0x4000, 0x5000, 0x6000, 0x7000, 0x8000];

fn batch(count: usize) -> Batch {
    Batch::new(0x8040_0000, 0x2_0000, count, 0x9000, 0x8020_0100, TOPS)
}

fn ecall(n: usize, a0: usize, a1: usize, a2: usize) -> TrapContext {
    let mut cx = TrapContext::empty();
    cx.x[17] = n;
    cx.x[10] = a0;
    cx.x[11] = a1;
    cx.x[12] = a2;
    cx.sepc = 0x8040_0010;
    cx.sstatus = 0x2;
    cx
}

#[test]
fn programs_are_loaded_one_after_the_other() {
    let mut b = batch(3);
    let mut fx = Vec::new();
    assert_eq!(b.run_next_program(&mut fx), Some(Launch { entry: 0x8040_0000, user_sp: 0x1000 }));
    assert_eq!(fx, vec![Effect::LoadApp { app: 0, base: 0x8040_0000 }]);
    let mut cx = ecall(93, 5, 0, 0);
    b.rust_trap(&mut cx, &mut fx, 8);
    assert_eq!(b.current_program, 1);
    assert_eq!(cx.x[10], 5);
    assert_eq!(cx.x[2], 0x9000);
    assert_eq!(cx.sepc, 0x8020_0100);
    assert_eq!(cx.sstatus, 0x122);
    let mut fx = Vec::new();
    assert_eq!(b.run_next_program(&mut fx), Some(Launch { entry: 0x8042_0000, user_sp: 0x2000 }));
}

#[test]
fn the_batch_ends_after_the_last_program() {
    let mut b = batch(1);
    let mut fx = Vec::new();
    let mut cx = ecall(93, 0, 0, 0);
    b.rust_trap(&mut cx, &mut fx, 8);
    assert_eq!(b.run_next_program(&mut fx), None);
    assert!(fx.is_empty());
}

#[test]
fn at_most_eight_programs_run_and_late_ones_share_the_last_stack() {
    let mut b = batch(20);
    assert_eq!(b.app_count(), 8);
    assert_eq!(b.user_stack_top(7), 0x8000);
    assert_eq!(b.user_stack_top(9), 0x8000);
    b.current_program = 8;
    let mut fx = Vec::new();
    assert_eq!(b.run_next_program(&mut fx), None);
}

#[test]
fn write_prints_only_to_stdout() {
    let mut b = batch(2);
    let mut fx = Vec::new();
    let mut cx = ecall(64, 1, 0x8040_0100, 5);
    b.rust_trap(&mut cx, &mut fx, 8);
    assert_eq!(fx, vec![Effect::Print { from: 0x8040_0100, len: 5 }]);
    assert_eq!(cx.x[10], 5);
    assert_eq!(cx.sepc, 0x8040_0014);
    assert_eq!(b.current_program, 0);
    let mut cx = ecall(64, 2, 0x8040_0100, 5);
    b.rust_trap(&mut cx, &mut fx, 8);
    assert_eq!(cx.x[10] as isize, -1);
    assert_eq!(fx.len(), 1);
}

#[test]
fn faults_and_unknown_calls_end_the_program() {
    let mut b = batch(4);
    let mut fx = Vec::new();
    let mut cx = ecall(0, 0, 0, 0);
    b.rust_trap(&mut cx, &mut fx, 2);
    assert_eq!(cx.x[10], 0);
    let mut cx = ecall(0, 0, 0, 0);
    b.rust_trap(&mut cx, &mut fx, 15 | (1usize << 63));
    assert_eq!(cx.x[10], 0);
    let mut cx = ecall(0, 0, 0, 0);
    b.rust_trap(&mut cx, &mut fx, 13);
    assert_eq!(cx.x[10], 1);
    let mut cx = ecall(200, 0, 0, 0);
    b.rust_trap(&mut cx, &mut fx, 8);
    assert_eq!(cx.x[10] as isize, -1);
    assert_eq!(b.current_program, 4);
    assert!(fx.is_empty());
}

#[test]
fn programs_enter_user_mode_with_interrupts_on_return() {
    assert_eq!(entry_sstatus(0x100), 0x20);
    assert_eq!(entry_sstatus(0x2), 0x22);
}
