use rcore_os::rustos::timeshare::{Effect, TimeShare};
use rcore_os::rustos::{TASK_EXITED, TASK_FAULTED, TASK_READY, TASK_RUNNING, USER_STACK_SIZE};

const BASE: usize = 0x8040_0000;
const STEP: usize = 0x2_0000;
const STACKS: usize = 0x8100_0000;

fn boot(count: usize) -> (TimeShare, Vec<Effect>) {
    let mut k = TimeShare::new(BASE, STEP, count, STACKS);
    let mut fx = Vec::new();
    assert!(k.init_tasks(&mut fx, 0x100));
    k.run_first_task();
    (k, fx)
}

fn call(k: &mut TimeShare, fx: &mut Vec<Effect>, n: usize, a: [usize; 3]) -> Option<usize> {
    let cur = k.current;
    k.tasks[cur].context.x[17] = n;
    k.tasks[cur].context.x[10] = a[0];
    k.tasks[cur].context.x[11] = a[1];
    k.tasks[cur].context.x[12] = a[2];
    k.rust_trap(fx, 8)
}

#[test]
fn every_application_becomes_a_ready_task() {
    let (k, fx) = boot(3);
    assert_eq!(k.task_count, 3);
    assert_eq!(
        fx,
        vec![
            Effect::LoadApp { app: 0, base: BASE, limit: STEP },
            Effect::LoadApp { app: 1, base: BASE + STEP, limit: STEP },
            Effect::LoadApp { app: 2, base: BASE + 2 * STEP, limit: STEP },
        ]
    );
    assert_eq!(k.tasks[0].status, TASK_RUNNING);
    assert_eq!(k.tasks[1].status, TASK_READY);
    assert_eq!(k.tasks[1].context.sepc, BASE + STEP);
    assert_eq!(k.tasks[1].context.x[2], STACKS + 2 * USER_STACK_SIZE);
    assert_eq!(k.tasks[1].context.sstatus, 0x20);
    assert_eq!(k.tasks[2].limit, BASE + 3 * STEP);
}

#[test]
fn no_application_means_no_task() {
    let mut k = TimeShare::new(BASE, STEP, 0, STACKS);
    let mut fx = Vec::new();
    assert!(!k.init_tasks(&mut fx, 0));
    assert!(fx.is_empty());
}

#[test]
fn yield_and_timer_pass_the_processor_round_robin() {
    let (mut k, mut fx) = boot(3);
    assert_eq!(call(&mut k, &mut fx, 124, [0, 0, 0]), Some(1));
    assert_eq!(k.tasks[0].status, TASK_READY);
    assert_eq!(k.tasks[0].context.x[10], 0);
    assert_eq!(k.rust_trap(&mut fx, 5 | (1usize << 63)), Some(2));
    assert_eq!(k.rust_trap(&mut fx, 5 | (1usize << 63)), Some(0));
    assert_eq!(k.tasks[0].status, TASK_RUNNING);
}

#[test]
fn exit_and_faults_end_tasks_until_none_is_left() {
    let (mut k, mut fx) = boot(2);
    assert_eq!(call(&mut k, &mut fx, 93, [7, 0, 0]), Some(1));
    assert_eq!(k.tasks[0].status, TASK_EXITED);
    assert_eq!(k.tasks[0].exit_code, 7);
    assert_eq!(k.rust_trap(&mut fx, 13), None);
    assert_eq!(k.tasks[1].status, TASK_FAULTED);
    assert_eq!(k.tasks[1].exit_code, -1);
}

#[test]
fn write_checks_descriptor_and_range() {
    let (mut k, mut fx) = boot(1);
    fx.clear();
    assert_eq!(call(&mut k, &mut fx, 64, [1, BASE + 0x10, 4]), Some(0));
    assert_eq!(fx, vec![Effect::Print { from: BASE + 0x10, len: 4 }]);
    assert_eq!(k.tasks[0].context.x[10], 4);
    call(&mut k, &mut fx, 64, [2, STACKS + 8, 8]);
    assert_eq!(k.tasks[0].context.x[10], 8);
    call(&mut k, &mut fx, 64, [3, BASE, 4]);
    assert_eq!(k.tasks[0].context.x[10] as isize, -1);
    call(&mut k, &mut fx, 64, [1, BASE + STEP - 2, 4]);
    assert_eq!(k.tasks[0].context.x[10] as isize, -1);
    assert_eq!(fx.len(), 2);
}

#[test]
fn clock_stores_seconds_and_microseconds() {
    let (mut k, mut fx) = boot(1);
    fx.clear();
    for _ in 0..11 {
        call(&mut k, &mut fx, 113, [0, BASE + 0x100, 0]);
        assert_eq!(k.tasks[0].context.x[10], 0);
    }
    assert_eq!(fx.last(), Some(&Effect::StoreTime { at: BASE + 0x100, sec: 1, usec: 100_000 }));
    call(&mut k, &mut fx, 113, [0, BASE + 0x104, 0]);
    assert_eq!(k.tasks[0].context.x[10] as isize, -1);
    assert_eq!(k.monotonic_us, 1_100_000);
}

#[test]
fn unknown_calls_return_minus_one() {
    let (mut k, mut fx) = boot(1);
    let pc = k.tasks[0].context.sepc;
    assert_eq!(call(&mut k, &mut fx, 4242, [0, 0, 0]), Some(0));
    assert_eq!(k.tasks[0].context.x[10] as isize, -1);
    assert_eq!(k.tasks[0].context.sepc, pc + 4);
}
