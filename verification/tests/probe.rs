use ebsentinel_core::probe::{bump, ebsentinel, slot, try_sys_enter, SysEnter};

#[test]
fn a_call_of_the_monitored_process_is_counted() {
    let mut counters = vec![0u64; 512];
    let status = ebsentinel(SysEnter { pid: 77, syscall_id: 59 }, Some(77), &mut counters);
    assert_eq!(status, 0);
    let mut expected = vec![0u64; 512];
    expected[59] = 1;
    assert_eq!(counters, expected);
}

#[test]
fn every_call_counts_once() {
    let mut counters = vec![0u64; 512];
    for _ in 0..100 {
        assert_eq!(ebsentinel(SysEnter { pid: 9, syscall_id: 1 }, Some(9), &mut counters), 0);
    }
    ebsentinel(SysEnter { pid: 9, syscall_id: 0 }, Some(9), &mut counters);
    assert_eq!(counters[1], 100);
    assert_eq!(counters[0], 1);
    assert_eq!(counters.iter().sum::<u64>(), 101);
}

#[test]
fn a_call_of_another_process_is_passed_over() {
    let mut counters = vec![3u64; 8];
    let status = ebsentinel(SysEnter { pid: 78, syscall_id: 2 }, Some(77), &mut counters);
    assert_eq!(status, 0);
    assert_eq!(counters, vec![3u64; 8]);
}

#[test]
fn nothing_is_counted_before_a_pid_is_set() {
    let mut counters = vec![3u64; 8];
    let status = ebsentinel(SysEnter { pid: 0, syscall_id: 2 }, None, &mut counters);
    assert_eq!(status, 0);
    assert_eq!(counters, vec![3u64; 8]);
}

#[test]
fn a_syscall_number_outside_the_table_is_passed_over() {
    let mut counters = vec![0u64; 512];
    assert_eq!(ebsentinel(SysEnter { pid: 5, syscall_id: 512 }, Some(5), &mut counters), 0);
    assert_eq!(ebsentinel(SysEnter { pid: 5, syscall_id: -1 }, Some(5), &mut counters), 0);
    assert_eq!(ebsentinel(SysEnter { pid: 5, syscall_id: i64::MIN + 600 }, Some(5), &mut counters), 0);
    assert_eq!(counters, vec![0u64; 512]);
}

#[test]
fn the_low_32_bits_select_the_counter() {
    let mut counters = vec![0u64; 512];
    ebsentinel(SysEnter { pid: 5, syscall_id: 0x1_0000_0000 + 17 }, Some(5), &mut counters);
    ebsentinel(SysEnter { pid: 5, syscall_id: -0x1_0000_0000 + 18 }, Some(5), &mut counters);
    assert_eq!(counters[17], 1);
    assert_eq!(counters[18], 1);
    assert_eq!(counters.iter().sum::<u64>(), 2);
}

#[test]
fn a_full_counter_wraps_to_zero() {
    let mut counters = vec![u64::MAX, 7];
    assert_eq!(ebsentinel(SysEnter { pid: 1, syscall_id: 0 }, Some(1), &mut counters), 0);
    assert_eq!(counters, vec![0u64, 7]);
}

#[test]
fn the_inner_hook_never_fails() {
    let mut counters = vec![0u64; 4];
    assert_eq!(try_sys_enter(SysEnter { pid: 1, syscall_id: 3 }, Some(1), &mut counters), Ok(0));
    assert_eq!(try_sys_enter(SysEnter { pid: 2, syscall_id: 3 }, Some(1), &mut counters), Ok(0));
    assert_eq!(try_sys_enter(SysEnter { pid: 1, syscall_id: 4 }, Some(1), &mut counters), Ok(0));
    assert_eq!(try_sys_enter(SysEnter { pid: 1, syscall_id: 3 }, None, &mut counters), Ok(0));
    assert_eq!(counters, vec![0u64, 0, 0, 1]);
}

#[test]
fn a_dropped_event_still_reports_success() {
    assert_eq!(ebsentinel_core::probe::panic(), 0);
}

#[test]
fn slot_is_the_low_half_of_the_syscall_number() {
    assert_eq!(slot(SysEnter { pid: 3, syscall_id: 59 }, Some(3)), Some(59));
    assert_eq!(slot(SysEnter { pid: 3, syscall_id: -1 }, Some(3)), Some(u32::MAX));
    assert_eq!(slot(SysEnter { pid: 3, syscall_id: 0x7_0000_0002 }, Some(3)), Some(2));
    assert_eq!(slot(SysEnter { pid: 3, syscall_id: i64::MIN }, Some(3)), Some(0));
}

#[test]
fn slot_is_none_for_other_processes() {
    assert_eq!(slot(SysEnter { pid: 4, syscall_id: 59 }, Some(3)), None);
    assert_eq!(slot(SysEnter { pid: 3, syscall_id: 59 }, None), None);
}

#[test]
fn bump_adds_one_and_wraps() {
    assert_eq!(bump(0), 1);
    assert_eq!(bump(41), 42);
    assert_eq!(bump(u64::MAX - 1), u64::MAX);
    assert_eq!(bump(u64::MAX), 0);
}
