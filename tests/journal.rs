use wasix_journal::journal::{
    Journal, JournalEffector, JournalEntry, RestoreError, ThreadStartType, WasiMemoryLayout,
};

fn layout() -> WasiMemoryLayout {
    WasiMemoryLayout {
        stack_upper: 0x10000,
        stack_lower: 0x8000,
        guard_size: 0x1000,
        stack_size: 0x8000,
    }
}

fn entry_id(e: &JournalEntry) -> u32 {
    match e {
        JournalEntry::SetThreadV1 { id, .. } => *id,
    }
}

#[test]
fn appends_keep_count_and_order() {
    let mut j = Journal::new();
    for id in 0..5u32 {
        JournalEffector::save_thread_state(
            &mut j,
            id,
            vec![id as u8],
            vec![],
            vec![],
            ThreadStartType::ThreadSpawn { start_ptr: id as u64 },
            layout(),
            false,
        );
    }
    assert_eq!(j.len(), 5);
    for i in 0..5usize {
        assert_eq!(entry_id(j.get(i)), i as u32);
    }
    assert_eq!(j.entries().len(), 5);
}

#[test]
fn main_thread_is_not_restored() {
    for is_64bit in [false, true] {
        let r = JournalEffector::apply_thread_state(
            1,
            vec![1, 2],
            vec![3],
            vec![4],
            ThreadStartType::MainThread,
            layout(),
            is_64bit,
        );
        assert_eq!(r.err(), Some(RestoreError::UnsupportedRestorePath));
    }
}

#[test]
fn wide_entry_point_overflows_on_32_bit() {
    let start = ThreadStartType::ThreadSpawn { start_ptr: 0x1_0000_0000 };
    let r = JournalEffector::apply_thread_state(2, vec![], vec![], vec![], start, layout(), false);
    assert_eq!(r.err(), Some(RestoreError::AddressOverflow));
    let ok = JournalEffector::apply_thread_state(
        2,
        vec![9; 16],
        vec![8; 4],
        vec![7],
        start,
        layout(),
        true,
    )
    .unwrap();
    assert_eq!(ok.start_ptr, 0x1_0000_0000);
    assert_eq!(ok.memory_stack, vec![9; 16]);
    assert_eq!(ok.call_stack, vec![8; 4]);
    assert_eq!(ok.store_data, vec![7]);
    assert_eq!(ok.layout, layout());
    assert_eq!(ok.id, 2);
}

#[test]
fn largest_32_bit_entry_point_fits() {
    let start = ThreadStartType::ThreadSpawn { start_ptr: u32::MAX as u64 };
    let r = JournalEffector::apply_thread_state(3, vec![], vec![], vec![], start, layout(), false);
    assert_eq!(r.unwrap().start_ptr, u32::MAX as u64);
}

#[test]
fn spawned_snapshot_end_to_end() {
    let mut j = Journal::new();
    let call_stack: Vec<u8> = (0..40).collect();
    JournalEffector::save_thread_state(
        &mut j,
        4,
        vec![0xaa; 8],
        call_stack.clone(),
        vec![0xbb; 3],
        ThreadStartType::ThreadSpawn { start_ptr: 0x1_0000_0000 },
        layout(),
        true,
    );
    assert_eq!(j.len(), 1);
    let narrow = JournalEffector::apply_entry(j.get(0), false);
    assert_eq!(narrow.err(), Some(RestoreError::AddressOverflow));
    let wide = JournalEffector::apply_entry(j.get(0), true).unwrap();
    assert_eq!(wide.start_ptr, 0x1_0000_0000);
    assert_eq!(wide.call_stack, call_stack);
    assert_eq!(wide.memory_stack, vec![0xaa; 8]);
    assert_eq!(wide.store_data, vec![0xbb; 3]);
}

#[test]
fn replay_follows_journal_order() {
    let mut j = Journal::new();
    JournalEffector::save_thread_state(
        &mut j, 1, vec![], vec![], vec![], ThreadStartType::MainThread, layout(), true,
    );
    JournalEffector::save_thread_state(
        &mut j, 2, vec![], vec![], vec![],
        ThreadStartType::ThreadSpawn { start_ptr: 0x4000 }, layout(), false,
    );
    let out = JournalEffector::replay(&j, false);
    assert_eq!(out.len(), 2);
    assert_eq!(out[0].as_ref().err(), Some(&RestoreError::UnsupportedRestorePath));
    assert_eq!(out[1].as_ref().unwrap().id, 2);
    assert_eq!(out[1].as_ref().unwrap().start_ptr, 0x4000);
}
