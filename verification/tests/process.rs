use ds3os_loader::error::{Field, LoaderError};
use ds3os_loader::launch::Launcher;
use ds3os_loader::patch::{
    highest_pid, MemoryWrite, Patches, ProcessEntry, GAME_PROCESS_NAME, SERVER_INFO_ADDRESS,
    SERVER_INFO_PATCH_SIZE,
};

fn entry(pid: u32, name: &str) -> ProcessEntry {
    ProcessEntry { pid, name: String::from(name) }
}

#[test]
fn game_is_looked_for_under_its_name() {
    assert_eq!(GAME_PROCESS_NAME, "DarkSoulsIII.ex");
    assert_eq!(Patches::new().process_name, "DarkSoulsIII.ex");
    assert_eq!(Launcher::new().process_name, "DarkSoulsIII.ex");
}

#[test]
fn highest_pid_among_the_matches_is_found() {
    let table = vec![
        entry(10, "init"),
        entry(4000, "DarkSoulsIII.ex"),
        entry(9000, "steam"),
        entry(7000, "DarkSoulsIII.ex"),
        entry(5000, "DarkSoulsIII.ex"),
    ];
    assert_eq!(Patches::new().find_process(&table), Ok(7000));
    assert_eq!(Launcher::new().find_process(&table), Ok(7000));
    assert_eq!(highest_pid(&table, "steam"), Ok(9000));
}

#[test]
fn names_are_matched_whole_and_by_case() {
    let table = vec![
        entry(1, "DarkSoulsIII.exe"),
        entry(2, "darksoulsiii.ex"),
        entry(3, "xDarkSoulsIII.ex"),
        entry(4, "DarkSoulsIII"),
        entry(5, ""),
    ];
    assert_eq!(
        Patches::new().find_process(&table),
        Err(LoaderError::ProcessNotFound)
    );
    let finder = Patches::with_process_name("DarkSoulsIII.exe");
    assert_eq!(finder.find_process(&table), Ok(1));
}

#[test]
fn no_match_is_a_failure_of_its_own() {
    assert_eq!(
        Patches::new().find_process(&[]),
        Err(LoaderError::ProcessNotFound)
    );
    assert_eq!(
        Patches::new().find_process(&[entry(1, "init"), entry(2, "sh")]),
        Err(LoaderError::ProcessNotFound)
    );
    assert_eq!(
        Launcher::new().find_process(&[entry(1, "init")]),
        Err(LoaderError::ProcessNotFound)
    );
}

#[test]
fn single_match_is_found_whatever_its_pid() {
    assert_eq!(
        Patches::new().find_process(&[entry(0, "DarkSoulsIII.ex")]),
        Ok(0)
    );
    assert_eq!(
        Patches::new().find_process(&[entry(u32::MAX, "DarkSoulsIII.ex"), entry(1, "DarkSoulsIII.ex")]),
        Ok(u32::MAX)
    );
}

#[test]
fn patch_walks_the_record_byte_by_byte() {
    let cipher = Patches::encrypt("srv", "ABC").unwrap();
    let mut patch = Patches::patch(4321, "srv", "ABC").unwrap();
    assert_eq!(patch.target(), 4321);
    for i in 0..SERVER_INFO_PATCH_SIZE {
        let write = patch.next_write().unwrap();
        assert_eq!(
            write,
            MemoryWrite { address: SERVER_INFO_ADDRESS + i as u64, byte: cipher[i] }
        );
        patch.record(true);
    }
    assert!(patch.next_write().is_none());
    assert_eq!(patch.finish(), Ok(520));
}

#[test]
fn first_write_goes_to_the_records_address() {
    assert_eq!(SERVER_INFO_ADDRESS, 0x1_44F4_A5B1);
    let patch = Patches::patch(1, "srv", "ABC").unwrap();
    assert_eq!(
        patch.next_write(),
        Some(MemoryWrite { address: 0x1_44F4_A5B1, byte: 236 })
    );
}

#[test]
fn failed_byte_is_skipped_and_counted_out() {
    let cipher = Patches::encrypt("srv", "ABC").unwrap();
    let mut patch = Patches::patch(1, "srv", "ABC").unwrap();
    for i in 0..SERVER_INFO_PATCH_SIZE {
        let write = patch.next_write().unwrap();
        assert_eq!(write.address, SERVER_INFO_ADDRESS + i as u64);
        assert_eq!(write.byte, cipher[i]);
        patch.record(i != 7);
    }
    assert!(patch.next_write().is_none());
    assert_eq!(
        patch.finish(),
        Err(LoaderError::PartialWrite { written: 519, expected: 520 })
    );
}

#[test]
fn unfinished_patch_is_a_partial_write() {
    let mut patch = Patches::patch(1, "srv", "ABC").unwrap();
    assert_eq!(
        patch.finish(),
        Err(LoaderError::PartialWrite { written: 0, expected: 520 })
    );
    patch.record(true);
    patch.record(false);
    patch.record(true);
    assert_eq!(
        patch.finish(),
        Err(LoaderError::PartialWrite { written: 2, expected: 520 })
    );
    assert_eq!(patch.next_write().unwrap().address, SERVER_INFO_ADDRESS + 3);
}

#[test]
fn notes_beyond_the_last_byte_change_nothing() {
    let mut patch = Patches::patch(1, "srv", "ABC").unwrap();
    for _ in 0..SERVER_INFO_PATCH_SIZE {
        patch.record(false);
    }
    patch.record(true);
    patch.record(true);
    assert!(patch.next_write().is_none());
    assert_eq!(
        patch.finish(),
        Err(LoaderError::PartialWrite { written: 0, expected: 520 })
    );
}

#[test]
fn patch_refuses_inputs_beyond_their_limits() {
    let key = "k".repeat(431);
    assert_eq!(
        Patches::patch(1, "srv", &key).err(),
        Some(LoaderError::Oversize(Field::PublicKey))
    );
    let host = "h".repeat(86);
    assert_eq!(
        Patches::patch(1, &host, "ABC").err(),
        Some(LoaderError::Oversize(Field::Hostname))
    );
}
