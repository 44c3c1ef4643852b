use proofquest::Protocol;
use proofquest::id_bytes;

fn protocol_with_pid(byte: u8) -> Protocol {
    Protocol::new(vec![byte; 32])
}

#[test]
fn id_bytes_is_little_endian() {
    assert_eq!(
        id_bytes(0x0102030405060708),
        vec![8, 7, 6, 5, 4, 3, 2, 1]
    );
    assert_eq!(id_bytes(0), vec![0; 8]);
    assert_eq!(id_bytes(u64::MAX), vec![0xff; 8]);
}

#[test]
fn derived_addresses_are_32_bytes_and_fresh() {
    let mut p = protocol_with_pid(1);
    let poster = p.register_account(1000);
    let task_id = p.create_task(poster, 10, "job".to_string(), 1).unwrap();
    let t = p.get_task(task_id).unwrap();
    assert_eq!(t.address.len(), 32);
    assert_eq!(t.escrow.address.len(), 32);
    // A derivation that handed its key seed back unchanged would be 8 bytes
    // here, and the two records would share an address.
    assert_ne!(t.address, t.escrow.address);
    assert_ne!(t.address, id_bytes(poster as u64));
}

#[test]
fn derivation_is_deterministic_per_program_and_poster() {
    let mut a = protocol_with_pid(2);
    let mut b = protocol_with_pid(2);
    let poster_a = a.register_account(1000);
    let poster_b = b.register_account(1000);
    let ta = a.create_task(poster_a, 10, "one".to_string(), 1).unwrap();
    let tb = b.create_task(poster_b, 10, "two".to_string(), 2).unwrap();
    let task_a = a.get_task(ta).unwrap();
    let task_b = b.get_task(tb).unwrap();
    assert_eq!(task_a.address, task_b.address);
    assert_eq!(task_a.bump, task_b.bump);
    assert_eq!(task_a.escrow.address, task_b.escrow.address);

    let mut c = protocol_with_pid(3);
    let poster_c = c.register_account(1000);
    let tc = c.create_task(poster_c, 10, "three".to_string(), 3).unwrap();
    let task_c = c.get_task(tc).unwrap();
    assert_ne!(task_a.address, task_c.address);
}

#[test]
fn balance_queries() {
    let mut p = protocol_with_pid(4);
    assert_eq!(p.balance_of(0), None);
    let a = p.register_account(123);
    assert_eq!(p.balance_of(a), Some(123));
    assert_eq!(p.balance_of(a + 1), None);
    assert_eq!(p.task_count(), 0);
    assert_eq!(p.reputation_count(), 0);
    assert!(p.get_task(0).is_none());
    assert!(p.get_reputation(0).is_none());
}
