use proofquest::ErrorCode;
use proofquest::Location;
use proofquest::Protocol;
use proofquest::TaskStatus;

fn fresh_protocol() -> Protocol {
    Protocol::new(vec![7u8; 32])
}

#[test]
fn scenario_complete_lifecycle() {
    let mut p = fresh_protocol();
    let poster = p.register_account(5000);
    let worker = p.register_account(0);

    let task_id = p
        .create_task(poster, 1000, "survey site X".to_string(), 100)
        .unwrap();
    assert_eq!(task_id, 0);
    {
        let t = p.get_task(task_id).unwrap();
        assert_eq!(t.status, TaskStatus::Open);
        assert_eq!(t.poster, poster);
        assert_eq!(t.amount, 1000);
        assert_eq!(t.description, "survey site X");
        assert_eq!(t.created_at, 100);
        assert_eq!(t.worker, None);
        assert!(t.proof.is_none());
        assert_eq!(t.escrow.balance, 1000);
    }
    assert_eq!(p.balance_of(poster), Some(4000));

    assert_eq!(p.accept_task(task_id, worker, 110), Ok(()));
    {
        let t = p.get_task(task_id).unwrap();
        assert_eq!(t.status, TaskStatus::InProgress);
        assert_eq!(t.worker, Some(worker));
        assert_eq!(t.accepted_at, Some(110));
    }

    let location = Location {
        latitude_microdeg: 1_230_000,
        longitude_microdeg: 4_560_000,
    };
    assert_eq!(
        p.submit_proof(task_id, worker, "Qm123".to_string(), location, 120),
        Ok(())
    );
    {
        let t = p.get_task(task_id).unwrap();
        assert_eq!(t.status, TaskStatus::PendingVerification);
        let proof = t.proof.as_ref().unwrap();
        assert_eq!(proof.ipfs_hash, "Qm123");
        assert_eq!(proof.location, location);
        assert_eq!(proof.submitted_at, 120);
    }

    assert_eq!(p.verify_and_release(task_id, poster, true, 130), Ok(()));
    {
        let t = p.get_task(task_id).unwrap();
        assert_eq!(t.status, TaskStatus::Completed);
        assert_eq!(t.escrow.balance, 0);
    }
    assert_eq!(p.balance_of(worker), Some(1000));
    assert_eq!(p.balance_of(poster), Some(4000));
    assert_eq!(p.reputation_count(), 1);
    let rec = p.get_reputation(0).unwrap();
    assert_eq!(rec.user, worker);
    assert_eq!(rec.score, 1);
    assert_eq!(rec.minted_at, 130);
}

#[test]
fn scenario_rejected_refund() {
    let mut p = fresh_protocol();
    let poster = p.register_account(5000);
    let worker = p.register_account(0);
    let location = Location {
        latitude_microdeg: 1_230_000,
        longitude_microdeg: 4_560_000,
    };

    let task_id = p
        .create_task(poster, 1000, "survey site X".to_string(), 100)
        .unwrap();
    p.accept_task(task_id, worker, 110).unwrap();
    p.submit_proof(task_id, worker, "Qm123".to_string(), location, 120)
        .unwrap();

    assert_eq!(p.verify_and_release(task_id, poster, false, 130), Ok(()));
    let t = p.get_task(task_id).unwrap();
    assert_eq!(t.status, TaskStatus::Rejected);
    assert_eq!(t.escrow.balance, 0);
    assert_eq!(p.balance_of(poster), Some(5000));
    assert_eq!(p.balance_of(worker), Some(0));
    assert_eq!(p.reputation_count(), 0);
}

#[test]
fn scenario_accept_on_in_progress_fails() {
    let mut p = fresh_protocol();
    let poster = p.register_account(5000);
    let first_worker = p.register_account(0);
    let second_worker = p.register_account(0);

    let task_id = p
        .create_task(poster, 1000, "survey site X".to_string(), 100)
        .unwrap();
    assert_eq!(p.accept_task(task_id, first_worker, 110), Ok(()));
    assert_eq!(
        p.accept_task(task_id, second_worker, 111),
        Err(ErrorCode::TaskNotOpen)
    );
    let t = p.get_task(task_id).unwrap();
    assert_eq!(t.worker, Some(first_worker));
    assert_eq!(t.status, TaskStatus::InProgress);
}

#[test]
fn competing_accepts_exactly_one_wins() {
    // Operations on one task record serialize; of two competing acceptances
    // the one that finds the task `Open` wins and the other is refused.
    let mut p = fresh_protocol();
    let poster = p.register_account(5000);
    let racer_a = p.register_account(0);
    let racer_b = p.register_account(0);

    let task_id = p
        .create_task(poster, 300, "deliver the parcel".to_string(), 5)
        .unwrap();
    let first = p.accept_task(task_id, racer_a, 6);
    let second = p.accept_task(task_id, racer_b, 6);
    assert_eq!(first, Ok(()));
    assert_eq!(second, Err(ErrorCode::TaskNotOpen));
    let t = p.get_task(task_id).unwrap();
    assert_eq!(t.worker, Some(racer_a));
}

#[test]
fn terminal_task_refuses_every_operation() {
    let mut p = fresh_protocol();
    let poster = p.register_account(5000);
    let worker = p.register_account(0);
    let location = Location {
        latitude_microdeg: -500_000,
        longitude_microdeg: 250_000,
    };

    let task_id = p
        .create_task(poster, 700, "weed the plot".to_string(), 10)
        .unwrap();
    p.accept_task(task_id, worker, 20).unwrap();
    p.submit_proof(task_id, worker, "QmWork".to_string(), location, 30)
        .unwrap();
    p.verify_and_release(task_id, poster, true, 40).unwrap();

    assert_eq!(
        p.accept_task(task_id, worker, 50),
        Err(ErrorCode::TaskNotOpen)
    );
    assert_eq!(
        p.submit_proof(task_id, worker, "QmAgain".to_string(), location, 60),
        Err(ErrorCode::TaskNotInProgress)
    );
    assert_eq!(
        p.verify_and_release(task_id, poster, true, 70),
        Err(ErrorCode::TaskNotPendingVerification)
    );
    assert_eq!(
        p.verify_and_release(task_id, poster, false, 80),
        Err(ErrorCode::TaskNotPendingVerification)
    );
    let t = p.get_task(task_id).unwrap();
    assert_eq!(t.status, TaskStatus::Completed);
    assert_eq!(t.escrow.balance, 0);
    assert_eq!(p.balance_of(worker), Some(700));
    assert_eq!(p.balance_of(poster), Some(4300));
    assert_eq!(p.reputation_count(), 1);
}
