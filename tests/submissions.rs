use pointercrate::demonlist::{
    DatabaseActor, DemonByName, PlayerByName, ProcessSubmission, RecordById, ResolveSubmissionData, SubmitterByIp,
};
use pointercrate::error::PointercrateError;
use pointercrate::model::{Demon, NetworkAddress, PatchSubmitter, Record, RecordStatus, Submission, Submitter};
use pointercrate::reconcile::{resolve_duplicate, Resolution};
use pointercrate::rules::check_eligibility;
use pointercrate::text::{same_folded_name, same_name};

fn demon(name: &str, position: i16, requirement: i16) -> Demon {
    Demon { name: name.to_string(), position, requirement }
}

fn store() -> DatabaseActor {
    let mut db = DatabaseActor::new();
    assert!(db.add_demon(demon("Bloodbath", 1, 60)));
    assert!(db.add_demon(demon("Sonic Wave", 10, 30)));
    assert!(db.add_demon(demon("Cataclysm", 75, 100)));
    assert!(db.add_demon(demon("Deadlocked", 150, 100)));
    db
}

fn localhost() -> NetworkAddress {
    NetworkAddress { address: 0x7f00_0001, prefix: 32, is_v6: false }
}

fn submitter(db: &mut DatabaseActor) -> Submitter {
    db.submitter_by_ip(SubmitterByIp(localhost())).unwrap()
}

fn submission(player: &str, demon: &str, progress: i16, video: Option<&str>, verify_only: bool) -> Submission {
    Submission {
        progress,
        player: player.to_string(),
        demon: demon.to_string(),
        video: video.map(|v| v.to_string()),
        verify_only,
    }
}

fn submit(
    db: &mut DatabaseActor,
    by: Submitter,
    player: &str,
    demon: &str,
    progress: i16,
    video: Option<&str>,
    verify_only: bool,
) -> Result<Option<Record>, PointercrateError> {
    let s = submission(player, demon, progress, video, verify_only);
    let checked = Ok(s.video.clone());
    db.process_submission(ProcessSubmission(s, by), checked)
}

#[test]
fn legacy_demon_rejects_every_progress() {
    let mut db = store();
    let by = submitter(&mut db);
    for progress in [0, 50, 100, 120] {
        assert_eq!(submit(&mut db, by, "Alice", "Deadlocked", progress, None, false), Err(PointercrateError::SubmitLegacy));
    }
    assert_eq!(db.record_by_id(RecordById(1)).is_err(), true);
}

#[test]
fn extended_demon_takes_only_full_runs() {
    let mut db = store();
    let by = submitter(&mut db);
    assert_eq!(submit(&mut db, by, "Alice", "Cataclysm", 99, None, false), Err(PointercrateError::Non100Extended));
    assert_eq!(submit(&mut db, by, "Alice", "Cataclysm", 101, None, false), Err(PointercrateError::Non100Extended));
    let record = submit(&mut db, by, "Alice", "Cataclysm", 100, None, false).unwrap().unwrap();
    assert_eq!(record.progress, 100);
    assert_eq!(record.demon.name, "Cataclysm");
}

#[test]
fn progress_outside_bounds_is_invalid() {
    let mut db = store();
    let by = submitter(&mut db);
    assert_eq!(
        submit(&mut db, by, "Alice", "Bloodbath", 59, None, false),
        Err(PointercrateError::InvalidProgress { requirement: 60 })
    );
    assert_eq!(
        submit(&mut db, by, "Alice", "Bloodbath", 101, None, false),
        Err(PointercrateError::InvalidProgress { requirement: 60 })
    );
    assert_eq!(
        submit(&mut db, by, "Alice", "Bloodbath", -1, None, false),
        Err(PointercrateError::InvalidProgress { requirement: 60 })
    );
    assert!(submit(&mut db, by, "Alice", "Bloodbath", 60, None, false).unwrap().is_some());
}

#[test]
fn identical_submission_twice_is_rejected() {
    let mut db = store();
    let by = submitter(&mut db);
    assert!(submit(&mut db, by, "Alice", "Bloodbath", 80, None, false).unwrap().is_some());
    assert_eq!(
        submit(&mut db, by, "Alice", "Bloodbath", 80, None, false),
        Err(PointercrateError::SubmissionExists { status: RecordStatus::Submitted })
    );
}

#[test]
fn pending_record_is_replaced_by_better_progress() {
    let mut db = store();
    let by = submitter(&mut db);
    let old = submit(&mut db, by, "Alice", "Sonic Wave", 40, None, false).unwrap().unwrap();
    assert_eq!(old.status, RecordStatus::Submitted);
    let new = submit(&mut db, by, "Alice", "Sonic Wave", 60, None, false).unwrap().unwrap();
    assert_eq!(new.progress, 60);
    assert_eq!(new.status, RecordStatus::Submitted);
    assert_ne!(new.id, old.id);
    assert_eq!(
        db.record_by_id(RecordById(old.id)),
        Err(PointercrateError::ModelNotFound { model: "Record", identified_by: old.id.to_string() })
    );
    assert_eq!(db.record_by_id(RecordById(new.id)), Ok(new));
}

#[test]
fn approved_record_is_kept_beside_better_progress() {
    let mut db = store();
    let by = submitter(&mut db);
    let old = submit(&mut db, by, "Alice", "Sonic Wave", 40, None, false).unwrap().unwrap();
    assert!(db.set_record_status(old.id, RecordStatus::Approved));
    let new = submit(&mut db, by, "Alice", "Sonic Wave", 60, None, false).unwrap().unwrap();
    assert_eq!(new.progress, 60);
    assert_eq!(new.status, RecordStatus::Submitted);
    let kept = db.record_by_id(RecordById(old.id)).unwrap();
    assert_eq!(kept.status, RecordStatus::Approved);
    assert_eq!(kept.progress, 40);
}

#[test]
fn under_consideration_record_is_kept_beside_better_progress() {
    let mut db = store();
    let by = submitter(&mut db);
    let old = submit(&mut db, by, "Alice", "Sonic Wave", 40, None, false).unwrap().unwrap();
    assert!(db.set_record_status(old.id, RecordStatus::UnderConsideration));
    assert!(submit(&mut db, by, "Alice", "Sonic Wave", 60, None, false).unwrap().is_some());
    assert_eq!(db.record_by_id(RecordById(old.id)).unwrap().status, RecordStatus::UnderConsideration);
}

#[test]
fn verify_only_writes_nothing() {
    let mut db = store();
    let by = submitter(&mut db);
    assert_eq!(submit(&mut db, by, "Alice", "Bloodbath", 80, None, true), Ok(None));
    assert!(db.record_by_id(RecordById(1)).is_err());
    let old = submit(&mut db, by, "Alice", "Bloodbath", 70, None, false).unwrap().unwrap();
    assert_eq!(submit(&mut db, by, "Alice", "Bloodbath", 90, None, true), Ok(None));
    assert_eq!(db.record_by_id(RecordById(old.id)), Ok(old.clone()));
    assert!(db.record_by_id(RecordById(old.id + 1)).is_err());
    assert_eq!(
        submit(&mut db, by, "Alice", "Bloodbath", 70, None, true),
        Err(PointercrateError::SubmissionExists { status: RecordStatus::Submitted })
    );
}

#[test]
fn player_resolution_is_stable() {
    let mut db = store();
    let first = db.player_by_name(PlayerByName("Alice".to_string())).unwrap();
    let second = db.player_by_name(PlayerByName("Alice".to_string())).unwrap();
    let shouted = db.player_by_name(PlayerByName("ALICE".to_string())).unwrap();
    assert_eq!(first, second);
    assert_eq!(first, shouted);
    assert_eq!(shouted.name, "Alice");
    let other = db.player_by_name(PlayerByName("Bob".to_string())).unwrap();
    assert_ne!(other.id, first.id);
    assert!(!first.banned);
}

#[test]
fn names_match_regardless_of_case() {
    assert!(same_name(&"Alice".to_string(), &"aLiCE".to_string()));
    assert!(!same_name(&"Alice".to_string(), &"Alicia".to_string()));
    assert!(!same_folded_name(&"alice".to_string(), &"Alice".to_string()));
}

#[test]
fn submitter_resolution_is_stable() {
    let mut db = store();
    let a = db.submitter_by_ip(SubmitterByIp(localhost())).unwrap();
    let b = db.submitter_by_ip(SubmitterByIp(localhost())).unwrap();
    assert_eq!(a, b);
    assert!(!a.banned);
    let other = NetworkAddress { address: 0x0a00_0001, prefix: 32, is_v6: false };
    let c = db.submitter_by_ip(SubmitterByIp(other)).unwrap();
    assert_ne!(a.id, c.id);
    assert_eq!(c.ip, other);
}

#[test]
fn banned_submitter_is_refused_first() {
    let mut db = store();
    let by = submitter(&mut db);
    let banned = db.patch_submitter(by, PatchSubmitter { banned: Some(true) });
    assert!(banned.banned);
    assert_eq!(db.submitter_by_ip(SubmitterByIp(localhost())).unwrap(), banned);
    let s = submission("Alice", "Deadlocked", 10, Some("bad"), false);
    let checked = Err(PointercrateError::InvalidVideo { reason: "bad".to_string() });
    assert_eq!(db.process_submission(ProcessSubmission(s, banned), checked), Err(PointercrateError::BannedFromSubmissions));
    let unchanged = db.patch_submitter(banned, PatchSubmitter { banned: None });
    assert!(unchanged.banned);
}

#[test]
fn video_error_is_passed_on() {
    let mut db = store();
    let by = submitter(&mut db);
    let s = submission("Alice", "Bloodbath", 80, Some("not a video"), false);
    let error = PointercrateError::InvalidVideo { reason: "unknown host".to_string() };
    assert_eq!(db.process_submission(ProcessSubmission(s, by), Err(error.clone())), Err(error));
}

#[test]
fn unknown_demon_is_not_found() {
    let mut db = store();
    let by = submitter(&mut db);
    assert_eq!(
        submit(&mut db, by, "Alice", "Nine Circles", 80, None, false),
        Err(PointercrateError::ModelNotFound { model: "Demon", identified_by: "Nine Circles".to_string() })
    );
    assert_eq!(
        db.demon_by_name(DemonByName("bloodbath".to_string())),
        Err(PointercrateError::ModelNotFound { model: "Demon", identified_by: "bloodbath".to_string() })
    );
    assert_eq!(db.demon_by_name(DemonByName("Bloodbath".to_string())), Ok(demon("Bloodbath", 1, 60)));
}

#[test]
fn banned_player_is_refused() {
    let mut db = store();
    let by = submitter(&mut db);
    let player = db.player_by_name(PlayerByName("Cheater".to_string())).unwrap();
    assert!(db.set_player_banned(player.id, true));
    assert_eq!(submit(&mut db, by, "cheater", "Deadlocked", 100, None, false), Err(PointercrateError::PlayerBanned));
    assert!(!db.set_player_banned(player.id + 100, true));
}

#[test]
fn rejected_record_blocks_resubmission() {
    let mut db = store();
    let by = submitter(&mut db);
    let old = submit(&mut db, by, "Alice", "Bloodbath", 70, None, false).unwrap().unwrap();
    assert!(db.set_record_status(old.id, RecordStatus::Rejected));
    assert_eq!(
        submit(&mut db, by, "Alice", "Bloodbath", 100, None, false),
        Err(PointercrateError::SubmissionExists { status: RecordStatus::Rejected })
    );
}

#[test]
fn worse_progress_is_refused() {
    let mut db = store();
    let by = submitter(&mut db);
    let old = submit(&mut db, by, "Alice", "Bloodbath", 90, None, false).unwrap().unwrap();
    assert!(db.set_record_status(old.id, RecordStatus::Approved));
    assert_eq!(
        submit(&mut db, by, "Alice", "Bloodbath", 80, None, false),
        Err(PointercrateError::SubmissionExists { status: RecordStatus::Approved })
    );
}

#[test]
fn same_video_counts_as_duplicate() {
    let mut db = store();
    let by = submitter(&mut db);
    let video = Some("https://www.youtube.com/watch?v=abc");
    assert!(submit(&mut db, by, "Alice", "Bloodbath", 90, video, false).unwrap().is_some());
    assert_eq!(
        submit(&mut db, by, "Bob", "Sonic Wave", 50, video, false),
        Err(PointercrateError::SubmissionExists { status: RecordStatus::Submitted })
    );
    assert!(submit(&mut db, by, "Bob", "Sonic Wave", 50, Some("https://www.youtube.com/watch?v=xyz"), false)
        .unwrap()
        .is_some());
}

#[test]
fn accepted_record_carries_submission() {
    let mut db = store();
    let by = submitter(&mut db);
    let record = submit(&mut db, by, "Alice", "Bloodbath", 75, Some("https://youtu.be/x"), false).unwrap().unwrap();
    assert_eq!(record.id, 1);
    assert_eq!(record.progress, 75);
    assert_eq!(record.video, Some("https://youtu.be/x".to_string()));
    assert_eq!(record.status, RecordStatus::Submitted);
    assert_eq!(record.player.name, "Alice");
    assert_eq!(record.submitter, by.id);
    assert_eq!(record.demon, demon("Bloodbath", 1, 60));
    assert_eq!(db.record_by_id(RecordById(1)), Ok(record));
    assert_eq!(
        db.record_by_id(RecordById(42)),
        Err(PointercrateError::ModelNotFound { model: "Record", identified_by: "42".to_string() })
    );
}

#[test]
fn submission_data_resolves_both() {
    let mut db = store();
    let (player, found) =
        db.resolve_submission_data(ResolveSubmissionData("Alice".to_string(), "Cataclysm".to_string())).unwrap();
    assert_eq!(player.name, "Alice");
    assert_eq!(found, demon("Cataclysm", 75, 100));
    assert!(db.resolve_submission_data(ResolveSubmissionData("Bob".to_string(), "Nope".to_string())).is_err());
    assert_eq!(db.player_by_name(PlayerByName("bob".to_string())).unwrap().name, "Bob");
}

#[test]
fn duplicate_demon_name_is_refused() {
    let mut db = store();
    assert!(!db.add_demon(demon("Bloodbath", 5, 50)));
    assert_eq!(db.demon_by_name(DemonByName("Bloodbath".to_string())), Ok(demon("Bloodbath", 1, 60)));
}

#[test]
fn eligibility_rules_apply_in_order() {
    let banned = pointercrate::model::Player { id: 1, name: "X".to_string(), banned: true };
    let player = pointercrate::model::Player { id: 2, name: "Y".to_string(), banned: false };
    assert_eq!(check_eligibility(&banned, &demon("D", 200, 100), 5), Err(PointercrateError::PlayerBanned));
    assert_eq!(check_eligibility(&player, &demon("D", 101, 100), 100), Err(PointercrateError::SubmitLegacy));
    assert_eq!(check_eligibility(&player, &demon("D", 51, 100), 100), Ok(()));
    assert_eq!(check_eligibility(&player, &demon("D", 51, 10), 50), Err(PointercrateError::Non100Extended));
    assert_eq!(check_eligibility(&player, &demon("D", 50, 10), 50), Ok(()));
    assert_eq!(check_eligibility(&player, &demon("D", 50, 10), 9), Err(PointercrateError::InvalidProgress { requirement: 10 }));
}

#[test]
fn duplicate_decisions() {
    assert_eq!(resolve_duplicate(None, 50, false), Ok(Resolution::Insert));
    assert_eq!(resolve_duplicate(None, 50, true), Ok(Resolution::Unchanged));
    assert_eq!(resolve_duplicate(Some((RecordStatus::Submitted, 40)), 60, false), Ok(Resolution::Supersede));
    assert_eq!(resolve_duplicate(Some((RecordStatus::Approved, 40)), 60, false), Ok(Resolution::Insert));
    assert_eq!(resolve_duplicate(Some((RecordStatus::UnderConsideration, 40)), 60, true), Ok(Resolution::Unchanged));
    assert_eq!(
        resolve_duplicate(Some((RecordStatus::Submitted, 60)), 60, false),
        Err(PointercrateError::SubmissionExists { status: RecordStatus::Submitted })
    );
    assert_eq!(
        resolve_duplicate(Some((RecordStatus::Rejected, 10)), 60, true),
        Err(PointercrateError::SubmissionExists { status: RecordStatus::Rejected })
    );
}

#[test]
fn resubmission_beside_reviewed_record_is_rejected() {
    let mut db = store();
    let by = submitter(&mut db);
    let old = submit(&mut db, by, "Alice", "Sonic Wave", 40, None, false).unwrap().unwrap();
    assert!(db.set_record_status(old.id, RecordStatus::Approved));
    let new = submit(&mut db, by, "Alice", "Sonic Wave", 60, None, false).unwrap().unwrap();
    assert_eq!(
        submit(&mut db, by, "Alice", "Sonic Wave", 60, None, false),
        Err(PointercrateError::SubmissionExists { status: RecordStatus::Submitted })
    );
    assert_eq!(db.record_by_id(RecordById(new.id)), Ok(new.clone()));
    assert!(db.record_by_id(RecordById(new.id + 1)).is_err());
    assert_eq!(db.record_by_id(RecordById(old.id)).unwrap().status, RecordStatus::Approved);
}

#[test]
fn best_duplicate_decides() {
    let mut db = store();
    let by = submitter(&mut db);
    let low = submit(&mut db, by, "Alice", "Sonic Wave", 40, None, false).unwrap().unwrap();
    assert!(db.set_record_status(low.id, RecordStatus::Rejected));
    let video = Some("https://youtu.be/run");
    let high = submit(&mut db, by, "Bob", "Bloodbath", 90, video, false).unwrap().unwrap();
    assert!(db.set_record_status(high.id, RecordStatus::Approved));
    assert_eq!(
        submit(&mut db, by, "Alice", "Sonic Wave", 70, video, false),
        Err(PointercrateError::SubmissionExists { status: RecordStatus::Approved })
    );
}
