use vstd::prelude::*;
use crate::demonlist::{
    best_duplicate, best_duplicate_at, has_duplicate, has_player, is_duplicate, lookup_demon, process,
    reconcile_submission, resolve_player, well_formed, DbState, MAX_ID,
};
use crate::error::PointercrateError;
use crate::model::{Demon, Player, Record, RecordStatus, Submission, Submitter};
use crate::rules::{rule_violation, EXTENDED_LIST_SIZE, LIST_SIZE};
use crate::text::lower_of;

verus! {

/// Get-or-create keeps the store well formed, and what it yields is a stored
/// player whose name matches the one asked for.
pub proof fn lemma_resolve_player(s: DbState, name: String)
    requires
        well_formed(s),
    ensures
        well_formed(resolve_player(s, name).0),
        resolve_player(s, name).0.records == s.records,
        resolve_player(s, name).0.demons == s.demons,
        resolve_player(s, name).0.submitters == s.submitters,
        resolve_player(s, name).0.next_record_id == s.next_record_id,
        resolve_player(s, name).1 is Ok ==> exists|i: int|
            0 <= i < resolve_player(s, name).0.players.len() && #[trigger] resolve_player(s, name).0.players[i]
                == resolve_player(s, name).1->Ok_0 && lower_of(resolve_player(s, name).0.players[i].name@)
                == lower_of(name@),
{
    if !has_player(s, name@) && s.next_player_id < MAX_ID {
        let s1 = resolve_player(s, name).0;
        assert(s1.players[s.players.len() as int] == resolve_player(s, name).1->Ok_0);
        assert(s1.players[s.players.len() as int].name@ == name@);
        assert forall|i: int, j: int|
            0 <= i < s1.players.len() && 0 <= j < s1.players.len() && lower_of(#[trigger] s1.players[i].name@)
                == lower_of(#[trigger] s1.players[j].name@) implies i == j by {
            if i < s.players.len() && j == s.players.len() {
                assert(s.players[i] == s1.players[i]);
            } else if j < s.players.len() && i == s.players.len() {
                assert(s.players[j] == s1.players[j]);
            }
        }
    } else if has_player(s, name@) {
        let i = choose|i: int| 0 <= i < s.players.len() && lower_of(#[trigger] s.players[i].name@) == lower_of(name@);
        assert(s.players[i] == resolve_player(s, name).1->Ok_0);
        assert(resolve_player(s, name).0.players[i] == resolve_player(s, name).1->Ok_0);
    }
}

/// Resolving a player's name a second time, in any case, yields the same
/// player and creates no second row.
pub proof fn player_resolution_is_stable(s: DbState, name: String, again: String)
    requires
        well_formed(s),
        resolve_player(s, name).1 is Ok,
        lower_of(again@) == lower_of(name@),
    ensures
        resolve_player(resolve_player(s, name).0, again) == resolve_player(s, name),
{
    lemma_resolve_player(s, name);
    let s1 = resolve_player(s, name).0;
    let p = resolve_player(s, name).1->Ok_0;
    let i = choose|i: int|
        0 <= i < s1.players.len() && #[trigger] s1.players[i] == p && lower_of(s1.players[i].name@) == lower_of(name@);
    assert(lower_of(s1.players[i].name@) == lower_of(again@));
    assert(has_player(s1, again@));
    let k = choose|k: int| 0 <= k < s1.players.len() && lower_of(#[trigger] s1.players[k].name@) == lower_of(again@);
    assert(lower_of(s1.players[k].name@) == lower_of(s1.players[i].name@));
    assert(k == i);
}

/// The player that a submission resolves to, where it resolves.
pub open spec fn resolved_player(s: DbState, submission: Submission) -> Player {
    resolve_player(s, submission.player).1->Ok_0
}

/// The demon that a submission names, where it exists.
pub open spec fn resolved_demon(s: DbState, submission: Submission) -> Demon {
    lookup_demon(resolve_player(s, submission.player).0, submission.demon)->Ok_0
}

/// Whether a submission gets to the tier rules: its submitter is not banned,
/// its video passed validation, its player resolves (an existing one, or a
/// new one while ids remain) and is not banned, and its demon exists.
pub open spec fn reaches_tier_rules(
    s: DbState,
    submission: Submission,
    submitter: Submitter,
    video: Result<Option<String>, PointercrateError>,
) -> bool {
    &&& !submitter.banned
    &&& video is Ok
    &&& has_player(s, submission.player@) || s.next_player_id < MAX_ID
    &&& !resolved_player(s, submission).banned
    &&& lookup_demon(resolve_player(s, submission.player).0, submission.demon) is Ok
}

/// A demon beyond the extended list takes no submission, whatever its
/// progress and whether it is only to be checked; no record changes.
pub proof fn legacy_demons_take_no_submissions(
    s: DbState,
    submission: Submission,
    submitter: Submitter,
    video: Result<Option<String>, PointercrateError>,
)
    requires
        well_formed(s),
        reaches_tier_rules(s, submission, submitter, video),
        resolved_demon(s, submission).position > EXTENDED_LIST_SIZE,
    ensures
        process(s, submission, submitter, video).1 == Err::<Option<Record>, PointercrateError>(
            PointercrateError::SubmitLegacy,
        ),
        process(s, submission, submitter, video).0.records == s.records,
{
    lemma_resolve_player(s, submission.player);
}

/// A demon on the extended list takes only records of 100%: any other
/// progress is rejected before the bounds on progress are looked at; a
/// record of 100% goes on to the bound on progress and to reconciliation.
pub proof fn extended_demons_take_only_full_runs(
    s: DbState,
    submission: Submission,
    submitter: Submitter,
    video: Result<Option<String>, PointercrateError>,
)
    requires
        well_formed(s),
        reaches_tier_rules(s, submission, submitter, video),
        LIST_SIZE < resolved_demon(s, submission).position <= EXTENDED_LIST_SIZE,
    ensures
        submission.progress != 100 ==> process(s, submission, submitter, video).1 == Err::<
            Option<Record>,
            PointercrateError,
        >(PointercrateError::Non100Extended) && process(s, submission, submitter, video).0.records == s.records,
        submission.progress == 100 ==> process(s, submission, submitter, video) == (if resolved_demon(
            s,
            submission,
        ).requirement > 100 {
            (
                resolve_player(s, submission.player).0,
                Err(PointercrateError::InvalidProgress { requirement: resolved_demon(s, submission).requirement }),
            )
        } else {
            reconcile_submission(
                resolve_player(s, submission.player).0,
                resolved_player(s, submission),
                resolved_demon(s, submission),
                100,
                video->Ok_0,
                submission.verify_only,
                submitter.id,
            )
        }),
{
    lemma_resolve_player(s, submission.player);
}

/// Where the tier rules let a submission through, it is rejected with the
/// demon's requirement exactly when its progress lies outside
/// `[requirement, 100]`, and then no record changes.
pub proof fn progress_outside_bounds_is_invalid(
    s: DbState,
    submission: Submission,
    submitter: Submitter,
    video: Result<Option<String>, PointercrateError>,
)
    requires
        well_formed(s),
        reaches_tier_rules(s, submission, submitter, video),
        resolved_demon(s, submission).position <= LIST_SIZE || (resolved_demon(s, submission).position
            <= EXTENDED_LIST_SIZE && submission.progress == 100),
    ensures
        (process(s, submission, submitter, video).1 == Err::<Option<Record>, PointercrateError>(
            PointercrateError::InvalidProgress { requirement: resolved_demon(s, submission).requirement },
        )) == (submission.progress > 100 || submission.progress < resolved_demon(s, submission).requirement),
        (submission.progress > 100 || submission.progress < resolved_demon(s, submission).requirement) ==> process(
            s,
            submission,
            submitter,
            video,
        ).0.records == s.records,
{
    lemma_resolve_player(s, submission.player);
}

/// A pending duplicate of lower progress is deleted, and a new pending
/// record of the submitted progress takes its place.
pub proof fn pending_duplicate_is_superseded(
    s: DbState,
    submission: Submission,
    submitter: Submitter,
    video: Result<Option<String>, PointercrateError>,
    i: int,
)
    requires
        well_formed(s),
        reaches_tier_rules(s, submission, submitter, video),
        rule_violation(
            false,
            resolved_demon(s, submission).position,
            resolved_demon(s, submission).requirement,
            submission.progress,
        ) is None,
        !submission.verify_only,
        best_duplicate_at(
            s.records,
            i,
            resolved_player(s, submission).id,
            resolved_demon(s, submission).name@,
            video->Ok_0,
        ),
        s.records[i].status == RecordStatus::Submitted,
        s.records[i].progress < submission.progress,
        s.next_record_id < MAX_ID,
    ensures
        process(s, submission, submitter, video).1 matches Ok(Some(r)) && r.progress == submission.progress
            && r.status == RecordStatus::Submitted && r.player == resolved_player(s, submission) && r.demon
            == resolved_demon(s, submission) && r.submitter == submitter.id && r.video == video->Ok_0 && process(
            s,
            submission,
            submitter,
            video,
        ).0.records == s.records.remove(i).push(r),
{
    lemma_resolve_player(s, submission.player);
    lemma_best_duplicate_unique(
        s.records,
        i,
        resolved_player(s, submission).id,
        resolved_demon(s, submission).name@,
        video->Ok_0,
    );
}

/// A reviewed duplicate of lower progress stays as it is; a new pending
/// record of the submitted progress is added beside it.
pub proof fn reviewed_duplicate_is_kept(
    s: DbState,
    submission: Submission,
    submitter: Submitter,
    video: Result<Option<String>, PointercrateError>,
    i: int,
)
    requires
        well_formed(s),
        reaches_tier_rules(s, submission, submitter, video),
        rule_violation(
            false,
            resolved_demon(s, submission).position,
            resolved_demon(s, submission).requirement,
            submission.progress,
        ) is None,
        !submission.verify_only,
        best_duplicate_at(
            s.records,
            i,
            resolved_player(s, submission).id,
            resolved_demon(s, submission).name@,
            video->Ok_0,
        ),
        s.records[i].status == RecordStatus::Approved || s.records[i].status == RecordStatus::UnderConsideration,
        s.records[i].progress < submission.progress,
        s.next_record_id < MAX_ID,
    ensures
        process(s, submission, submitter, video).1 matches Ok(Some(r)) && r.progress == submission.progress
            && r.status == RecordStatus::Submitted && r.player == resolved_player(s, submission) && r.demon
            == resolved_demon(s, submission) && r.submitter == submitter.id && r.video == video->Ok_0 && process(
            s,
            submission,
            submitter,
            video,
        ).0.records == s.records.push(r),
{
    lemma_resolve_player(s, submission.player);
    lemma_best_duplicate_unique(
        s.records,
        i,
        resolved_player(s, submission).id,
        resolved_demon(s, submission).name@,
        video->Ok_0,
    );
}

/// A submission with the verify-only flag writes no record and yields no
/// record; where the same submission would be accepted, it yields `None`.
pub proof fn verify_only_writes_nothing(
    s: DbState,
    submission: Submission,
    submitter: Submitter,
    video: Result<Option<String>, PointercrateError>,
)
    requires
        well_formed(s),
        submission.verify_only,
    ensures
        process(s, submission, submitter, video).0.records == s.records,
        process(s, submission, submitter, video).0.next_record_id == s.next_record_id,
        process(s, submission, submitter, video).0.demons == s.demons,
        process(s, submission, submitter, video).0.submitters == s.submitters,
        !(process(s, submission, submitter, video).1 matches Ok(Some(_))),
        process(s, Submission { verify_only: false, ..submission }, submitter, video).1 is Ok ==> process(
            s,
            submission,
            submitter,
            video,
        ).1 == Ok::<Option<Record>, PointercrateError>(None),
{
    lemma_resolve_player(s, submission.player);
}

/// Submitting the same run twice, with nothing changed in between, is
/// rejected the second time as an existing pending submission.
pub proof fn identical_resubmission_is_rejected(
    s: DbState,
    submission: Submission,
    submitter: Submitter,
    video: Result<Option<String>, PointercrateError>,
)
    requires
        well_formed(s),
        process(s, submission, submitter, video).1 matches Ok(Some(_)),
    ensures
        process(process(s, submission, submitter, video).0, submission, submitter, video) == (
            process(s, submission, submitter, video).0,
            Err::<Option<Record>, PointercrateError>(
                PointercrateError::SubmissionExists { status: RecordStatus::Submitted },
            ),
        ),
{
    lemma_resolve_player(s, submission.player);
    let s1 = resolve_player(s, submission.player).0;
    let player = resolve_player(s, submission.player).1->Ok_0;
    let demon = lookup_demon(s1, submission.demon)->Ok_0;
    let v = video->Ok_0;
    let progress = submission.progress;
    let s2 = process(s, submission, submitter, video).0;
    let r = process(s, submission, submitter, video).1->Ok_0->Some_0;
    let found = has_duplicate(s1.records, player.id, demon.name@, v);
    let b = best_duplicate(s1.records, player.id, demon.name@, v);
    assert(r.player == player && r.demon == demon && r.video == v && r.progress == progress);
    if found {
        let w = choose|w: int| 0 <= w < s1.records.len() && is_duplicate(#[trigger] s1.records[w], player.id, demon.name@, v);
        lemma_best_duplicate_exists(s1.records, w, player.id, demon.name@, v);
        assert(best_duplicate_at(s1.records, b, player.id, demon.name@, v));
        assert(s1.records[b].progress < progress);
    }
    assert forall|k: int|
        0 <= k < s1.records.len() && is_duplicate(#[trigger] s1.records[k], player.id, demon.name@, v) implies s1.records[k].progress
            < progress by {
        assert(found);
    }
    let kept = s2.records.drop_last();
    let supersede = found && s1.records[b].status == RecordStatus::Submitted;
    if supersede {
        assert(kept =~= s1.records.remove(b));
    } else {
        assert(kept =~= s1.records);
    }
    assert(s2.records =~= kept.push(r));
    assert forall|j: int|
        0 <= j < kept.len() && is_duplicate(#[trigger] kept[j], player.id, demon.name@, v) implies kept[j].progress
            < progress by {
        if supersede {
            if j < b {
                assert(kept[j] == s1.records[j]);
            } else {
                assert(kept[j] == s1.records[j + 1]);
            }
        } else {
            assert(kept[j] == s1.records[j]);
        }
    }
    lemma_pushed_record_is_best(kept, r, player.id, demon.name@, v);
    lemma_best_duplicate_unique(s2.records, kept.len() as int, player.id, demon.name@, v);
    assert(s2.players == s1.players);
    player_resolution_is_stable(s, submission.player, submission.player);
    assert(resolve_player(s2, submission.player) == (s2, Ok::<Player, PointercrateError>(player))) by {
        assert(resolve_player(s2, submission.player).1 == resolve_player(s1, submission.player).1);
    }
    assert(lookup_demon(s2, submission.demon) == lookup_demon(s1, submission.demon));
}

/// A duplicate appended to rows whose duplicates all have less progress is
/// the best duplicate.
pub proof fn lemma_pushed_record_is_best(
    kept: Seq<Record>,
    r: Record,
    player: i32,
    demon: Seq<char>,
    video: Option<String>,
)
    requires
        is_duplicate(r, player, demon, video),
        forall|j: int|
            0 <= j < kept.len() && is_duplicate(#[trigger] kept[j], player, demon, video) ==> kept[j].progress
                < r.progress,
    ensures
        best_duplicate_at(kept.push(r), kept.len() as int, player, demon, video),
{
    let all = kept.push(r);
    assert forall|j: int| 0 <= j < kept.len() && is_duplicate(#[trigger] all[j], player, demon, video) implies all[j].progress
        < r.progress by {
        assert(all[j] == kept[j]);
    }
    assert(all[kept.len() as int] == r);
}

/// The duplicate of best-known progress is the one that `best_duplicate`
/// names.
pub proof fn lemma_best_duplicate_unique(
    records: Seq<Record>,
    i: int,
    player: i32,
    demon: Seq<char>,
    video: Option<String>,
)
    requires
        best_duplicate_at(records, i, player, demon, video),
    ensures
        best_duplicate(records, player, demon, video) == i,
        has_duplicate(records, player, demon, video),
{
    let k = best_duplicate(records, player, demon, video);
    assert(best_duplicate_at(records, k, player, demon, video));
    assert(is_duplicate(records[k], player, demon, video));
    assert(is_duplicate(records[i], player, demon, video));
}

/// Where some duplicate is stored, one of best-known progress is.
pub proof fn lemma_best_duplicate_exists(
    records: Seq<Record>,
    w: int,
    player: i32,
    demon: Seq<char>,
    video: Option<String>,
)
    requires
        0 <= w < records.len(),
        is_duplicate(records[w], player, demon, video),
    ensures
        exists|i: int| best_duplicate_at(records, i, player, demon, video),
    decreases records.len(),
{
    let n = records.len() - 1;
    let init = records.drop_last();
    if w == n && !has_duplicate(init, player, demon, video) {
        assert forall|j: int| 0 <= j < records.len() && is_duplicate(#[trigger] records[j], player, demon, video) implies records[j].progress
            <= records[n].progress by {
            if j < n {
                assert(init[j] == records[j]);
            }
        }
        assert forall|j: int| 0 <= j < n && is_duplicate(#[trigger] records[j], player, demon, video) implies records[j].progress
            < records[n].progress by {
            assert(init[j] == records[j]);
        }
        assert(best_duplicate_at(records, n, player, demon, video));
    } else {
        let v = if w < n {
            w
        } else {
            choose|v: int| 0 <= v < init.len() && is_duplicate(#[trigger] init[v], player, demon, video)
        };
        assert(init[v] == records[v]);
        lemma_best_duplicate_exists(init, v, player, demon, video);
        let b = choose|b: int| best_duplicate_at(init, b, player, demon, video);
        assert(init[b] == records[b]);
        if is_duplicate(records[n], player, demon, video) && records[n].progress > records[b].progress {
            assert forall|j: int| 0 <= j < records.len() && is_duplicate(#[trigger] records[j], player, demon, video) implies records[j].progress
                <= records[n].progress by {
                if j < n {
                    assert(init[j] == records[j]);
                }
            }
            assert forall|j: int| 0 <= j < n && is_duplicate(#[trigger] records[j], player, demon, video) implies records[j].progress
                < records[n].progress by {
                assert(init[j] == records[j]);
            }
            assert(best_duplicate_at(records, n, player, demon, video));
        } else {
            assert forall|j: int| 0 <= j < records.len() && is_duplicate(#[trigger] records[j], player, demon, video) implies records[j].progress
                <= records[b].progress by {
                if j < n {
                    assert(init[j] == records[j]);
                }
            }
            assert forall|j: int| 0 <= j < b && is_duplicate(#[trigger] records[j], player, demon, video) implies records[j].progress
                < records[b].progress by {
                assert(init[j] == records[j]);
            }
            assert(best_duplicate_at(records, b, player, demon, video));
        }
    }
}

} // verus!
