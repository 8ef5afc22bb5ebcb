use vstd::prelude::*;
use crate::error::PointercrateError;
use crate::laws::lemma_best_duplicate_unique;
use crate::model::{
    Demon, NetworkAddress, PatchSubmitter, Player, Record, RecordStatus, Submission, Submitter,
};
use crate::reconcile::{resolution, resolve_duplicate, Resolution};
use crate::rules::{check_eligibility, rule_violation};
use crate::text::{lower_of, same_name};
use vstd::string::to_string_from_display_ensures;

verus! {

/// The bound on ids: the store hands out ids below it, and an insert that
/// would need this id fails.
pub const MAX_ID: i32 = 2147483647;

/// The contents of the store: its rows, in insertion order, and the next id
/// of each table.
pub ghost struct DbState {
    pub submitters: Seq<Submitter>,
    pub players: Seq<Player>,
    pub demons: Seq<Demon>,
    pub records: Seq<Record>,
    pub next_submitter_id: int,
    pub next_player_id: int,
    pub next_record_id: int,
}

/// Keys are unique in each table, and ids lie below the next one handed out.
pub open spec fn well_formed(s: DbState) -> bool {
    &&& 1 <= s.next_submitter_id <= MAX_ID
    &&& 1 <= s.next_player_id <= MAX_ID
    &&& 1 <= s.next_record_id <= MAX_ID
    &&& forall|i: int, j: int|
        0 <= i < s.submitters.len() && 0 <= j < s.submitters.len() && #[trigger] s.submitters[i].ip
            == #[trigger] s.submitters[j].ip ==> i == j
    &&& forall|i: int, j: int|
        0 <= i < s.submitters.len() && 0 <= j < s.submitters.len() && #[trigger] s.submitters[i].id
            == #[trigger] s.submitters[j].id ==> i == j
    &&& forall|i: int| 0 <= i < s.submitters.len() ==> #[trigger] s.submitters[i].id < s.next_submitter_id
    &&& forall|i: int, j: int|
        0 <= i < s.players.len() && 0 <= j < s.players.len() && lower_of(#[trigger] s.players[i].name@)
            == lower_of(#[trigger] s.players[j].name@) ==> i == j
    &&& forall|i: int, j: int|
        0 <= i < s.players.len() && 0 <= j < s.players.len() && #[trigger] s.players[i].id
            == #[trigger] s.players[j].id ==> i == j
    &&& forall|i: int| 0 <= i < s.players.len() ==> #[trigger] s.players[i].id < s.next_player_id
    &&& forall|i: int, j: int|
        0 <= i < s.demons.len() && 0 <= j < s.demons.len() && #[trigger] s.demons[i].name@
            == #[trigger] s.demons[j].name@ ==> i == j
    &&& forall|i: int, j: int|
        0 <= i < s.records.len() && 0 <= j < s.records.len() && #[trigger] s.records[i].id
            == #[trigger] s.records[j].id ==> i == j
    &&& forall|i: int| 0 <= i < s.records.len() ==> #[trigger] s.records[i].id < s.next_record_id
}

/// Whether a submitter with address `ip` is stored.
pub open spec fn has_submitter(s: DbState, ip: NetworkAddress) -> bool {
    exists|i: int| 0 <= i < s.submitters.len() && #[trigger] s.submitters[i].ip == ip
}

/// Get-or-create of the submitter at `ip`: the existing row, or a fresh
/// unbanned one with the next id.
pub open spec fn resolve_submitter(s: DbState, ip: NetworkAddress) -> (DbState, Result<Submitter, PointercrateError>) {
    if has_submitter(s, ip) {
        let i = choose|i: int| 0 <= i < s.submitters.len() && #[trigger] s.submitters[i].ip == ip;
        (s, Ok(s.submitters[i]))
    } else if s.next_submitter_id >= MAX_ID {
        (s, Err(PointercrateError::DatabaseError))
    } else {
        let created = Submitter { id: s.next_submitter_id as i32, ip, banned: false };
        (
            DbState { submitters: s.submitters.push(created), next_submitter_id: s.next_submitter_id + 1, ..s },
            Ok(created),
        )
    }
}

/// Whether a player whose name matches `name`, regardless of case, is stored.
pub open spec fn has_player(s: DbState, name: Seq<char>) -> bool {
    exists|i: int| 0 <= i < s.players.len() && lower_of(#[trigger] s.players[i].name@) == lower_of(name)
}

/// Get-or-create of the player called `name`, regardless of case.
pub open spec fn resolve_player(s: DbState, name: String) -> (DbState, Result<Player, PointercrateError>) {
    if has_player(s, name@) {
        let i = choose|i: int|
            0 <= i < s.players.len() && lower_of(#[trigger] s.players[i].name@) == lower_of(name@);
        (s, Ok(s.players[i]))
    } else if s.next_player_id >= MAX_ID {
        (s, Err(PointercrateError::DatabaseError))
    } else {
        let created = Player { id: s.next_player_id as i32, name, banned: false };
        (DbState { players: s.players.push(created), next_player_id: s.next_player_id + 1, ..s }, Ok(created))
    }
}

/// Whether a demon called exactly `name` is stored.
pub open spec fn has_demon(s: DbState, name: Seq<char>) -> bool {
    exists|i: int| 0 <= i < s.demons.len() && #[trigger] s.demons[i].name@ == name
}

/// The demon called exactly `name`; demons are never created here.
pub open spec fn lookup_demon(s: DbState, name: String) -> Result<Demon, PointercrateError> {
    if has_demon(s, name@) {
        let i = choose|i: int| 0 <= i < s.demons.len() && #[trigger] s.demons[i].name@ == name@;
        Ok(s.demons[i])
    } else {
        Err(PointercrateError::ModelNotFound { model: "Demon", identified_by: name })
    }
}

/// Whether `r` stands for the same run as a submission by the player with id
/// `player` on the demon called `demon`: same player and demon, or the same
/// video.
pub open spec fn is_duplicate(r: Record, player: i32, demon: Seq<char>, video: Option<String>) -> bool {
    (r.player.id == player && r.demon.name@ == demon) || (video is Some && r.video is Some
        && r.video->Some_0@ == video->Some_0@)
}

/// Whether any stored record is a duplicate of the submission.
pub open spec fn has_duplicate(records: Seq<Record>, player: i32, demon: Seq<char>, video: Option<String>) -> bool {
    exists|i: int| 0 <= i < records.len() && is_duplicate(#[trigger] records[i], player, demon, video)
}

/// Whether the record at `i` is the duplicate of best-known progress: no
/// duplicate has more progress, and none stored before it has as much.
pub open spec fn best_duplicate_at(
    records: Seq<Record>,
    i: int,
    player: i32,
    demon: Seq<char>,
    video: Option<String>,
) -> bool {
    &&& 0 <= i < records.len()
    &&& is_duplicate(records[i], player, demon, video)
    &&& forall|j: int|
        0 <= j < records.len() && is_duplicate(#[trigger] records[j], player, demon, video) ==> records[j].progress
            <= records[i].progress
    &&& forall|j: int|
        0 <= j < i && is_duplicate(#[trigger] records[j], player, demon, video) ==> records[j].progress
            < records[i].progress
}

/// The index of the duplicate of best-known progress, where there is one.
pub open spec fn best_duplicate(records: Seq<Record>, player: i32, demon: Seq<char>, video: Option<String>) -> int {
    choose|i: int| best_duplicate_at(records, i, player, demon, video)
}

/// Reconciles a validated submission with the records that exist: rejects it,
/// leaves the store alone, or adds a new pending record, deleting the pending
/// duplicate it supersedes.
pub open spec fn reconcile_submission(
    s: DbState,
    player: Player,
    demon: Demon,
    progress: i16,
    video: Option<String>,
    verify_only: bool,
    submitter: i32,
) -> (DbState, Result<Option<Record>, PointercrateError>) {
    let found = has_duplicate(s.records, player.id, demon.name@, video);
    let i = best_duplicate(s.records, player.id, demon.name@, video);
    let existing = if found {
        Some((s.records[i].status, s.records[i].progress))
    } else {
        None
    };
    match resolution(existing, progress, verify_only) {
        Err(e) => (s, Err(e)),
        Ok(Resolution::Unchanged) => (s, Ok(None)),
        Ok(decision) => if s.next_record_id >= MAX_ID {
            (s, Err(PointercrateError::DatabaseError))
        } else {
            let created = Record {
                id: s.next_record_id as i32,
                progress,
                video,
                status: RecordStatus::Submitted,
                player,
                submitter,
                demon,
            };
            let kept = if decision == Resolution::Supersede {
                s.records.remove(i)
            } else {
                s.records
            };
            (
                DbState { records: kept.push(created), next_record_id: s.next_record_id + 1, ..s },
                Ok(Some(created)),
            )
        },
    }
}

/// The whole pipeline for one submission: ban of the submitter, the video's
/// validation outcome, resolution of player and demon, the eligibility rules,
/// and reconciliation with existing records.
pub open spec fn process(
    s: DbState,
    submission: Submission,
    submitter: Submitter,
    video: Result<Option<String>, PointercrateError>,
) -> (DbState, Result<Option<Record>, PointercrateError>) {
    if submitter.banned {
        (s, Err(PointercrateError::BannedFromSubmissions))
    } else {
        match video {
            Err(e) => (s, Err(e)),
            Ok(video) => {
                let (s1, player) = resolve_player(s, submission.player);
                match player {
                    Err(e) => (s1, Err(e)),
                    Ok(player) => match lookup_demon(s1, submission.demon) {
                        Err(e) => (s1, Err(e)),
                        Ok(demon) => match rule_violation(
                            player.banned,
                            demon.position,
                            demon.requirement,
                            submission.progress,
                        ) {
                            Some(e) => (s1, Err(e)),
                            None => reconcile_submission(
                                s1,
                                player,
                                demon,
                                submission.progress,
                                video,
                                submission.verify_only,
                                submitter.id,
                            ),
                        },
                    },
                }
            },
        }
    }
}

/// Whether a record with the given id is stored.
pub open spec fn has_record(s: DbState, id: i32) -> bool {
    exists|i: int| 0 <= i < s.records.len() && #[trigger] s.records[i].id == id
}

/// The record with the given id, where there is one.
pub open spec fn record_with_id(s: DbState, id: i32) -> Record {
    s.records[choose|i: int| 0 <= i < s.records.len() && #[trigger] s.records[i].id == id]
}

/// A submitter as a patch leaves it.
pub open spec fn patched(submitter: Submitter, patch: PatchSubmitter) -> Submitter {
    match patch.banned {
        Some(banned) => Submitter { banned, ..submitter },
        None => submitter,
    }
}

/// Asks for the submitter at an address, created if new.
pub struct SubmitterByIp(pub NetworkAddress);

/// Asks for the player of a name, created if new.
pub struct PlayerByName(pub String);

/// Asks for the demon of a name.
pub struct DemonByName(pub String);

/// Asks for the player and the demon of a submission, by their names.
pub struct ResolveSubmissionData(pub String, pub String);

/// A submission together with the party that sent it.
pub struct ProcessSubmission(pub Submission, pub Submitter);

/// Asks for the record of an id.
pub struct RecordById(pub i32);

/// The store of submitters, players, demons and records.
pub struct DatabaseActor {
    submitters: Vec<Submitter>,
    players: Vec<Player>,
    demons: Vec<Demon>,
    records: Vec<Record>,
    next_submitter_id: i32,
    next_player_id: i32,
    next_record_id: i32,
}

impl View for DatabaseActor {
    type V = DbState;

    closed spec fn view(&self) -> DbState {
        DbState {
            submitters: self.submitters@,
            players: self.players@,
            demons: self.demons@,
            records: self.records@,
            next_submitter_id: self.next_submitter_id as int,
            next_player_id: self.next_player_id as int,
            next_record_id: self.next_record_id as int,
        }
    }
}

impl DatabaseActor {
    /// An empty store.
    pub fn new() -> (r: DatabaseActor)
        ensures
            well_formed(r@),
            r@.submitters.len() == 0,
            r@.players.len() == 0,
            r@.demons.len() == 0,
            r@.records.len() == 0,
            r@.next_submitter_id == 1,
            r@.next_player_id == 1,
            r@.next_record_id == 1,
    {
        DatabaseActor {
            submitters: Vec::new(),
            players: Vec::new(),
            demons: Vec::new(),
            records: Vec::new(),
            next_submitter_id: 1,
            next_player_id: 1,
            next_record_id: 1,
        }
    }

    /// Adds a demon to the list, unless one of that name is there already.
    pub fn add_demon(&mut self, demon: Demon) -> (added: bool)
        requires
            well_formed(old(self)@),
        ensures
            well_formed(final(self)@),
            added == !has_demon(old(self)@, demon.name@),
            added ==> final(self)@ == (DbState { demons: old(self)@.demons.push(demon), ..old(self)@ }),
            !added ==> final(self)@ == old(self)@,
    {
        let mut i: usize = 0;
        while i < self.demons.len()
            invariant
                i <= self.demons@.len(),
                self@ == old(self)@,
                well_formed(self@),
                forall|j: int| 0 <= j < i ==> #[trigger] self.demons@[j].name@ != demon.name@,
            decreases self.demons@.len() - i,
        {
            if self.demons[i].name.eq(&demon.name) {
                return false;
            }
            i = i + 1;
        }
        self.demons.push(demon);
        true
    }

    /// Resolves the submitter at an address, creating it if it is new.
    pub fn submitter_by_ip(&mut self, msg: SubmitterByIp) -> (r: Result<Submitter, PointercrateError>)
        requires
            well_formed(old(self)@),
        ensures
            well_formed(final(self)@),
            final(self)@ == resolve_submitter(old(self)@, msg.0).0,
            r == resolve_submitter(old(self)@, msg.0).1,
    {
        let ip = msg.0;
        let mut i: usize = 0;
        while i < self.submitters.len()
            invariant
                i <= self.submitters@.len(),
                self@ == old(self)@,
                well_formed(self@),
                ip == msg.0,
                forall|j: int| 0 <= j < i ==> #[trigger] self.submitters@[j].ip != ip,
            decreases self.submitters@.len() - i,
        {
            if self.submitters[i].ip == ip {
                let found = self.submitters[i];
                proof {
                    assert(self@.submitters[i as int].ip == ip);
                    assert(has_submitter(self@, ip));
                    let k = choose|k: int| 0 <= k < self@.submitters.len() && #[trigger] self@.submitters[k].ip == ip;
                    assert(self@.submitters[k].ip == self@.submitters[i as int].ip);
                }
                return Ok(found);
            }
            i = i + 1;
        }
        if self.next_submitter_id >= MAX_ID {
            return Err(PointercrateError::DatabaseError);
        }
        let created = Submitter { id: self.next_submitter_id, ip, banned: false };
        self.submitters.push(created);
        self.next_submitter_id = self.next_submitter_id + 1;
        Ok(created)
    }

    /// Resolves the player of a name, regardless of case, creating it if it
    /// is new.
    pub fn player_by_name(&mut self, msg: PlayerByName) -> (r: Result<Player, PointercrateError>)
        requires
            well_formed(old(self)@),
        ensures
            well_formed(final(self)@),
            final(self)@ == resolve_player(old(self)@, msg.0).0,
            r == resolve_player(old(self)@, msg.0).1,
    {
        let name = msg.0;
        let mut i: usize = 0;
        while i < self.players.len()
            invariant
                i <= self.players@.len(),
                self@ == old(self)@,
                well_formed(self@),
                name == msg.0,
                forall|j: int| 0 <= j < i ==> lower_of(#[trigger] self.players@[j].name@) != lower_of(name@),
            decreases self.players@.len() - i,
        {
            if same_name(&self.players[i].name, &name) {
                let found = self.players[i].copied();
                proof {
                    assert(lower_of(self@.players[i as int].name@) == lower_of(name@));
                    assert(has_player(self@, name@));
                    let k = choose|k: int|
                        0 <= k < self@.players.len() && lower_of(#[trigger] self@.players[k].name@) == lower_of(name@);
                    assert(lower_of(self@.players[k].name@) == lower_of(self@.players[i as int].name@));
                }
                return Ok(found);
            }
            i = i + 1;
        }
        if self.next_player_id >= MAX_ID {
            return Err(PointercrateError::DatabaseError);
        }
        let created = Player { id: self.next_player_id, name, banned: false };
        self.players.push(created.copied());
        self.next_player_id = self.next_player_id + 1;
        Ok(created)
    }

    /// Looks up a demon by its exact name.
    pub fn demon_by_name(&self, msg: DemonByName) -> (r: Result<Demon, PointercrateError>)
        requires
            well_formed(self@),
        ensures
            r == lookup_demon(self@, msg.0),
    {
        let name = msg.0;
        let mut i: usize = 0;
        while i < self.demons.len()
            invariant
                i <= self.demons@.len(),
                well_formed(self@),
                name == msg.0,
                forall|j: int| 0 <= j < i ==> #[trigger] self.demons@[j].name@ != name@,
            decreases self.demons@.len() - i,
        {
            if self.demons[i].name.eq(&name) {
                proof {
                    assert(self@.demons[i as int].name@ == name@);
                    assert(has_demon(self@, name@));
                    let k = choose|k: int| 0 <= k < self@.demons.len() && #[trigger] self@.demons[k].name@ == name@;
                    assert(self@.demons[k].name@ == self@.demons[i as int].name@);
                }
                return Ok(self.demons[i].copied());
            }
            i = i + 1;
        }
        Err(PointercrateError::ModelNotFound { model: "Demon", identified_by: name })
    }
    /// Resolves the player and the demon that a submission names.
    pub fn resolve_submission_data(&mut self, msg: ResolveSubmissionData) -> (r: Result<
        (Player, Demon),
        PointercrateError,
    >)
        requires
            well_formed(old(self)@),
        ensures
            well_formed(final(self)@),
            final(self)@ == resolve_player(old(self)@, msg.0).0,
            r == (match resolve_player(old(self)@, msg.0).1 {
                Err(e) => Err(e),
                Ok(player) => match lookup_demon(final(self)@, msg.1) {
                    Err(e) => Err(e),
                    Ok(demon) => Ok((player, demon)),
                },
            }),
    {
        let player = self.player_by_name(PlayerByName(msg.0))?;
        let demon = self.demon_by_name(DemonByName(msg.1))?;
        Ok((player, demon))
    }

    /// The stored duplicate of a submission with the best-known progress, if
    /// any.
    fn find_duplicate(&self, player: i32, demon: &String, video: &Option<String>) -> (r: Option<usize>)
        ensures
            match r {
                Some(i) => best_duplicate_at(self@.records, i as int, player, demon@, *video),
                None => !has_duplicate(self@.records, player, demon@, *video),
            },
    {
        let mut best: Option<usize> = None;
        let mut i: usize = 0;
        while i < self.records.len()
            invariant
                i <= self.records@.len(),
                match best {
                    Some(b) => b < i && best_duplicate_at(self@.records.subrange(0, i as int), b as int, player, demon@, *video),
                    None => forall|j: int| 0 <= j < i ==> !is_duplicate(#[trigger] self.records@[j], player, demon@, *video),
                },
            decreases self.records@.len() - i,
        {
            let r = &self.records[i];
            let same_slot = r.player.id == player && r.demon.name.eq(demon);
            let same_video = match (video, &r.video) {
                (Some(v), Some(w)) => w.eq(v),
                _ => false,
            };
            let prefix = Ghost(self@.records.subrange(0, i as int));
            let next = Ghost(self@.records.subrange(0, i + 1));
            proof {
                assert(forall|j: int| 0 <= j < i ==> #[trigger] next@[j] == prefix@[j]);
                assert(next@[i as int] == self@.records[i as int]);
            }
            let ghost previous = best;
            if same_slot || same_video {
                match best {
                    None => {
                        best = Some(i);
                    },
                    Some(b) => {
                        if r.progress > self.records[b].progress {
                            best = Some(i);
                        }
                    },
                }
            }
            proof {
                if let Some(b) = best {
                    assert(next@[b as int] == self@.records[b as int]);
                    if let Some(p) = previous {
                        assert(prefix@[p as int] == self@.records[p as int]);
                    }
                    assert forall|j: int|
                        0 <= j < next@.len() && is_duplicate(#[trigger] next@[j], player, demon@, *video) implies next@[j].progress
                            <= next@[b as int].progress by {
                        if j < i {
                            assert(next@[j] == prefix@[j]);
                        }
                    }
                    assert forall|j: int|
                        0 <= j < b && is_duplicate(#[trigger] next@[j], player, demon@, *video) implies next@[j].progress
                            < next@[b as int].progress by {
                        assert(next@[j] == prefix@[j]);
                        assert(prefix@[j] == self@.records[j]);
                    }
                }
            }
            i = i + 1;
        }
        proof {
            assert(self@.records.subrange(0, i as int) =~= self@.records);
        }
        best
    }

    /// Processes a submission. `video` is the outcome of validating the
    /// submission's video reference (`Ok(None)` where it gives none). Yields
    /// the new record, or `None` where the submission was only to be checked.
    pub fn process_submission(
        &mut self,
        msg: ProcessSubmission,
        video: Result<Option<String>, PointercrateError>,
    ) -> (r: Result<Option<Record>, PointercrateError>)
        requires
            well_formed(old(self)@),
            msg.0.video is None ==> video == Ok::<Option<String>, PointercrateError>(None),
            msg.0.video is Some ==> video != Ok::<Option<String>, PointercrateError>(None),
        ensures
            well_formed(final(self)@),
            final(self)@ == process(old(self)@, msg.0, msg.1, video).0,
            r == process(old(self)@, msg.0, msg.1, video).1,
    {
        let ProcessSubmission(submission, submitter) = msg;
        if submitter.banned {
            return Err(PointercrateError::BannedFromSubmissions);
        }
        let video = match video {
            Err(e) => return Err(e),
            Ok(v) => v,
        };
        let Submission { progress, player, demon, video: _, verify_only } = submission;
        let player = self.player_by_name(PlayerByName(player))?;
        let demon = self.demon_by_name(DemonByName(demon))?;
        check_eligibility(&player, &demon, progress)?;

        let found = self.find_duplicate(player.id, &demon.name, &video);
        let existing = match found {
            Some(i) => Some((self.records[i].status, self.records[i].progress)),
            None => None,
        };
        proof {
            if let Some(i) = found {
                lemma_best_duplicate_unique(self@.records, i as int, player.id, demon.name@, video);
            }
        }
        let decision = resolve_duplicate(existing, progress, verify_only)?;
        if decision == Resolution::Unchanged {
            return Ok(None);
        }
        if self.next_record_id >= MAX_ID {
            return Err(PointercrateError::DatabaseError);
        }
        if decision == Resolution::Supersede {
            if let Some(i) = found {
                self.records.remove(i);
            }
        }
        let created = Record {
            id: self.next_record_id,
            progress,
            video,
            status: RecordStatus::Submitted,
            player,
            submitter: submitter.id,
            demon,
        };
        self.records.push(created.copied());
        self.next_record_id = self.next_record_id + 1;
        Ok(Some(created))
    }
    /// Looks up a record by its id.
    pub fn record_by_id(&self, msg: RecordById) -> (r: Result<Record, PointercrateError>)
        requires
            well_formed(self@),
        ensures
            has_record(self@, msg.0) ==> r == Ok::<Record, PointercrateError>(record_with_id(self@, msg.0)),
            !has_record(self@, msg.0) ==> (match r {
                Err(PointercrateError::ModelNotFound { model, identified_by }) => model == "Record"
                    && to_string_from_display_ensures::<i32>(&msg.0, identified_by),
                _ => false,
            }),
    {
        let id = msg.0;
        let mut i: usize = 0;
        while i < self.records.len()
            invariant
                i <= self.records@.len(),
                well_formed(self@),
                id == msg.0,
                forall|j: int| 0 <= j < i ==> #[trigger] self.records@[j].id != id,
            decreases self.records@.len() - i,
        {
            if self.records[i].id == id {
                proof {
                    assert(has_record(self@, id));
                    let k = choose|k: int| 0 <= k < self@.records.len() && #[trigger] self@.records[k].id == id;
                    assert(self@.records[k].id == self@.records[i as int].id);
                }
                return Ok(self.records[i].copied());
            }
            i = i + 1;
        }
        Err(PointercrateError::ModelNotFound { model: "Record", identified_by: id.to_string() })
    }

    /// Applies a patch to a submitter and stores its new ban state.
    pub fn patch_submitter(&mut self, submitter: Submitter, patch: PatchSubmitter) -> (r: Submitter)
        requires
            well_formed(old(self)@),
        ensures
            well_formed(final(self)@),
            r == patched(submitter, patch),
            final(self)@.players == old(self)@.players,
            final(self)@.demons == old(self)@.demons,
            final(self)@.records == old(self)@.records,
            final(self)@.submitters.len() == old(self)@.submitters.len(),
            forall|i: int|
                0 <= i < old(self)@.submitters.len() ==> #[trigger] final(self)@.submitters[i] == (if old(
                    self,
                )@.submitters[i].id == submitter.id {
                    Submitter { banned: r.banned, ..old(self)@.submitters[i] }
                } else {
                    old(self)@.submitters[i]
                }),
            final(self)@.next_submitter_id == old(self)@.next_submitter_id,
            final(self)@.next_player_id == old(self)@.next_player_id,
            final(self)@.next_record_id == old(self)@.next_record_id,
    {
        let mut updated = submitter;
        if let Some(banned) = patch.banned {
            updated.banned = banned;
        }
        let mut i: usize = 0;
        while i < self.submitters.len()
            invariant
                i <= self.submitters@.len(),
                self@.submitters.len() == old(self)@.submitters.len(),
                self@.players == old(self)@.players,
                self@.demons == old(self)@.demons,
                self@.records == old(self)@.records,
                self@.next_submitter_id == old(self)@.next_submitter_id,
                self@.next_player_id == old(self)@.next_player_id,
                self@.next_record_id == old(self)@.next_record_id,
                well_formed(self@),
                updated == patched(submitter, patch),
                forall|j: int|
                    0 <= j < self@.submitters.len() ==> #[trigger] self@.submitters[j].id == old(
                        self,
                    )@.submitters[j].id && self@.submitters[j].ip == old(self)@.submitters[j].ip,
                forall|j: int|
                    0 <= j < i ==> #[trigger] self@.submitters[j] == (if old(self)@.submitters[j].id
                        == submitter.id {
                        Submitter { banned: updated.banned, ..old(self)@.submitters[j] }
                    } else {
                        old(self)@.submitters[j]
                    }),
                forall|j: int|
                    i <= j < self@.submitters.len() ==> #[trigger] self@.submitters[j] == old(
                        self,
                    )@.submitters[j],
            decreases self.submitters@.len() - i,
        {
            if self.submitters[i].id == submitter.id {
                let mut row = self.submitters[i];
                row.banned = updated.banned;
                self.submitters.set(i, row);
            }
            i = i + 1;
        }
        updated
    }

    /// Sets the review status of the record with the given id; false where
    /// there is none.
    pub fn set_record_status(&mut self, id: i32, status: RecordStatus) -> (found: bool)
        requires
            well_formed(old(self)@),
        ensures
            well_formed(final(self)@),
            found == has_record(old(self)@, id),
            !found ==> final(self)@ == old(self)@,
            found ==> exists|i: int|
                0 <= i < old(self)@.records.len() && #[trigger] old(self)@.records[i].id == id
                    && final(self)@ == (DbState {
                    records: old(self)@.records.update(i, Record { status, ..old(self)@.records[i] }),
                    ..old(self)@
                }),
    {
        let mut i: usize = 0;
        while i < self.records.len()
            invariant
                i <= self.records@.len(),
                self@ == old(self)@,
                well_formed(self@),
                forall|j: int| 0 <= j < i ==> #[trigger] self.records@[j].id != id,
            decreases self.records@.len() - i,
        {
            if self.records[i].id == id {
                let mut row = self.records[i].copied();
                row.status = status;
                self.records.set(i, row);
                proof {
                    assert(old(self)@.records[i as int].id == id);
                    assert(self@.submitters == old(self)@.submitters);
                    assert(self@.players == old(self)@.players);
                    assert(self@.demons == old(self)@.demons);
                    assert(forall|j: int|
                        0 <= j < self@.records.len() ==> #[trigger] self@.records[j].id == old(self)@.records[j].id);
                }
                return true;
            }
            i = i + 1;
        }
        false
    }

    /// Sets the ban state of the player with the given id; false where there
    /// is none.
    pub fn set_player_banned(&mut self, id: i32, banned: bool) -> (found: bool)
        requires
            well_formed(old(self)@),
        ensures
            well_formed(final(self)@),
            found == (exists|i: int| 0 <= i < old(self)@.players.len() && #[trigger] old(self)@.players[i].id == id),
            !found ==> final(self)@ == old(self)@,
            found ==> exists|i: int|
                0 <= i < old(self)@.players.len() && #[trigger] old(self)@.players[i].id == id
                    && final(self)@ == (DbState {
                    players: old(self)@.players.update(i, Player { banned, ..old(self)@.players[i] }),
                    ..old(self)@
                }),
    {
        let mut i: usize = 0;
        while i < self.players.len()
            invariant
                i <= self.players@.len(),
                self@ == old(self)@,
                well_formed(self@),
                forall|j: int| 0 <= j < i ==> #[trigger] self.players@[j].id != id,
            decreases self.players@.len() - i,
        {
            if self.players[i].id == id {
                let mut row = self.players[i].copied();
                row.banned = banned;
                self.players.set(i, row);
                proof {
                    assert(old(self)@.players[i as int].id == id);
                    assert(self@.submitters == old(self)@.submitters);
                    assert(self@.demons == old(self)@.demons);
                    assert(self@.records == old(self)@.records);
                    assert(forall|j: int|
                        0 <= j < self@.players.len() ==> #[trigger] self@.players[j].id == old(self)@.players[j].id);
                    assert(forall|j: int|
                        0 <= j < self@.players.len() ==> #[trigger] self@.players[j].name@ == old(self)@.players[j].name@);
                }
                return true;
            }
            i = i + 1;
        }
        false
    }
}

} // verus!
