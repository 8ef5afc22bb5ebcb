use vstd::prelude::*;

verus! {

/// Review state of a record.
#[derive(Clone, Copy, Debug, PartialEq, Eq, Structural)]
pub enum RecordStatus {
    Submitted,
    Approved,
    Rejected,
    UnderConsideration,
}

/// A network address with its prefix length, the identity of a submitter.
/// An IPv4 address is held in the low 32 bits of `address`.
#[derive(Clone, Copy, Debug, PartialEq, Eq, Structural)]
pub struct NetworkAddress {
    pub address: u128,
    pub prefix: u8,
    pub is_v6: bool,
}

/// The party that sends submissions, known by its network address.
#[derive(Clone, Copy, Debug, PartialEq, Eq, Structural)]
pub struct Submitter {
    pub id: i32,
    pub ip: NetworkAddress,
    pub banned: bool,
}

/// A player; the name is looked up without regard to case.
#[derive(Clone, Debug, PartialEq, Eq)]
pub struct Player {
    pub id: i32,
    pub name: String,
    pub banned: bool,
}

/// A demon of the list: its rank and the least progress it accepts.
#[derive(Clone, Debug, PartialEq, Eq)]
pub struct Demon {
    pub name: String,
    pub position: i16,
    pub requirement: i16,
}

/// A claimed run of a demon by a player.
#[derive(Clone, Debug, PartialEq, Eq)]
pub struct Record {
    pub id: i32,
    pub progress: i16,
    pub video: Option<String>,
    pub status: RecordStatus,
    pub player: Player,
    pub submitter: i32,
    pub demon: Demon,
}

/// A submission as it comes in: names, not resolved objects.
#[derive(Clone, Debug, PartialEq, Eq)]
pub struct Submission {
    pub progress: i16,
    pub player: String,
    pub demon: String,
    pub video: Option<String>,
    pub verify_only: bool,
}

/// A change of a submitter's ban state; `None` leaves it as it is.
#[derive(Clone, Copy, Debug, PartialEq, Eq, Structural)]
pub struct PatchSubmitter {
    pub banned: Option<bool>,
}

impl Player {
    /// A copy of the player.
    pub fn copied(&self) -> (r: Player)
        ensures
            r == *self,
    {
        Player { id: self.id, name: self.name.clone(), banned: self.banned }
    }
}

impl Demon {
    /// A copy of the demon.
    pub fn copied(&self) -> (r: Demon)
        ensures
            r == *self,
    {
        Demon { name: self.name.clone(), position: self.position, requirement: self.requirement }
    }
}

/// A copy of an optional video reference.
pub fn copy_video(v: &Option<String>) -> (r: Option<String>)
    ensures
        r == *v,
{
    match v {
        Some(s) => Some(s.clone()),
        None => None,
    }
}

impl Record {
    /// A copy of the record.
    pub fn copied(&self) -> (r: Record)
        ensures
            r == *self,
    {
        Record {
            id: self.id,
            progress: self.progress,
            video: copy_video(&self.video),
            status: self.status,
            player: self.player.copied(),
            submitter: self.submitter,
            demon: self.demon.copied(),
        }
    }
}

} // verus!
