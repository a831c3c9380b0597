//! The records the server keeps in the graph database: players, teams and
//! the blueprints a player has learned.

use vstd::prelude::*;

verus! {

/// A point in time in UTC: whole seconds since the Unix epoch and the
/// nanoseconds past that second.
#[derive(Debug, Clone, Copy, PartialEq, Eq, Structural)]
pub struct Timestamp {
    pub secs: i64,
    pub nanos: u32,
}

/// A player, as the database returns it. `team` lists the teams whose member
/// list holds the player (at most one in practice); the members of that team
/// are themselves players, without the player who asked.
#[derive(Debug)]
pub struct User {
    pub authentication_id: Option<String>,
    pub user_name: Option<String>,
    pub user_id: String,
    pub team: Option<Vec<Team>>,
    pub blueprints: Option<Vec<Blueprint>>,
    pub color: Option<String>,
}

impl Default for User {
    fn default() -> (u: User)
        ensures
            u.authentication_id is None,
            u.user_name is None,
            u.user_id@ == Seq::<char>::empty(),
            u.team is None,
            u.blueprints is None,
            u.color is None,
    {
        User {
            authentication_id: None,
            user_name: None,
            user_id: String::new(),
            team: None,
            blueprints: None,
            color: None,
        }
    }
}

/// A team and, when asked for, its members.
#[derive(Debug)]
pub struct Team {
    pub team_id: String,
    pub team_name: Option<String>,
    pub team_members: Option<Vec<User>>,
}

impl Default for Team {
    fn default() -> (t: Team)
        ensures
            t.team_id@ == Seq::<char>::empty(),
            t.team_name is None,
            t.team_members is None,
    {
        Team { team_id: String::new(), team_name: None, team_members: None }
    }
}

/// A blueprint a player has learned, with the time it was learned.
#[derive(Debug)]
pub struct Blueprint {
    pub bp_id: i32,
    pub bp_date: Timestamp,
}

/// Calls `chrono::Utc::now` and reads the result's `timestamp` and
/// `timestamp_subsec_nanos`. The result is the system clock's current time,
/// which is not stated; stated is only what the source shows of every result:
/// `now` is built from a duration since the Unix epoch, so the seconds are not
/// negative and the nanoseconds are below one second. (`Utc::now` panics if
/// the clock reads a time before the Unix epoch.)
#[verifier::external_body]
fn current_time() -> (t: Timestamp)
    ensures
        t.secs >= 0,
        t.nanos < 1_000_000_000,
{
    let now = chrono::Utc::now();
    Timestamp { secs: now.timestamp(), nanos: now.timestamp_subsec_nanos() }
}

/// A blueprint with id `bp_id`, learned now.
pub fn new_blueprint(bp_id: i32) -> (bp: Blueprint)
    ensures
        bp.bp_id == bp_id,
        bp.bp_date.secs >= 0,
        bp.bp_date.nanos < 1_000_000_000,
{
    Blueprint { bp_id, bp_date: current_time() }
}

} // verus!
