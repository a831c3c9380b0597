//! What the server asks of the graph database: the queries it runs, how it
//! reads their answers, and the mutations it commits. Running a query or a
//! mutation is the caller's work; this module decides what is asked and what
//! the answers mean.

use vstd::prelude::*;
use rand::Rng;
use crate::messages::opt_str;
use crate::records::{Blueprint, Timestamp, User};
use crate::text::{color_string, color_text, decimal, i32_decimal, uuid_string, uuid_text};

verus! {

/// The abstract value of a list of strings.
pub open spec fn strs(v: Seq<String>) -> Seq<Seq<char>> {
    v.map_values(|s: String| s@)
}

fn clone_strings(v: &Vec<String>) -> (r: Vec<String>)
    ensures
        strs(r@) == strs(v@),
{
    let mut r: Vec<String> = Vec::new();
    let mut i: usize = 0;
    while i < v.len()
        invariant
            i <= v@.len(),
            strs(r@) =~= strs(v@).take(i as int),
        decreases v.len() - i,
    {
        let ghost prev = r@;
        r.push(v[i].clone());
        assert(strs(r@) =~= strs(prev).push(v@[i as int]@));
        assert(strs(v@).take(i + 1) =~= strs(v@).take(i as int).push(v@[i as int]@));
        i = i + 1;
    }
    assert(strs(v@).take(v@.len() as int) =~= strs(v@));
    r
}

// ---------------------------------------------------------------------------
// Fresh identifiers
// ---------------------------------------------------------------------------

/// The bytes of a random (version 4, RFC 4122 variant) UUID: the high nibble
/// of byte 6 is 4 and the two high bits of byte 8 are `10`.
pub open spec fn is_v4_uuid(b: Seq<u8>) -> bool {
    &&& b.len() == 16
    &&& b[6] / 16 == 4
    &&& b[8] / 64 == 2
}

/// Calls `uuid::Uuid::new_v4` and reads the UUID's bytes. The bytes are
/// random; the source sets the version nibble to 4 and the variant bits to
/// RFC 4122, which is all that is stated. (`new_v4` panics if the operating
/// system gives no random bytes.)
#[verifier::external_body]
fn random_uuid_bytes() -> (b: [u8; 16])
    ensures
        is_v4_uuid(b@),
{
    *uuid::Uuid::new_v4().as_bytes()
}

/// Calls `rand::Rng::fill` on `rand::thread_rng()` with a three-byte buffer.
/// The bytes are random; nothing is stated of them.
#[verifier::external_body]
fn random_color_bytes() -> [u8; 3] {
    let mut color = [0u8; 3];
    rand::thread_rng().fill(&mut color[..]);
    color
}

/// A fresh random UUID in hyphenated lowercase text.
pub fn new_id() -> (id: String)
    ensures
        exists|b: Seq<u8>| is_v4_uuid(b) && id@ == uuid_text(b),
{
    let b = random_uuid_bytes();
    uuid_string(&b)
}

/// A random `#rrggbb` colour.
pub fn random_color() -> (c: String)
    ensures
        exists|b: Seq<u8>| b.len() == 3 && c@ == color_text(b),
{
    let b = random_color_bytes();
    color_string(&b)
}

// ---------------------------------------------------------------------------
// Queries
// ---------------------------------------------------------------------------

/// A query and its variables.
#[derive(Debug)]
pub struct Query {
    pub text: String,
    pub vars: Vec<(String, String)>,
}

/// The abstract value of a [`Query`].
pub struct QueryView {
    pub text: Seq<char>,
    pub vars: Seq<(Seq<char>, Seq<char>)>,
}

impl View for Query {
    type V = QueryView;

    open spec fn view(&self) -> QueryView {
        QueryView {
            text: self.text@,
            vars: self.vars@.map_values(|p: (String, String)| (p.0@, p.1@)),
        }
    }
}

/// The query for a player's full record: own data, teams with their other
/// members and those members' blueprints, and own blueprints.
pub open spec fn user_query_text() -> Seq<char> {
    r#"query userQuery($auth_id: string) {
  user(func:eq(authentication_id, $auth_id)) {
    authentication_id
    user_name
    user_id
    color
  	~team_members {
      team_id
      team_name
      team_members @filter(not eq(authentication_id, $auth_id)) {
        user_name
        user_id
        color
        blueprints {
          bp_id
          bp_date
        }
      }
    }
    blueprints {
      bp_id
      bp_date
    }
  }
}"#@
}

/// The query for the database uid of a player.
pub open spec fn uid_query_text() -> Seq<char> {
    r#"query userQuery($auth_id: string) {
  user(func:eq(authentication_id, $auth_id)) {
    uid
  }
}"#@
}

/// The query for the uids of a player's blueprint entries with a given id.
pub open spec fn blueprint_query_text() -> Seq<char> {
    r#"query bpQuery($auth_id: string, $bp_id: int) {
  blueprints(func:eq(authentication_id, $auth_id))  {
    uid
    blueprints @filter(eq(bp_id, $bp_id)){
      uid
    }
  }
}"#@
}

/// The query for the uid of the team with a given team id.
pub open spec fn team_query_text() -> Seq<char> {
    r#"query teamQuery($team_id: string) {
  team(func:eq(team_id, $team_id)) {
    uid
  }
}"#@
}

/// The query for a player's uid and the uids of the teams holding the player.
pub open spec fn user_teams_query_text() -> Seq<char> {
    r#"query teamQuery($auth_id: string) {
  user(func:eq(authentication_id, $auth_id)) {
    uid
  	~team_members  {
      uid
    }
  }
}"#@
}

/// The query `text` with the single variable `$auth_id` set to `auth_id`.
pub open spec fn auth_query(text: Seq<char>, auth_id: Seq<char>) -> QueryView {
    QueryView { text, vars: seq![("$auth_id"@, auth_id)] }
}

fn one_var_query(text: &str, name: &str, value: &str) -> (q: Query)
    ensures
        q@ == (QueryView { text: text@, vars: seq![(name@, value@)] }),
{
    let mut vars: Vec<(String, String)> = Vec::new();
    vars.push((String::from_str(name), String::from_str(value)));
    let q = Query { text: String::from_str(text), vars };
    assert(q@.vars =~= seq![(name@, value@)]);
    q
}

/// The query for the full record of the player with authentication id `auth_id`.
pub fn user_query(auth_id: &str) -> (q: Query)
    ensures
        q@ == auth_query(user_query_text(), auth_id@),
{
    one_var_query(r#"query userQuery($auth_id: string) {
  user(func:eq(authentication_id, $auth_id)) {
    authentication_id
    user_name
    user_id
    color
  	~team_members {
      team_id
      team_name
      team_members @filter(not eq(authentication_id, $auth_id)) {
        user_name
        user_id
        color
        blueprints {
          bp_id
          bp_date
        }
      }
    }
    blueprints {
      bp_id
      bp_date
    }
  }
}"#, "$auth_id", auth_id)
}

/// The query for the database uid of the player with authentication id `auth_id`.
pub fn uid_query(auth_id: &str) -> (q: Query)
    ensures
        q@ == auth_query(uid_query_text(), auth_id@),
{
    one_var_query(r#"query userQuery($auth_id: string) {
  user(func:eq(authentication_id, $auth_id)) {
    uid
  }
}"#, "$auth_id", auth_id)
}

/// The query for the uids of the player's blueprint entries with id `bp_id`;
/// `$bp_id` is the decimal text of `bp_id`.
pub fn blueprint_query(auth_id: &str, bp_id: i32) -> (q: Query)
    ensures
        q@ == (QueryView {
            text: blueprint_query_text(),
            vars: seq![("$auth_id"@, auth_id@), ("$bp_id"@, decimal(bp_id as int))],
        }),
{
    let mut vars: Vec<(String, String)> = Vec::new();
    vars.push((String::from_str("$auth_id"), String::from_str(auth_id)));
    vars.push((String::from_str("$bp_id"), i32_decimal(bp_id)));
    let q = Query {
        text: String::from_str(r#"query bpQuery($auth_id: string, $bp_id: int) {
  blueprints(func:eq(authentication_id, $auth_id))  {
    uid
    blueprints @filter(eq(bp_id, $bp_id)){
      uid
    }
  }
}"#),
        vars,
    };
    assert(q@.vars =~= seq![("$auth_id"@, auth_id@), ("$bp_id"@, decimal(bp_id as int))]);
    q
}

/// The query for the uid of the team with team id `team_id`.
pub fn team_query(team_id: &str) -> (q: Query)
    ensures
        q@ == (QueryView { text: team_query_text(), vars: seq![("$team_id"@, team_id@)] }),
{
    one_var_query(r#"query teamQuery($team_id: string) {
  team(func:eq(team_id, $team_id)) {
    uid
  }
}"#, "$team_id", team_id)
}

/// The query for the uid of the player with authentication id `auth_id` and
/// the uids of the teams holding the player.
pub fn user_teams_query(auth_id: &str) -> (q: Query)
    ensures
        q@ == auth_query(user_teams_query_text(), auth_id@),
{
    one_var_query(r#"query teamQuery($auth_id: string) {
  user(func:eq(authentication_id, $auth_id)) {
    uid
  	~team_members  {
      uid
    }
  }
}"#, "$auth_id", auth_id)
}

// ---------------------------------------------------------------------------
// Reading query answers
// ---------------------------------------------------------------------------

/// The player record a user query answers with: the last one listed, if any.
pub fn pick_user(users: Vec<User>) -> (u: Option<User>)
    ensures
        users@.len() == 0 ==> u is None,
        users@.len() > 0 ==> u == Some(users@.last()),
{
    let mut users = users;
    users.pop()
}

/// The uid a uid query answers with: that of the first player listed. The
/// answer must list a player.
pub fn first_uid(uids: &Vec<String>) -> (uid: Option<String>)
    requires
        uids@.len() > 0,
    ensures
        opt_str(uid) == Some(uids@[0]@),
{
    Some(uids[0].clone())
}

/// The uid of the team a team query found: only when exactly one team has the id.
pub fn sole_team_uid(uids: &Vec<String>) -> (uid: Option<String>)
    ensures
        opt_str(uid) == (if uids@.len() == 1 { Some(uids@[0]@) } else { None }),
{
    if uids.len() == 1 {
        Some(uids[0].clone())
    } else {
        None
    }
}

/// Whether joining succeeds once the team query has been read: exactly when
/// a team uid was found.
pub fn team_join_succeeds(team_uid: &Option<String>) -> (joined: bool)
    ensures
        joined == team_uid is Some,
{
    team_uid.is_some()
}

/// A player's uid with the uids of some of the player's blueprint entries.
#[derive(Debug)]
pub struct UserBlueprintUids {
    pub uid: String,
    pub blueprint_uids: Vec<String>,
}

/// A player's uid with the uids of the teams holding the player, if any are listed.
#[derive(Debug)]
pub struct UserTeamUids {
    pub uid: String,
    pub team_uids: Option<Vec<String>>,
}

// ---------------------------------------------------------------------------
// Mutations
// ---------------------------------------------------------------------------

/// A new player: authentication id, public id and colour.
#[derive(Debug)]
pub struct NewUser {
    pub authentication_id: String,
    pub user_id: String,
    pub color: String,
}

/// A change to commit to the database.
#[derive(Debug)]
pub enum Mutation {
    /// Add a new player.
    CreateUser(NewUser),
    /// Add a learned blueprint to the player with this uid.
    AddBlueprint { uid: String, blueprint: Blueprint },
    /// Delete these blueprint entries of the player with this uid.
    RemoveBlueprints { uid: String, blueprint_uids: Vec<String> },
    /// Delete every blueprint entry of the player with this uid.
    ClearBlueprints { uid: String },
    /// Add a team with this team id whose only member is the player with this uid.
    CreateTeam { team_id: String, member_uid: String },
    /// Add the player with this uid to the members of the team with this uid.
    AddMember { team_uid: String, member_uid: String },
    /// Delete the player with this uid from the members of the team with this uid.
    RemoveMember { team_uid: String, member_uid: String },
    /// Set the name of the player with this uid.
    SetName { uid: String, name: String },
    /// Set the colour of the player with this uid.
    SetColor { uid: String, color: String },
}

/// The abstract value of a [`Mutation`].
pub enum MutationView {
    CreateUser { authentication_id: Seq<char>, user_id: Seq<char>, color: Seq<char> },
    AddBlueprint { uid: Seq<char>, bp_id: i32, bp_date: Timestamp },
    RemoveBlueprints { uid: Seq<char>, blueprint_uids: Seq<Seq<char>> },
    ClearBlueprints { uid: Seq<char> },
    CreateTeam { team_id: Seq<char>, member_uid: Seq<char> },
    AddMember { team_uid: Seq<char>, member_uid: Seq<char> },
    RemoveMember { team_uid: Seq<char>, member_uid: Seq<char> },
    SetName { uid: Seq<char>, name: Seq<char> },
    SetColor { uid: Seq<char>, color: Seq<char> },
}

impl View for Mutation {
    type V = MutationView;

    open spec fn view(&self) -> MutationView {
        match self {
            Mutation::CreateUser(u) => MutationView::CreateUser {
                authentication_id: u.authentication_id@,
                user_id: u.user_id@,
                color: u.color@,
            },
            Mutation::AddBlueprint { uid, blueprint } => MutationView::AddBlueprint {
                uid: uid@,
                bp_id: blueprint.bp_id,
                bp_date: blueprint.bp_date,
            },
            Mutation::RemoveBlueprints { uid, blueprint_uids } => MutationView::RemoveBlueprints {
                uid: uid@,
                blueprint_uids: strs(blueprint_uids@),
            },
            Mutation::ClearBlueprints { uid } => MutationView::ClearBlueprints { uid: uid@ },
            Mutation::CreateTeam { team_id, member_uid } => MutationView::CreateTeam {
                team_id: team_id@,
                member_uid: member_uid@,
            },
            Mutation::AddMember { team_uid, member_uid } => MutationView::AddMember {
                team_uid: team_uid@,
                member_uid: member_uid@,
            },
            Mutation::RemoveMember { team_uid, member_uid } => MutationView::RemoveMember {
                team_uid: team_uid@,
                member_uid: member_uid@,
            },
            Mutation::SetName { uid, name } => MutationView::SetName { uid: uid@, name: name@ },
            Mutation::SetColor { uid, color } => MutationView::SetColor { uid: uid@, color: color@ },
        }
    }
}

/// Whether a mutation deletes data (it is sent as a deletion) rather than
/// setting it.
pub open spec fn deletes(m: MutationView) -> bool {
    match m {
        MutationView::RemoveBlueprints { .. } => true,
        MutationView::ClearBlueprints { .. } => true,
        MutationView::RemoveMember { .. } => true,
        _ => false,
    }
}

impl Mutation {
    /// Whether this mutation is sent as a deletion rather than as new data.
    pub fn is_deletion(&self) -> (d: bool)
        ensures
            d == deletes(self@),
    {
        match self {
            Mutation::RemoveBlueprints { .. } => true,
            Mutation::ClearBlueprints { .. } => true,
            Mutation::RemoveMember { .. } => true,
            _ => false,
        }
    }
}

/// A new player with a fresh authentication id, a fresh public id and a
/// random colour.
pub fn new_user() -> (u: NewUser)
    ensures
        exists|b: Seq<u8>| is_v4_uuid(b) && u.authentication_id@ == uuid_text(b),
        exists|b: Seq<u8>| is_v4_uuid(b) && u.user_id@ == uuid_text(b),
        exists|b: Seq<u8>| b.len() == 3 && u.color@ == color_text(b),
{
    let authentication_id = new_id();
    let user_id = new_id();
    let color = random_color();
    NewUser { authentication_id, user_id, color }
}

/// The mutation that records a new player.
pub fn create_user_mutation(user: NewUser) -> (m: Mutation)
    ensures
        m@ == (MutationView::CreateUser {
            authentication_id: user.authentication_id@,
            user_id: user.user_id@,
            color: user.color@,
        }),
{
    Mutation::CreateUser(user)
}

/// The mutation that adds `blueprint` to the player with uid `uid`.
pub fn add_blueprint_mutation(uid: String, blueprint: Blueprint) -> (m: Mutation)
    ensures
        m@ == (MutationView::AddBlueprint {
            uid: uid@,
            bp_id: blueprint.bp_id,
            bp_date: blueprint.bp_date,
        }),
{
    Mutation::AddBlueprint { uid, blueprint }
}

/// The mutation that deletes the blueprint entries a blueprint query found:
/// those listed for the first player in the answer.
pub fn remove_blueprints_mutation(found: &Vec<UserBlueprintUids>) -> (m: Mutation)
    requires
        found@.len() > 0,
    ensures
        m@ == (MutationView::RemoveBlueprints {
            uid: found@[0].uid@,
            blueprint_uids: strs(found@[0].blueprint_uids@),
        }),
{
    let first = &found[0];
    Mutation::RemoveBlueprints {
        uid: first.uid.clone(),
        blueprint_uids: clone_strings(&first.blueprint_uids),
    }
}

/// The mutation that deletes every blueprint entry of the player with uid `uid`.
pub fn clear_blueprints_mutation(uid: String) -> (m: Mutation)
    ensures
        m@ == (MutationView::ClearBlueprints { uid: uid@ }),
{
    Mutation::ClearBlueprints { uid }
}

/// The mutation that creates the team `team_id` with the player `member_uid`
/// as its only member.
pub fn create_team_mutation(team_id: String, member_uid: String) -> (m: Mutation)
    ensures
        m@ == (MutationView::CreateTeam { team_id: team_id@, member_uid: member_uid@ }),
{
    Mutation::CreateTeam { team_id, member_uid }
}

/// The mutation that adds the player `member_uid` to the team `team_uid`.
pub fn join_team_mutation(team_uid: String, member_uid: String) -> (m: Mutation)
    ensures
        m@ == (MutationView::AddMember { team_uid: team_uid@, member_uid: member_uid@ }),
{
    Mutation::AddMember { team_uid, member_uid }
}

/// The removals from teams that take a player out of every team a user-teams
/// query listed for the first player in its answer.
pub open spec fn leave_view(u: UserTeamUids) -> Seq<MutationView> {
    match u.team_uids {
        Some(ts) => strs(ts@).map_values(
            |t: Seq<char>| MutationView::RemoveMember { team_uid: t, member_uid: u.uid@ },
        ),
        None => Seq::empty(),
    }
}

/// The abstract value of a list of mutations.
pub open spec fn mutations_view(v: Seq<Mutation>) -> Seq<MutationView> {
    v.map_values(|m: Mutation| m@)
}

/// The mutations that take a player out of every team a user-teams query
/// found: one removal per team listed for the first player in the answer,
/// in the order listed.
pub fn leave_team_mutations(found: &Vec<UserTeamUids>) -> (ms: Vec<Mutation>)
    requires
        found@.len() > 0,
    ensures
        mutations_view(ms@) == leave_view(found@[0]),
{
    let user = &found[0];
    let mut ms: Vec<Mutation> = Vec::new();
    match &user.team_uids {
        Some(teams) => {
            let ghost target = leave_view(*user);
            let mut i: usize = 0;
            while i < teams.len()
                invariant
                    i <= teams@.len(),
                    target == leave_view(*user),
                    user.team_uids == Some(*teams),
                    mutations_view(ms@) =~= target.take(i as int),
                decreases teams.len() - i,
            {
                let ghost prev = ms@;
                ms.push(Mutation::RemoveMember { team_uid: teams[i].clone(), member_uid: user.uid.clone() });
                assert(mutations_view(ms@) =~= mutations_view(prev).push(target[i as int]));
                assert(target.take(i + 1) =~= target.take(i as int).push(target[i as int]));
                i = i + 1;
            }
            assert(target.take(teams@.len() as int) =~= target);
        },
        None => {
            assert(mutations_view(ms@) =~= leave_view(*user));
        },
    }
    ms
}

/// The mutation that sets the name of the player `uid`.
pub fn update_name_mutation(uid: String, name: String) -> (m: Mutation)
    ensures
        m@ == (MutationView::SetName { uid: uid@, name: name@ }),
{
    Mutation::SetName { uid, name }
}

/// The mutation that sets the colour of the player `uid`.
pub fn update_color_mutation(uid: String, color: String) -> (m: Mutation)
    ensures
        m@ == (MutationView::SetColor { uid: uid@, color: color@ }),
{
    Mutation::SetColor { uid, color }
}

/// Leaving takes the player out of every team listed and touches nothing
/// else: one deletion per listed team, each removing exactly this player
/// from exactly that team.
pub proof fn lemma_leave_removes_player_from_every_team(u: UserTeamUids)
    ensures
        leave_view(u).len() == (match u.team_uids {
            Some(ts) => ts@.len(),
            None => 0,
        }),
        forall|i: int| 0 <= i < leave_view(u).len() ==> {
            &&& deletes(#[trigger] leave_view(u)[i])
            &&& leave_view(u)[i] == MutationView::RemoveMember {
                team_uid: strs(u.team_uids.unwrap()@)[i],
                member_uid: u.uid@,
            }
        },
{
}

/// What each query asks the database: the blueprint query selects, among the
/// blueprint entries of the player with `$auth_id`, exactly those whose
/// `bp_id` equals `$bp_id` (`@filter(eq(bp_id, $bp_id))`); the team query
/// selects the teams whose `team_id` equals `$team_id`; the player queries
/// select the player whose `authentication_id` equals `$auth_id`, the full
/// query leaving that player out of the listed team members.
pub proof fn lemma_query_texts(text: Seq<char>, auth_id: Seq<char>)
    ensures
        auth_query(text, auth_id) == (QueryView { text, vars: seq![("$auth_id"@, auth_id)] }),
        user_query_text() == r#"query userQuery($auth_id: string) {
  user(func:eq(authentication_id, $auth_id)) {
    authentication_id
    user_name
    user_id
    color
  	~team_members {
      team_id
      team_name
      team_members @filter(not eq(authentication_id, $auth_id)) {
        user_name
        user_id
        color
        blueprints {
          bp_id
          bp_date
        }
      }
    }
    blueprints {
      bp_id
      bp_date
    }
  }
}"#@,
        uid_query_text() == r#"query userQuery($auth_id: string) {
  user(func:eq(authentication_id, $auth_id)) {
    uid
  }
}"#@,
        blueprint_query_text() == r#"query bpQuery($auth_id: string, $bp_id: int) {
  blueprints(func:eq(authentication_id, $auth_id))  {
    uid
    blueprints @filter(eq(bp_id, $bp_id)){
      uid
    }
  }
}"#@,
        team_query_text() == r#"query teamQuery($team_id: string) {
  team(func:eq(team_id, $team_id)) {
    uid
  }
}"#@,
        user_teams_query_text() == r#"query teamQuery($auth_id: string) {
  user(func:eq(authentication_id, $auth_id)) {
    uid
  	~team_members  {
      uid
    }
  }
}"#@,
{
}

/// Exactly the removals are sent as deletions: deleting blueprint entries,
/// clearing blueprints, and taking a player out of a team.
pub proof fn lemma_deletions(m: MutationView)
    ensures
        deletes(m) <==> (m is RemoveBlueprints || m is ClearBlueprints || m is RemoveMember),
{
}

} // verus!
