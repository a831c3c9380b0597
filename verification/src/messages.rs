//! The messages exchanged with game clients over the websocket.
//!
//! A client sends a [`ClientMessage`] whose optional fields each ask for one
//! thing; the server answers with [`ServerMessage`]s whose absent fields are
//! left out of the JSON text entirely.

use vstd::prelude::*;

verus! {

/// The abstract value of an optional string.
pub open spec fn opt_str(o: Option<String>) -> Option<Seq<char>> {
    match o {
        Some(s) => Some(s@),
        None => None,
    }
}

/// A request from a client. Every field is optional; several may be set at once.
#[derive(Debug)]
pub struct ClientMessage {
    pub register: Option<bool>,
    pub login: Option<String>,
    pub learned_bp: Option<i32>,
    pub forgot_bp: Option<i32>,
    pub clear_bp: Option<bool>,
    pub join_team: Option<String>,
    pub create_team: Option<bool>,
    pub leave_team: Option<bool>,
    pub update_name: Option<String>,
    pub color: Option<String>,
}

/// The abstract value of a [`ClientMessage`].
pub struct ClientMessageView {
    pub register: Option<bool>,
    pub login: Option<Seq<char>>,
    pub learned_bp: Option<i32>,
    pub forgot_bp: Option<i32>,
    pub clear_bp: Option<bool>,
    pub join_team: Option<Seq<char>>,
    pub create_team: Option<bool>,
    pub leave_team: Option<bool>,
    pub update_name: Option<Seq<char>>,
    pub color: Option<Seq<char>>,
}

impl View for ClientMessage {
    type V = ClientMessageView;

    open spec fn view(&self) -> ClientMessageView {
        ClientMessageView {
            register: self.register,
            login: opt_str(self.login),
            learned_bp: self.learned_bp,
            forgot_bp: self.forgot_bp,
            clear_bp: self.clear_bp,
            join_team: opt_str(self.join_team),
            create_team: self.create_team,
            leave_team: self.leave_team,
            update_name: opt_str(self.update_name),
            color: opt_str(self.color),
        }
    }
}

impl ClientMessageView {
    /// The message with no field set.
    pub open spec fn empty() -> ClientMessageView {
        ClientMessageView {
            register: None,
            login: None,
            learned_bp: None,
            forgot_bp: None,
            clear_bp: None,
            join_team: None,
            create_team: None,
            leave_team: None,
            update_name: None,
            color: None,
        }
    }
}

impl Default for ClientMessage {
    fn default() -> (m: ClientMessage)
        ensures
            m@ == ClientMessageView::empty(),
    {
        ClientMessage {
            register: None,
            login: None,
            learned_bp: None,
            forgot_bp: None,
            clear_bp: None,
            join_team: None,
            create_team: None,
            leave_team: None,
            update_name: None,
            color: None,
        }
    }
}

/// One member of the player's team, as reported to the player.
#[derive(Debug)]
pub struct TeamMember {
    pub user_name: Option<String>,
    pub user_id: String,
    pub color: Option<String>,
}

/// The abstract value of a [`TeamMember`].
pub struct TeamMemberView {
    pub user_name: Option<Seq<char>>,
    pub user_id: Seq<char>,
    pub color: Option<Seq<char>>,
}

impl View for TeamMember {
    type V = TeamMemberView;

    open spec fn view(&self) -> TeamMemberView {
        TeamMemberView {
            user_name: opt_str(self.user_name),
            user_id: self.user_id@,
            color: opt_str(self.color),
        }
    }
}

impl Default for TeamMember {
    fn default() -> (m: TeamMember)
        ensures
            m@ == (TeamMemberView { user_name: None, user_id: Seq::empty(), color: None }),
    {
        TeamMember { user_name: None, user_id: String::new(), color: None }
    }
}

/// A blueprint known by one member of the player's team.
#[derive(Debug)]
pub struct TeamUserBp {
    pub user_id: String,
    pub bp: i32,
}

/// The abstract value of a [`TeamUserBp`].
pub struct TeamUserBpView {
    pub user_id: Seq<char>,
    pub bp: i32,
}

impl View for TeamUserBp {
    type V = TeamUserBpView;

    open spec fn view(&self) -> TeamUserBpView {
        TeamUserBpView { user_id: self.user_id@, bp: self.bp }
    }
}

impl Default for TeamUserBp {
    fn default() -> (b: TeamUserBp)
        ensures
            b@ == (TeamUserBpView { user_id: Seq::empty(), bp: 0 }),
    {
        TeamUserBp { user_id: String::new(), bp: 0 }
    }
}

/// An answer or notification from the server. Absent fields are not sent.
#[derive(Debug)]
pub struct ServerMessage {
    pub error: Option<String>,
    pub authentication_id: Option<String>,
    pub authenticated: Option<bool>,
    pub user_id: Option<String>,
    pub user_name: Option<String>,
    pub color: Option<String>,
    pub team_id: Option<String>,
    pub team_members: Option<Vec<TeamMember>>,
    pub known_bps: Option<Vec<i32>>,
    pub team_known_bps: Option<Vec<TeamUserBp>>,
}

/// The abstract value of a [`ServerMessage`].
pub struct ServerMessageView {
    pub error: Option<Seq<char>>,
    pub authentication_id: Option<Seq<char>>,
    pub authenticated: Option<bool>,
    pub user_id: Option<Seq<char>>,
    pub user_name: Option<Seq<char>>,
    pub color: Option<Seq<char>>,
    pub team_id: Option<Seq<char>>,
    pub team_members: Option<Seq<TeamMemberView>>,
    pub known_bps: Option<Seq<i32>>,
    pub team_known_bps: Option<Seq<TeamUserBpView>>,
}

/// The abstract value of an optional list of team members.
pub open spec fn opt_members(o: Option<Vec<TeamMember>>) -> Option<Seq<TeamMemberView>> {
    match o {
        Some(v) => Some(v@.map_values(|m: TeamMember| m@)),
        None => None,
    }
}

/// The abstract value of an optional list of blueprint ids.
pub open spec fn opt_bps(o: Option<Vec<i32>>) -> Option<Seq<i32>> {
    match o {
        Some(v) => Some(v@),
        None => None,
    }
}

/// The abstract value of an optional list of team blueprints.
pub open spec fn opt_team_bps(o: Option<Vec<TeamUserBp>>) -> Option<Seq<TeamUserBpView>> {
    match o {
        Some(v) => Some(v@.map_values(|b: TeamUserBp| b@)),
        None => None,
    }
}

impl View for ServerMessage {
    type V = ServerMessageView;

    open spec fn view(&self) -> ServerMessageView {
        ServerMessageView {
            error: opt_str(self.error),
            authentication_id: opt_str(self.authentication_id),
            authenticated: self.authenticated,
            user_id: opt_str(self.user_id),
            user_name: opt_str(self.user_name),
            color: opt_str(self.color),
            team_id: opt_str(self.team_id),
            team_members: opt_members(self.team_members),
            known_bps: opt_bps(self.known_bps),
            team_known_bps: opt_team_bps(self.team_known_bps),
        }
    }
}

impl ServerMessageView {
    /// The message with no field set.
    pub open spec fn empty() -> ServerMessageView {
        ServerMessageView {
            error: None,
            authentication_id: None,
            authenticated: None,
            user_id: None,
            user_name: None,
            color: None,
            team_id: None,
            team_members: None,
            known_bps: None,
            team_known_bps: None,
        }
    }
}

impl Default for ServerMessage {
    fn default() -> (m: ServerMessage)
        ensures
            m@ == ServerMessageView::empty(),
    {
        ServerMessage {
            error: None,
            authentication_id: None,
            authenticated: None,
            user_id: None,
            user_name: None,
            color: None,
            team_id: None,
            team_members: None,
            known_bps: None,
            team_known_bps: None,
        }
    }
}

} // verus!
