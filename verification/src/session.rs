//! What the server does for a connected client: the greeting that decides
//! between registering and logging in, the snapshot sent to a player who has
//! logged in, and, for every later message, the database requests it asks
//! for and the replies they produce.

use vstd::prelude::*;
use crate::messages::{
    opt_str, ClientMessage, ClientMessageView, ServerMessage, ServerMessageView, TeamMember, TeamMemberView, TeamUserBp,
    TeamUserBpView,
};
use crate::records::{Blueprint, Team, User};

verus! {

// ---------------------------------------------------------------------------
// The snapshot sent after a successful login
// ---------------------------------------------------------------------------

/// How a team member is reported to the player.
pub open spec fn member_view(m: User) -> TeamMemberView {
    TeamMemberView { user_name: opt_str(m.user_name), user_id: m.user_id@, color: opt_str(m.color) }
}

/// The ids of a list of blueprints, in order.
pub open spec fn bp_ids(bps: Seq<Blueprint>) -> Seq<i32> {
    bps.map_values(|b: Blueprint| b.bp_id)
}

/// The blueprints one member knows, each tagged with the member's id.
pub open spec fn member_bps(m: User) -> Seq<TeamUserBpView> {
    match m.blueprints {
        Some(bps) => bps@.map_values(|b: Blueprint| TeamUserBpView { user_id: m.user_id@, bp: b.bp_id }),
        None => Seq::empty(),
    }
}

/// The blueprints known by a list of members: member by member, in order.
pub open spec fn members_bps(ms: Seq<User>) -> Seq<TeamUserBpView>
    decreases ms.len(),
{
    if ms.len() == 0 {
        Seq::empty()
    } else {
        members_bps(ms.drop_last()) + member_bps(ms.last())
    }
}

/// The team whose data a player is shown: the last of the teams listed.
pub open spec fn shown_team(u: User) -> Option<Team> {
    match u.team {
        Some(ts) => Some(ts@.last()),
        None => None,
    }
}

/// A player record the snapshot can be built from: a listed team list is not empty.
pub open spec fn snapshot_ready(u: User) -> bool {
    u.team matches Some(ts) ==> ts@.len() > 0
}

/// The snapshot a player receives right after logging in.
pub open spec fn welcome_view(u: User) -> ServerMessageView {
    ServerMessageView {
        error: None,
        authentication_id: None,
        authenticated: Some(true),
        user_id: Some(u.user_id@),
        user_name: opt_str(u.user_name),
        color: opt_str(u.color),
        team_id: match shown_team(u) {
            Some(t) => Some(t.team_id@),
            None => None,
        },
        team_members: match shown_team(u) {
            Some(t) => match t.team_members {
                Some(ms) => Some(ms@.map_values(|m: User| member_view(m))),
                None => None,
            },
            None => None,
        },
        known_bps: Some(
            match u.blueprints {
                Some(bps) => bp_ids(bps@),
                None => Seq::empty(),
            },
        ),
        team_known_bps: match shown_team(u) {
            Some(t) => match t.team_members {
                Some(ms) => Some(members_bps(ms@)),
                None => None,
            },
            None => None,
        },
    }
}

/// Whether the snapshot can be built from a player record (see [`welcome_message`]).
pub fn can_welcome(user: &User) -> (ok: bool)
    ensures
        ok == snapshot_ready(*user),
{
    match &user.team {
        Some(teams) => teams.len() > 0,
        None => true,
    }
}

fn clone_opt_string(o: &Option<String>) -> (r: Option<String>)
    ensures
        opt_str(r) == opt_str(*o),
{
    match o {
        Some(s) => Some(s.clone()),
        None => None,
    }
}

/// Appends the blueprints of one member, tagged with the member's id.
fn push_member_bps(out: &mut Vec<TeamUserBp>, member: &User)
    ensures
        final(out)@.map_values(|b: TeamUserBp| b@) == old(out)@.map_values(|b: TeamUserBp| b@)
            + member_bps(*member),
{
    match &member.blueprints {
        Some(bps) => {
            let ghost start = out@.map_values(|b: TeamUserBp| b@);
            let ghost target = bps@.map_values(
                |b: Blueprint| TeamUserBpView { user_id: member.user_id@, bp: b.bp_id },
            );
            let mut j: usize = 0;
            while j < bps.len()
                invariant
                    j <= bps@.len(),
                    target == bps@.map_values(
                        |b: Blueprint| TeamUserBpView { user_id: member.user_id@, bp: b.bp_id },
                    ),
                    out@.map_values(|b: TeamUserBp| b@) =~= start + target.take(j as int),
                decreases bps.len() - j,
            {
                let ghost prev = out@;
                out.push(TeamUserBp { user_id: member.user_id.clone(), bp: bps[j].bp_id });
                assert(out@.map_values(|b: TeamUserBp| b@) =~= prev.map_values(|b: TeamUserBp| b@).push(
                    target[j as int],
                ));
                assert(target.take(j + 1) =~= target.take(j as int).push(target[j as int]));
                j = j + 1;
            }
            assert(target.take(bps@.len() as int) =~= target);
        },
        None => {
            assert(member_bps(*member) =~= Seq::<TeamUserBpView>::empty());
        },
    }
}

/// Builds the snapshot a player receives right after logging in: the
/// player's own data, the blueprints the player knows and, for the team the
/// player belongs to, its id, its members and the blueprints each member knows.
pub fn welcome_message(user: User) -> (m: ServerMessage)
    requires
        snapshot_ready(user),
    ensures
        m@ == welcome_view(user),
{
    let ghost u = user;
    let User { authentication_id: _, user_name, user_id, team, blueprints, color } = user;
    let mut team_id: Option<String> = None;
    let mut team_members: Option<Vec<TeamMember>> = None;
    let mut team_known_bps: Option<Vec<TeamUserBp>> = None;
    match team {
        Some(teams) => {
            let mut teams = teams;
            let t = teams.pop().unwrap();
            assert(shown_team(u) == Some(t));
            let Team { team_id: tid, team_name: _, team_members: tms } = t;
            team_id = Some(tid);
            match tms {
                Some(members) => {
                    let mut tm: Vec<TeamMember> = Vec::new();
                    let mut tb: Vec<TeamUserBp> = Vec::new();
                    let mut i: usize = 0;
                    while i < members.len()
                        invariant
                            i <= members@.len(),
                            tm@.map_values(|m: TeamMember| m@)
                                =~= members@.take(i as int).map_values(|m: User| member_view(m)),
                            tb@.map_values(|b: TeamUserBp| b@) == members_bps(members@.take(i as int)),
                        decreases members.len() - i,
                    {
                        let member = &members[i];
                        let ghost prev_tm = tm@;
                        tm.push(TeamMember {
                            user_name: clone_opt_string(&member.user_name),
                            user_id: member.user_id.clone(),
                            color: clone_opt_string(&member.color),
                        });
                        assert(tm@.map_values(|m: TeamMember| m@) =~= prev_tm.map_values(
                            |m: TeamMember| m@,
                        ).push(member_view(members@[i as int])));
                        assert(members@.take(i + 1) =~= members@.take(i as int).push(members@[i as int]));
                        push_member_bps(&mut tb, member);
                        assert(members@.take(i + 1).drop_last() =~= members@.take(i as int));
                        i = i + 1;
                    }
                    assert(members@.take(members@.len() as int) =~= members@);
                    assert(tm@.map_values(|m: TeamMember| m@) =~= members@.map_values(|m: User| member_view(m)));
                    team_members = Some(tm);
                    team_known_bps = Some(tb);
                },
                None => {},
            }
        },
        None => {},
    }
    let mut known: Vec<i32> = Vec::new();
    match blueprints {
        Some(bps) => {
            let mut k: usize = 0;
            while k < bps.len()
                invariant
                    k <= bps@.len(),
                    known@ =~= bp_ids(bps@).take(k as int),
                decreases bps.len() - k,
            {
                known.push(bps[k].bp_id);
                k = k + 1;
            }
            assert(known@ =~= bp_ids(bps@));
        },
        None => {},
    }
    ServerMessage {
        error: None,
        authentication_id: None,
        authenticated: Some(true),
        user_id: Some(user_id),
        user_name,
        color,
        team_id,
        team_members,
        known_bps: Some(known),
        team_known_bps,
    }
}

// ---------------------------------------------------------------------------
// Messages from a logged-in player
// ---------------------------------------------------------------------------

/// A database request made on behalf of a logged-in player.
#[derive(Debug)]
pub enum Request {
    /// Record that the player learned a blueprint.
    AddBlueprint(i32),
    /// Forget a blueprint the player learned.
    RemoveBlueprint(i32),
    /// Take the player out of every team, without telling the player.
    LeaveTeam,
    /// Create a new team with the player as its member.
    CreateTeam,
    /// Put the player into the team with the given id, if it exists.
    JoinTeam(String),
    /// Take the player out of every team and tell the player so.
    LeaveTeamAndReport,
    /// Change the player's name.
    UpdateName(String),
    /// Change the player's colour.
    UpdateColor(String),
    /// Forget every blueprint the player learned.
    ClearBlueprints,
}

/// The abstract value of a [`Request`].
pub enum RequestView {
    AddBlueprint(i32),
    RemoveBlueprint(i32),
    LeaveTeam,
    CreateTeam,
    JoinTeam(Seq<char>),
    LeaveTeamAndReport,
    UpdateName(Seq<char>),
    UpdateColor(Seq<char>),
    ClearBlueprints,
}

impl View for Request {
    type V = RequestView;

    open spec fn view(&self) -> RequestView {
        match self {
            Request::AddBlueprint(b) => RequestView::AddBlueprint(*b),
            Request::RemoveBlueprint(b) => RequestView::RemoveBlueprint(*b),
            Request::LeaveTeam => RequestView::LeaveTeam,
            Request::CreateTeam => RequestView::CreateTeam,
            Request::JoinTeam(t) => RequestView::JoinTeam(t@),
            Request::LeaveTeamAndReport => RequestView::LeaveTeamAndReport,
            Request::UpdateName(n) => RequestView::UpdateName(n@),
            Request::UpdateColor(c) => RequestView::UpdateColor(c@),
            Request::ClearBlueprints => RequestView::ClearBlueprints,
        }
    }
}

/// The abstract value of a list of requests.
pub open spec fn requests_view(v: Seq<Request>) -> Seq<RequestView> {
    v.map_values(|r: Request| r@)
}

/// The requests the `learned_bp` field asks for.
pub open spec fn learned_part(m: ClientMessageView) -> Seq<RequestView> {
    match m.learned_bp {
        Some(b) => seq![RequestView::AddBlueprint(b)],
        None => Seq::empty(),
    }
}

/// The requests the `forgot_bp` field asks for.
pub open spec fn forgot_part(m: ClientMessageView) -> Seq<RequestView> {
    match m.forgot_bp {
        Some(b) => seq![RequestView::RemoveBlueprint(b)],
        None => Seq::empty(),
    }
}

/// The requests the `create_team` field asks for.
pub open spec fn create_part(m: ClientMessageView) -> Seq<RequestView> {
    if m.create_team == Some(true) {
        seq![RequestView::LeaveTeam, RequestView::CreateTeam]
    } else {
        Seq::empty()
    }
}

/// The requests the `join_team` field asks for.
pub open spec fn join_part(m: ClientMessageView) -> Seq<RequestView> {
    match m.join_team {
        Some(t) => seq![RequestView::LeaveTeam, RequestView::JoinTeam(t)],
        None => Seq::empty(),
    }
}

/// The requests the `leave_team` field asks for.
pub open spec fn leave_part(m: ClientMessageView) -> Seq<RequestView> {
    if m.leave_team == Some(true) {
        seq![RequestView::LeaveTeamAndReport]
    } else {
        Seq::empty()
    }
}

/// The requests the `update_name` field asks for.
pub open spec fn name_part(m: ClientMessageView) -> Seq<RequestView> {
    match m.update_name {
        Some(n) => seq![RequestView::UpdateName(n)],
        None => Seq::empty(),
    }
}

/// The requests the `color` field asks for.
pub open spec fn color_part(m: ClientMessageView) -> Seq<RequestView> {
    match m.color {
        Some(c) => seq![RequestView::UpdateColor(c)],
        None => Seq::empty(),
    }
}

/// The requests the `clear_bp` field asks for.
pub open spec fn clear_part(m: ClientMessageView) -> Seq<RequestView> {
    if m.clear_bp == Some(true) {
        seq![RequestView::ClearBlueprints]
    } else {
        Seq::empty()
    }
}

/// The requests one message from a logged-in player asks for, in the order
/// they are carried out: learned blueprint, forgotten blueprint, new team,
/// joined team, leaving the team, new name, new colour, clearing blueprints.
/// Creating or joining a team first takes the player out of any team.
pub open spec fn plan_view(m: ClientMessageView) -> Seq<RequestView> {
    learned_part(m) + forgot_part(m) + create_part(m) + join_part(m) + leave_part(m)
        + name_part(m) + color_part(m) + clear_part(m)
}

fn clone_string(s: &String) -> (r: String)
    ensures
        r@ == s@,
{
    s.clone()
}

fn push_request(reqs: &mut Vec<Request>, r: Request)
    ensures
        requests_view(final(reqs)@) == requests_view(old(reqs)@) + seq![r@],
{
    let ghost prev = reqs@;
    reqs.push(r);
    assert(requests_view(reqs@) =~= requests_view(prev) + seq![r@]);
}

fn push_learned(reqs: &mut Vec<Request>, msg: &ClientMessage)
    ensures
        requests_view(final(reqs)@) == requests_view(old(reqs)@) + learned_part(msg@),
{
    match msg.learned_bp {
        Some(bp) => push_request(reqs, Request::AddBlueprint(bp)),
        None => assert(requests_view(reqs@) =~= requests_view(reqs@) + learned_part(msg@)),
    }
}

fn push_forgot(reqs: &mut Vec<Request>, msg: &ClientMessage)
    ensures
        requests_view(final(reqs)@) == requests_view(old(reqs)@) + forgot_part(msg@),
{
    match msg.forgot_bp {
        Some(bp) => push_request(reqs, Request::RemoveBlueprint(bp)),
        None => assert(requests_view(reqs@) =~= requests_view(reqs@) + forgot_part(msg@)),
    }
}

fn push_create(reqs: &mut Vec<Request>, msg: &ClientMessage)
    ensures
        requests_view(final(reqs)@) == requests_view(old(reqs)@) + create_part(msg@),
{
    let ghost prev = requests_view(reqs@);
    if msg.create_team == Some(true) {
        push_request(reqs, Request::LeaveTeam);
        push_request(reqs, Request::CreateTeam);
        assert(requests_view(reqs@) =~= prev + create_part(msg@));
    } else {
        assert(requests_view(reqs@) =~= prev + create_part(msg@));
    }
}

fn push_join(reqs: &mut Vec<Request>, msg: &ClientMessage)
    ensures
        requests_view(final(reqs)@) == requests_view(old(reqs)@) + join_part(msg@),
{
    let ghost prev = requests_view(reqs@);
    match &msg.join_team {
        Some(team) => {
            push_request(reqs, Request::LeaveTeam);
            push_request(reqs, Request::JoinTeam(clone_string(team)));
            assert(requests_view(reqs@) =~= prev + join_part(msg@));
        },
        None => assert(requests_view(reqs@) =~= prev + join_part(msg@)),
    }
}

fn push_leave(reqs: &mut Vec<Request>, msg: &ClientMessage)
    ensures
        requests_view(final(reqs)@) == requests_view(old(reqs)@) + leave_part(msg@),
{
    if msg.leave_team == Some(true) {
        push_request(reqs, Request::LeaveTeamAndReport);
    } else {
        assert(requests_view(reqs@) =~= requests_view(reqs@) + leave_part(msg@));
    }
}

fn push_name(reqs: &mut Vec<Request>, msg: &ClientMessage)
    ensures
        requests_view(final(reqs)@) == requests_view(old(reqs)@) + name_part(msg@),
{
    match &msg.update_name {
        Some(name) => push_request(reqs, Request::UpdateName(clone_string(name))),
        None => assert(requests_view(reqs@) =~= requests_view(reqs@) + name_part(msg@)),
    }
}

fn push_color(reqs: &mut Vec<Request>, msg: &ClientMessage)
    ensures
        requests_view(final(reqs)@) == requests_view(old(reqs)@) + color_part(msg@),
{
    match &msg.color {
        Some(color) => push_request(reqs, Request::UpdateColor(clone_string(color))),
        None => assert(requests_view(reqs@) =~= requests_view(reqs@) + color_part(msg@)),
    }
}

fn push_clear(reqs: &mut Vec<Request>, msg: &ClientMessage)
    ensures
        requests_view(final(reqs)@) == requests_view(old(reqs)@) + clear_part(msg@),
{
    if msg.clear_bp == Some(true) {
        push_request(reqs, Request::ClearBlueprints);
    } else {
        assert(requests_view(reqs@) =~= requests_view(reqs@) + clear_part(msg@));
    }
}

/// The requests a message from a logged-in player asks for, in the order the
/// server carries them out.
pub fn plan_requests(msg: &ClientMessage) -> (reqs: Vec<Request>)
    ensures
        requests_view(reqs@) == plan_view(msg@),
{
    let mut reqs: Vec<Request> = Vec::new();
    assert(requests_view(reqs@) =~= Seq::<RequestView>::empty());
    push_learned(&mut reqs, msg);
    push_forgot(&mut reqs, msg);
    push_create(&mut reqs, msg);
    push_join(&mut reqs, msg);
    push_leave(&mut reqs, msg);
    push_name(&mut reqs, msg);
    push_color(&mut reqs, msg);
    push_clear(&mut reqs, msg);
    assert(requests_view(reqs@) =~= plan_view(msg@));
    reqs
}

/// What carrying out a [`Request`] gave back.
#[derive(Debug)]
pub enum Outcome {
    /// The request was carried out and gave nothing back.
    Done,
    /// A team was created; the new team's id.
    TeamCreated(String),
    /// Whether the team to join existed (and the player joined it).
    Joined(bool),
}

/// The abstract value of an [`Outcome`].
pub enum OutcomeView {
    Done,
    TeamCreated(Seq<char>),
    Joined(bool),
}

impl View for Outcome {
    type V = OutcomeView;

    open spec fn view(&self) -> OutcomeView {
        match self {
            Outcome::Done => OutcomeView::Done,
            Outcome::TeamCreated(t) => OutcomeView::TeamCreated(t@),
            Outcome::Joined(b) => OutcomeView::Joined(*b),
        }
    }
}

/// The error text sent when a player asks to join a team that does not exist.
pub open spec fn no_such_team() -> Seq<char> {
    "No Such Team"@
}

/// A reply that reports only the player's team id.
pub open spec fn team_id_reply(team_id: Seq<char>) -> ServerMessageView {
    ServerMessageView { team_id: Some(team_id), ..ServerMessageView::empty() }
}

/// The reply, if any, the player receives once a request has been carried
/// out. Requests that report nothing, and a team creation or join whose
/// outcome is of another kind, give no reply.
pub open spec fn reply_view(r: RequestView, o: OutcomeView) -> Option<ServerMessageView> {
    match r {
        RequestView::CreateTeam => match o {
            OutcomeView::TeamCreated(id) => Some(team_id_reply(id)),
            _ => None,
        },
        RequestView::JoinTeam(t) => match o {
            OutcomeView::Joined(true) => Some(team_id_reply(t)),
            OutcomeView::Joined(false) => Some(
                ServerMessageView { error: Some(no_such_team()), ..ServerMessageView::empty() },
            ),
            _ => None,
        },
        RequestView::LeaveTeamAndReport => Some(team_id_reply(Seq::empty())),
        RequestView::UpdateName(n) => Some(
            ServerMessageView { user_name: Some(n), ..ServerMessageView::empty() },
        ),
        RequestView::UpdateColor(c) => Some(
            ServerMessageView { color: Some(c), ..ServerMessageView::empty() },
        ),
        RequestView::ClearBlueprints => Some(
            ServerMessageView { known_bps: Some(Seq::empty()), ..ServerMessageView::empty() },
        ),
        _ => None,
    }
}

/// The abstract value of an optional reply.
pub open spec fn opt_reply(o: Option<ServerMessage>) -> Option<ServerMessageView> {
    match o {
        Some(m) => Some(m@),
        None => None,
    }
}

/// The reply the player receives once `req` has been carried out with `outcome`.
pub fn reply(req: &Request, outcome: &Outcome) -> (m: Option<ServerMessage>)
    ensures
        opt_reply(m) == reply_view(req@, outcome@),
{
    match req {
        Request::CreateTeam => match outcome {
            Outcome::TeamCreated(id) => Some(
                ServerMessage { team_id: Some(clone_string(id)), ..ServerMessage::default() },
            ),
            _ => None,
        },
        Request::JoinTeam(team) => match outcome {
            Outcome::Joined(true) => Some(
                ServerMessage { team_id: Some(clone_string(team)), ..ServerMessage::default() },
            ),
            Outcome::Joined(false) => {
                proof { reveal_strlit("No Such Team"); }
                Some(
                    ServerMessage {
                        error: Some(String::from_str("No Such Team")),
                        ..ServerMessage::default()
                    },
                )
            },
            _ => None,
        },
        Request::LeaveTeamAndReport => Some(
            ServerMessage { team_id: Some(String::new()), ..ServerMessage::default() },
        ),
        Request::UpdateName(name) => Some(
            ServerMessage { user_name: Some(clone_string(name)), ..ServerMessage::default() },
        ),
        Request::UpdateColor(color) => Some(
            ServerMessage { color: Some(clone_string(color)), ..ServerMessage::default() },
        ),
        Request::ClearBlueprints => Some(
            ServerMessage { known_bps: Some(Vec::new()), ..ServerMessage::default() },
        ),
        _ => None,
    }
}

// ---------------------------------------------------------------------------
// Reading client messages
// ---------------------------------------------------------------------------

/// What reading the next websocket frame gave.
#[derive(Debug)]
pub enum Frame {
    /// A text frame, with the client message its JSON text holds, if it holds one.
    Text(Option<ClientMessage>),
    /// A frame of another kind (binary, ping, pong, close).
    NonText,
    /// The connection was already closed.
    Closed,
    /// Reading failed in another way.
    Failed,
}

/// Why no client message could be read.
#[derive(Debug, Clone, Copy, PartialEq, Eq, Structural)]
pub enum ReceiveError {
    /// The connection is gone; the session ends.
    BrokenPipe,
    /// What arrived was no client message; the session reads on.
    InvalidInput,
}

/// The abstract value of a read.
pub open spec fn received_view(r: Result<ClientMessage, ReceiveError>) -> Result<ClientMessageView, ReceiveError> {
    match r {
        Ok(m) => Ok(m@),
        Err(e) => Err(e),
    }
}

/// The client message a frame carries: only a text frame holding a client
/// message gives one; a closed connection is a broken pipe, anything else
/// invalid input.
pub open spec fn receive_view(f: Frame) -> Result<ClientMessageView, ReceiveError> {
    match f {
        Frame::Text(Some(m)) => Ok(m@),
        Frame::Closed => Err(ReceiveError::BrokenPipe),
        _ => Err(ReceiveError::InvalidInput),
    }
}

/// The client message a frame carries, or why there is none.
pub fn receive(frame: Frame) -> (r: Result<ClientMessage, ReceiveError>)
    ensures
        received_view(r) == receive_view(frame),
{
    match frame {
        Frame::Text(Some(m)) => Ok(m),
        Frame::Text(None) => Err(ReceiveError::InvalidInput),
        Frame::NonText => Err(ReceiveError::InvalidInput),
        Frame::Closed => Err(ReceiveError::BrokenPipe),
        Frame::Failed => Err(ReceiveError::InvalidInput),
    }
}

/// What a logged-in session does with one read.
#[derive(Debug)]
pub enum SessionStep {
    /// The connection is gone: end the session.
    Stop,
    /// Nothing usable arrived: read the next frame.
    Skip,
    /// Carry out these requests in order, sending each one's reply.
    Handle(Vec<Request>),
}

/// The abstract value of a [`SessionStep`].
pub enum SessionStepView {
    Stop,
    Skip,
    Handle(Seq<RequestView>),
}

impl View for SessionStep {
    type V = SessionStepView;

    open spec fn view(&self) -> SessionStepView {
        match self {
            SessionStep::Stop => SessionStepView::Stop,
            SessionStep::Skip => SessionStepView::Skip,
            SessionStep::Handle(v) => SessionStepView::Handle(requests_view(v@)),
        }
    }
}

/// What a logged-in session does with one read.
pub open spec fn session_step_view(r: Result<ClientMessageView, ReceiveError>) -> SessionStepView {
    match r {
        Ok(m) => SessionStepView::Handle(plan_view(m)),
        Err(ReceiveError::BrokenPipe) => SessionStepView::Stop,
        Err(ReceiveError::InvalidInput) => SessionStepView::Skip,
    }
}

/// Decides what a logged-in session does with one read.
pub fn session_step(r: &Result<ClientMessage, ReceiveError>) -> (s: SessionStep)
    ensures
        s@ == session_step_view(received_view(*r)),
{
    match r {
        Ok(m) => SessionStep::Handle(plan_requests(m)),
        Err(ReceiveError::BrokenPipe) => SessionStep::Stop,
        Err(ReceiveError::InvalidInput) => SessionStep::Skip,
    }
}

// ---------------------------------------------------------------------------
// The first message of a connection
// ---------------------------------------------------------------------------

/// What the first message of a connection asks for.
#[derive(Debug)]
pub enum Greeting {
    /// Create a new player and send back its authentication id.
    Register,
    /// Log in the player with this authentication id.
    Login(String),
    /// Nothing: the connection is dropped.
    Ignore,
}

/// The abstract value of a [`Greeting`].
pub enum GreetingView {
    Register,
    Login(Seq<char>),
    Ignore,
}

impl View for Greeting {
    type V = GreetingView;

    open spec fn view(&self) -> GreetingView {
        match self {
            Greeting::Register => GreetingView::Register,
            Greeting::Login(a) => GreetingView::Login(a@),
            Greeting::Ignore => GreetingView::Ignore,
        }
    }
}

/// What the first read of a connection asks for: any `register` field wins
/// over `login`; a failed read, or a message with neither, asks for nothing.
pub open spec fn greeting_view(r: Result<ClientMessageView, ReceiveError>) -> GreetingView {
    match r {
        Ok(m) => if m.register is Some {
            GreetingView::Register
        } else {
            match m.login {
                Some(a) => GreetingView::Login(a),
                None => GreetingView::Ignore,
            }
        },
        Err(_) => GreetingView::Ignore,
    }
}

/// Decides what the first read of a connection asks for.
pub fn greet(r: &Result<ClientMessage, ReceiveError>) -> (g: Greeting)
    ensures
        g@ == greeting_view(received_view(*r)),
{
    match r {
        Ok(m) => {
            if m.register.is_some() {
                Greeting::Register
            } else {
                match &m.login {
                    Some(a) => Greeting::Login(clone_string(a)),
                    None => Greeting::Ignore,
                }
            }
        },
        Err(_) => Greeting::Ignore,
    }
}

/// The reply to a registration: the new player's authentication id, alone.
pub fn registration_reply(authentication_id: String) -> (m: ServerMessage)
    ensures
        m@ == (ServerMessageView {
            authentication_id: Some(authentication_id@),
            ..ServerMessageView::empty()
        }),
{
    ServerMessage { authentication_id: Some(authentication_id), ..ServerMessage::default() }
}

// ---------------------------------------------------------------------------
// Laws
// ---------------------------------------------------------------------------

/// Whether a request changes the player's team.
pub open spec fn joins_team(r: RequestView) -> bool {
    r is CreateTeam || r is JoinTeam
}

/// Every request that puts the player into a team comes right after a
/// request that takes the player out of every team.
pub open spec fn leaves_before_joining(s: Seq<RequestView>) -> bool {
    forall|i: int| 0 <= i < s.len() && joins_team(#[trigger] s[i]) ==> i > 0 && s[i - 1] is LeaveTeam
}

proof fn lemma_leaves_before_joining_concat(a: Seq<RequestView>, b: Seq<RequestView>)
    requires
        leaves_before_joining(a),
        leaves_before_joining(b),
        b.len() > 0 ==> !joins_team(b[0]),
    ensures
        leaves_before_joining(a + b),
{
    let c = a + b;
    assert forall|i: int| 0 <= i < c.len() && joins_team(#[trigger] c[i]) implies i > 0 && c[i - 1] is LeaveTeam by {
        if i < a.len() {
            assert(c[i] == a[i]);
            assert(c[i - 1] == a[i - 1]);
        } else {
            assert(c[i] == b[i - a.len()]);
            assert(i - a.len() > 0);
            assert(c[i - 1] == b[i - 1 - a.len()]);
        }
    }
}

/// A player holds at most one team: whenever a message makes the server
/// create or join a team, the request just before takes the player out of
/// every team.
pub proof fn lemma_leave_before_team_change(m: ClientMessageView)
    ensures
        leaves_before_joining(plan_view(m)),
{
    let p1 = learned_part(m);
    let p2 = forgot_part(m);
    let p3 = create_part(m);
    let p4 = join_part(m);
    let p5 = leave_part(m);
    let p6 = name_part(m);
    let p7 = color_part(m);
    let p8 = clear_part(m);
    assert(leaves_before_joining(p1));
    assert(leaves_before_joining(p2));
    assert(leaves_before_joining(p3));
    assert(leaves_before_joining(p4));
    assert(leaves_before_joining(p5));
    assert(leaves_before_joining(p6));
    assert(leaves_before_joining(p7));
    assert(leaves_before_joining(p8));
    lemma_leaves_before_joining_concat(p1, p2);
    lemma_leaves_before_joining_concat(p1 + p2, p3);
    lemma_leaves_before_joining_concat(p1 + p2 + p3, p4);
    lemma_leaves_before_joining_concat(p1 + p2 + p3 + p4, p5);
    lemma_leaves_before_joining_concat(p1 + p2 + p3 + p4 + p5, p6);
    lemma_leaves_before_joining_concat(p1 + p2 + p3 + p4 + p5 + p6, p7);
    lemma_leaves_before_joining_concat(p1 + p2 + p3 + p4 + p5 + p6 + p7, p8);
}

/// The blueprints a member knows, as ids (none when the member lists none).
pub open spec fn known_ids(m: User) -> Seq<i32> {
    match m.blueprints {
        Some(bps) => bp_ids(bps@),
        None => Seq::empty(),
    }
}

/// Every team blueprint in a snapshot names a listed member and a blueprint
/// that member knows; and every blueprint a listed member knows is there.
pub proof fn lemma_team_bps_are_members_bps(ms: Seq<User>)
    ensures
        forall|k: int| 0 <= k < members_bps(ms).len() ==> exists|j: int| {
            &&& 0 <= j < ms.len()
            &&& #[trigger] members_bps(ms)[k].user_id == ms[j].user_id@
            &&& known_ids(ms[j]).contains(members_bps(ms)[k].bp)
        },
        forall|j: int, b: i32| 0 <= j < ms.len() && #[trigger] known_ids(ms[j]).contains(b)
            ==> members_bps(ms).contains(TeamUserBpView { user_id: ms[j].user_id@, bp: b }),
    decreases ms.len(),
{
    if ms.len() > 0 {
        let init = ms.drop_last();
        let last = ms.last();
        lemma_team_bps_are_members_bps(init);
        let all = members_bps(ms);
        let lb = member_bps(last);
        assert(all == members_bps(init) + lb);
        assert forall|k: int| 0 <= k < all.len() implies exists|j: int| {
            &&& 0 <= j < ms.len()
            &&& #[trigger] all[k].user_id == ms[j].user_id@
            &&& known_ids(ms[j]).contains(all[k].bp)
        } by {
            if k < members_bps(init).len() {
                assert(all[k] == members_bps(init)[k]);
                let j = choose|j: int| {
                    &&& 0 <= j < init.len()
                    &&& #[trigger] members_bps(init)[k].user_id == init[j].user_id@
                    &&& known_ids(init[j]).contains(members_bps(init)[k].bp)
                };
                assert(ms[j] == init[j]);
            } else {
                let i = k - members_bps(init).len();
                assert(all[k] == lb[i]);
                let bps = last.blueprints.unwrap();
                assert(lb[i] == TeamUserBpView { user_id: last.user_id@, bp: bps@[i].bp_id });
                assert(known_ids(last)[i] == bps@[i].bp_id);
                assert(ms[ms.len() - 1] == last);
            }
        }
        assert forall|j: int, b: i32| 0 <= j < ms.len() && #[trigger] known_ids(ms[j]).contains(b)
            implies all.contains(TeamUserBpView { user_id: ms[j].user_id@, bp: b }) by {
            let e = TeamUserBpView { user_id: ms[j].user_id@, bp: b };
            if j < init.len() {
                assert(ms[j] == init[j]);
                assert(known_ids(init[j]).contains(b));
                let k = choose|k: int| 0 <= k < members_bps(init).len() && members_bps(init)[k] == e;
                assert(all[k] == e);
            } else {
                assert(ms[j] == last);
                let i = choose|i: int| 0 <= i < known_ids(last).len() && known_ids(last)[i] == b;
                let bps = last.blueprints.unwrap();
                assert(lb[i] == e);
                assert(all[members_bps(init).len() + i] == e);
            }
        }
    }
}

/// How many blueprints the members before position `j` know together.
pub open spec fn bps_before(ms: Seq<User>, j: int) -> nat
    decreases j,
{
    if j <= 0 {
        0
    } else {
        bps_before(ms, j - 1) + known_ids(ms[j - 1]).len()
    }
}

proof fn lemma_bps_before_prefix(ms: Seq<User>, j: int)
    requires
        ms.len() > 0,
        0 <= j <= ms.len() - 1,
    ensures
        bps_before(ms, j) == bps_before(ms.drop_last(), j),
    decreases j,
{
    if j > 0 {
        lemma_bps_before_prefix(ms, j - 1);
        assert(ms[j - 1] == ms.drop_last()[j - 1]);
    }
}

proof fn lemma_bps_before_monotone(ms: Seq<User>, j: int, k: int)
    requires
        0 <= j <= k,
    ensures
        bps_before(ms, j) <= bps_before(ms, k),
    decreases k,
{
    if j < k {
        lemma_bps_before_monotone(ms, j, k - 1);
    }
}

/// The team blueprints of a snapshot are laid out member by member, in the
/// members' order: the blueprints of member `j` fill the places from the
/// count of blueprints of the members before it, in that member's order,
/// each tagged with that member's id.
pub proof fn lemma_team_bps_layout(ms: Seq<User>)
    ensures
        members_bps(ms).len() == bps_before(ms, ms.len() as int),
        forall|j: int, i: int| 0 <= j < ms.len() && 0 <= i < known_ids(ms[j]).len()
            ==> #[trigger] members_bps(ms)[bps_before(ms, j) + i] == (TeamUserBpView {
                user_id: ms[j].user_id@,
                bp: #[trigger] known_ids(ms[j])[i],
            }),
    decreases ms.len(),
{
    if ms.len() > 0 {
        let init = ms.drop_last();
        let last = ms.last();
        lemma_team_bps_layout(init);
        let n = ms.len() - 1;
        lemma_bps_before_prefix(ms, n);
        assert(member_bps(last).len() == known_ids(last).len());
        assert forall|j: int, i: int| 0 <= j < ms.len() && 0 <= i < known_ids(ms[j]).len()
            implies #[trigger] members_bps(ms)[bps_before(ms, j) + i] == (TeamUserBpView {
                user_id: ms[j].user_id@,
                bp: #[trigger] known_ids(ms[j])[i],
            }) by {
            if j < n {
                lemma_bps_before_prefix(ms, j);
                lemma_bps_before_prefix(ms, j + 1);
                lemma_bps_before_monotone(init, j + 1, n);
                assert(ms[j] == init[j]);
                assert(members_bps(ms)[bps_before(ms, j) + i] == members_bps(init)[bps_before(init, j) + i]);
            } else {
                assert(ms[j] == last);
                assert(members_bps(ms)[bps_before(ms, j) + i] == member_bps(last)[i]);
            }
        }
    }
}

/// A snapshot can be built unless the record lists an empty team list.
pub proof fn lemma_snapshot_ready(u: User)
    ensures
        snapshot_ready(u) <==> (u.team is None || u.team.unwrap()@.len() > 0),
{
}

/// A message with no field set asks for nothing.
pub proof fn lemma_empty_message_asks_nothing()
    ensures
        plan_view(ClientMessageView::empty()) == Seq::<RequestView>::empty(),
{
    assert(plan_view(ClientMessageView::empty()) =~= Seq::<RequestView>::empty());
}

/// A connection that is gone ends a logged-in session; any other frame that
/// holds no client message is passed over and the session reads on.
pub proof fn lemma_only_closed_connection_ends_session(f: Frame)
    ensures
        (session_step_view(receive_view(f)) is Stop) <==> (f is Closed),
        (session_step_view(receive_view(f)) is Skip) <==> !(f is Closed || f matches Frame::Text(Some(_))),
        (f is Text && f->0 is Some) ==> session_step_view(receive_view(f)) == SessionStepView::Handle(plan_view(f->0.unwrap()@)),
{
}

/// The first message decides the connection: any `register` field, whatever
/// its value and whatever `login` holds, asks to register; otherwise a
/// `login` asks to log in with exactly that authentication id; otherwise,
/// and after a failed read, nothing happens.
pub proof fn lemma_greeting(r: Result<ClientMessageView, ReceiveError>)
    ensures
        (r is Ok && r->Ok_0.register is Some) ==> greeting_view(r) == GreetingView::Register,
        (r is Ok && r->Ok_0.register is None && r->Ok_0.login is Some)
            ==> greeting_view(r) == GreetingView::Login(r->Ok_0.login.unwrap()),
        (r is Ok && r->Ok_0.register is None && r->Ok_0.login is None) ==> greeting_view(r) == GreetingView::Ignore,
        r is Err ==> greeting_view(r) == GreetingView::Ignore,
{
}

/// Each reply reports exactly what its request did and nothing else: the
/// created team's id, the joined team's id or "No Such Team", an empty team
/// id after leaving, the new name, the new colour, an empty blueprint list;
/// blueprint changes and silent leaves are not answered.
pub proof fn lemma_replies(r: RequestView, o: OutcomeView)
    ensures
        (r is CreateTeam && o is TeamCreated)
            ==> reply_view(r, o) == Some(ServerMessageView { team_id: Some(o->TeamCreated_0), ..ServerMessageView::empty() }),
        (r is JoinTeam && o == OutcomeView::Joined(true))
            ==> reply_view(r, o) == Some(ServerMessageView { team_id: Some(r->JoinTeam_0), ..ServerMessageView::empty() }),
        (r is JoinTeam && o == OutcomeView::Joined(false))
            ==> reply_view(r, o) == Some(ServerMessageView { error: Some("No Such Team"@), ..ServerMessageView::empty() }),
        r is LeaveTeamAndReport ==> reply_view(r, o) == Some(
            ServerMessageView { team_id: Some(Seq::<char>::empty()), ..ServerMessageView::empty() },
        ),
        r is UpdateName ==> reply_view(r, o) == Some(
            ServerMessageView { user_name: Some(r->UpdateName_0), ..ServerMessageView::empty() },
        ),
        r is UpdateColor ==> reply_view(r, o) == Some(
            ServerMessageView { color: Some(r->UpdateColor_0), ..ServerMessageView::empty() },
        ),
        r is ClearBlueprints ==> reply_view(r, o) == Some(
            ServerMessageView { known_bps: Some(Seq::<i32>::empty()), ..ServerMessageView::empty() },
        ),
        (r is AddBlueprint || r is RemoveBlueprint || r is LeaveTeam) ==> reply_view(r, o) is None,
{
}

/// The snapshot reports the player as the record holds it: authenticated, with
/// the player's own id, name and colour; `known_bps` lists the ids of the
/// player's own blueprints in order (none when none are listed), whatever the
/// player's team; without a team there is no team data; with teams, the last
/// one listed is shown with its id, and its members one for one, in order,
/// with their names, ids and colours.
pub proof fn lemma_welcome_reports_the_player(u: User)
    requires
        snapshot_ready(u),
    ensures
        welcome_view(u).authenticated == Some(true),
        welcome_view(u).error is None,
        welcome_view(u).authentication_id is None,
        welcome_view(u).user_id == Some(u.user_id@),
        welcome_view(u).user_name == opt_str(u.user_name),
        welcome_view(u).color == opt_str(u.color),
        welcome_view(u).known_bps is Some,
        u.blueprints is None ==> welcome_view(u).known_bps.unwrap().len() == 0,
        u.blueprints is Some ==> welcome_view(u).known_bps.unwrap().len() == u.blueprints.unwrap()@.len(),
        forall|i: int| 0 <= i < welcome_view(u).known_bps.unwrap().len()
            ==> #[trigger] welcome_view(u).known_bps.unwrap()[i] == u.blueprints.unwrap()@[i].bp_id,
        u.team is None ==> welcome_view(u).team_id is None && welcome_view(u).team_members is None
            && welcome_view(u).team_known_bps is None,
        u.team is Some ==> welcome_view(u).team_id
            == Some(u.team.unwrap()@[u.team.unwrap()@.len() - 1].team_id@),
        u.team is Some && u.team.unwrap()@[u.team.unwrap()@.len() - 1].team_members is None
            ==> welcome_view(u).team_members is None && welcome_view(u).team_known_bps is None,
        u.team is Some && u.team.unwrap()@[u.team.unwrap()@.len() - 1].team_members is Some ==> {
            let ms = u.team.unwrap()@[u.team.unwrap()@.len() - 1].team_members.unwrap()@;
            &&& welcome_view(u).team_members is Some
            &&& welcome_view(u).team_members.unwrap().len() == ms.len()
            &&& forall|i: int| 0 <= i < ms.len() ==> {
                &&& (#[trigger] welcome_view(u).team_members.unwrap()[i]).user_id == ms[i].user_id@
                &&& welcome_view(u).team_members.unwrap()[i].user_name == opt_str(ms[i].user_name)
                &&& welcome_view(u).team_members.unwrap()[i].color == opt_str(ms[i].color)
            }
            &&& welcome_view(u).team_known_bps == Some(members_bps(ms))
        },
{
}

// ---------------------------------------------------------------------------
// Laws of the request plan
// ---------------------------------------------------------------------------

/// The kind of a request, its payload left aside.
pub enum RequestKind {
    AddBlueprint,
    RemoveBlueprint,
    LeaveTeam,
    CreateTeam,
    JoinTeam,
    LeaveTeamAndReport,
    UpdateName,
    UpdateColor,
    ClearBlueprints,
}

/// The kind of a request.
pub open spec fn kind_of(r: RequestView) -> RequestKind {
    match r {
        RequestView::AddBlueprint(_) => RequestKind::AddBlueprint,
        RequestView::RemoveBlueprint(_) => RequestKind::RemoveBlueprint,
        RequestView::LeaveTeam => RequestKind::LeaveTeam,
        RequestView::CreateTeam => RequestKind::CreateTeam,
        RequestView::JoinTeam(_) => RequestKind::JoinTeam,
        RequestView::LeaveTeamAndReport => RequestKind::LeaveTeamAndReport,
        RequestView::UpdateName(_) => RequestKind::UpdateName,
        RequestView::UpdateColor(_) => RequestKind::UpdateColor,
        RequestView::ClearBlueprints => RequestKind::ClearBlueprints,
    }
}

/// 1 if `b` holds, else 0.
pub open spec fn one_if(b: bool) -> nat {
    if b { 1 } else { 0 }
}

/// How many requests of a list are of kind `k`.
pub open spec fn count_kind(s: Seq<RequestView>, k: RequestKind) -> nat
    decreases s.len(),
{
    if s.len() == 0 {
        0
    } else {
        count_kind(s.drop_last(), k) + one_if(kind_of(s.last()) == k)
    }
}

proof fn lemma_count_concat(a: Seq<RequestView>, b: Seq<RequestView>, k: RequestKind)
    ensures
        count_kind(a + b, k) == count_kind(a, k) + count_kind(b, k),
    decreases b.len(),
{
    if b.len() == 0 {
        assert(a + b =~= a);
    } else {
        lemma_count_concat(a, b.drop_last(), k);
        assert((a + b).drop_last() =~= a + b.drop_last());
    }
}

proof fn lemma_count_small(s: Seq<RequestView>, k: RequestKind)
    requires
        s.len() <= 2,
    ensures
        count_kind(s, k) == if s.len() == 0 {
            0nat
        } else if s.len() == 1 {
            one_if(kind_of(s[0]) == k)
        } else {
            one_if(kind_of(s[0]) == k) + one_if(kind_of(s[1]) == k)
        },
{
    reveal_with_fuel(count_kind, 3);
    if s.len() == 2 {
        assert(s.drop_last().drop_last() =~= Seq::<RequestView>::empty());
        assert(s.drop_last().last() == s[0]);
    } else if s.len() == 1 {
        assert(s.drop_last() =~= Seq::<RequestView>::empty());
    }
}

proof fn lemma_count_none(k: RequestKind)
    ensures
        count_kind(Seq::<RequestView>::empty(), k) == 0,
{
}

proof fn lemma_count_one(x: RequestView, k: RequestKind)
    ensures
        count_kind(seq![x], k) == one_if(kind_of(x) == k),
{
    lemma_count_small(seq![x], k);
    assert(seq![x][0] == x);
}

proof fn lemma_count_two(x: RequestView, y: RequestView, k: RequestKind)
    ensures
        count_kind(seq![x, y], k) == one_if(kind_of(x) == k) + one_if(kind_of(y) == k),
{
    lemma_count_small(seq![x, y], k);
    assert(seq![x, y][0] == x);
    assert(seq![x, y][1] == y);
}

/// The requests of the plan of kind `k`, counted part by part.
proof fn lemma_plan_count(m: ClientMessageView, k: RequestKind)
    ensures
        count_kind(plan_view(m), k) == count_kind(learned_part(m), k) + count_kind(forgot_part(m), k)
            + count_kind(create_part(m), k) + count_kind(join_part(m), k)
            + count_kind(leave_part(m), k) + count_kind(name_part(m), k)
            + count_kind(color_part(m), k) + count_kind(clear_part(m), k),
{
    let p1 = learned_part(m);
    let p2 = forgot_part(m);
    let p3 = create_part(m);
    let p4 = join_part(m);
    let p5 = leave_part(m);
    let p6 = name_part(m);
    let p7 = color_part(m);
    let p8 = clear_part(m);
    lemma_count_concat(p1, p2, k);
    lemma_count_concat(p1 + p2, p3, k);
    lemma_count_concat(p1 + p2 + p3, p4, k);
    lemma_count_concat(p1 + p2 + p3 + p4, p5, k);
    lemma_count_concat(p1 + p2 + p3 + p4 + p5, p6, k);
    lemma_count_concat(p1 + p2 + p3 + p4 + p5 + p6, p7, k);
    lemma_count_concat(p1 + p2 + p3 + p4 + p5 + p6 + p7, p8, k);
    lemma_count_small(p1, k);
    lemma_count_small(p2, k);
    lemma_count_small(p3, k);
    lemma_count_small(p4, k);
    lemma_count_small(p5, k);
    lemma_count_small(p6, k);
    lemma_count_small(p7, k);
    lemma_count_small(p8, k);
}

/// The number of requests of kind `k` in the plan of `m`, field by field.
proof fn lemma_count_in_plan(m: ClientMessageView, k: RequestKind)
    ensures
        count_kind(plan_view(m), k) == one_if(k == RequestKind::AddBlueprint && m.learned_bp is Some)
            + one_if(k == RequestKind::RemoveBlueprint && m.forgot_bp is Some)
            + one_if(k == RequestKind::LeaveTeam && m.create_team == Some(true))
            + one_if(k == RequestKind::CreateTeam && m.create_team == Some(true))
            + one_if(k == RequestKind::LeaveTeam && m.join_team is Some)
            + one_if(k == RequestKind::JoinTeam && m.join_team is Some)
            + one_if(k == RequestKind::LeaveTeamAndReport && m.leave_team == Some(true))
            + one_if(k == RequestKind::UpdateName && m.update_name is Some)
            + one_if(k == RequestKind::UpdateColor && m.color is Some)
            + one_if(k == RequestKind::ClearBlueprints && m.clear_bp == Some(true)),
{
    lemma_plan_count(m, k);
    lemma_count_none(k);
    match m.learned_bp {
        Some(b) => lemma_count_one(RequestView::AddBlueprint(b), k),
        None => {},
    }
    match m.forgot_bp {
        Some(b) => lemma_count_one(RequestView::RemoveBlueprint(b), k),
        None => {},
    }
    lemma_count_two(RequestView::LeaveTeam, RequestView::CreateTeam, k);
    match m.join_team {
        Some(t) => lemma_count_two(RequestView::LeaveTeam, RequestView::JoinTeam(t), k),
        None => {},
    }
    lemma_count_one(RequestView::LeaveTeamAndReport, k);
    match m.update_name {
        Some(n) => lemma_count_one(RequestView::UpdateName(n), k),
        None => {},
    }
    match m.color {
        Some(c) => lemma_count_one(RequestView::UpdateColor(c), k),
        None => {},
    }
    lemma_count_one(RequestView::ClearBlueprints, k);
}

proof fn lemma_plan_len(m: ClientMessageView)
    ensures
        plan_view(m).len() == one_if(m.learned_bp is Some) + one_if(m.forgot_bp is Some)
            + 2 * one_if(m.create_team == Some(true)) + 2 * one_if(m.join_team is Some)
            + one_if(m.leave_team == Some(true)) + one_if(m.update_name is Some)
            + one_if(m.color is Some) + one_if(m.clear_bp == Some(true)),
{
}

/// Each field of a message asks for its own request, once, whatever the other
/// fields hold: a learned or forgotten blueprint, a new name or a new colour
/// once each when the field is present; team creation, leaving with a reply
/// and clearing once each when the flag is `true`; joining once when a team
/// is named; and the player leaves teams silently once per creation or join.
pub proof fn lemma_each_field_asks_once(m: ClientMessageView)
    ensures
        count_kind(plan_view(m), RequestKind::AddBlueprint) == one_if(m.learned_bp is Some),
        count_kind(plan_view(m), RequestKind::RemoveBlueprint) == one_if(m.forgot_bp is Some),
        count_kind(plan_view(m), RequestKind::CreateTeam) == one_if(m.create_team == Some(true)),
        count_kind(plan_view(m), RequestKind::JoinTeam) == one_if(m.join_team is Some),
        count_kind(plan_view(m), RequestKind::LeaveTeamAndReport) == one_if(m.leave_team == Some(true)),
        count_kind(plan_view(m), RequestKind::UpdateName) == one_if(m.update_name is Some),
        count_kind(plan_view(m), RequestKind::UpdateColor) == one_if(m.color is Some),
        count_kind(plan_view(m), RequestKind::ClearBlueprints) == one_if(m.clear_bp == Some(true)),
        count_kind(plan_view(m), RequestKind::LeaveTeam)
            == one_if(m.create_team == Some(true)) + one_if(m.join_team is Some),
        plan_view(m).len() == one_if(m.learned_bp is Some) + one_if(m.forgot_bp is Some)
            + 2 * one_if(m.create_team == Some(true)) + 2 * one_if(m.join_team is Some)
            + one_if(m.leave_team == Some(true)) + one_if(m.update_name is Some)
            + one_if(m.color is Some) + one_if(m.clear_bp == Some(true)),
{
    lemma_count_in_plan(m, RequestKind::AddBlueprint);
    lemma_count_in_plan(m, RequestKind::RemoveBlueprint);
    lemma_count_in_plan(m, RequestKind::CreateTeam);
    lemma_count_in_plan(m, RequestKind::JoinTeam);
    lemma_count_in_plan(m, RequestKind::LeaveTeamAndReport);
    lemma_count_in_plan(m, RequestKind::UpdateName);
    lemma_count_in_plan(m, RequestKind::UpdateColor);
    lemma_count_in_plan(m, RequestKind::ClearBlueprints);
    lemma_count_in_plan(m, RequestKind::LeaveTeam);
    lemma_plan_len(m);
}

/// Whether a request carries the value of the message field that asks for it.
pub open spec fn carries_field(m: ClientMessageView, r: RequestView) -> bool {
    match r {
        RequestView::AddBlueprint(b) => m.learned_bp == Some(b),
        RequestView::RemoveBlueprint(b) => m.forgot_bp == Some(b),
        RequestView::JoinTeam(t) => m.join_team == Some(t),
        RequestView::UpdateName(n) => m.update_name == Some(n),
        RequestView::UpdateColor(c) => m.color == Some(c),
        _ => true,
    }
}

/// Whether every request of a list carries its field's value.
pub open spec fn all_carry(m: ClientMessageView, s: Seq<RequestView>) -> bool {
    forall|i: int| 0 <= i < s.len() ==> carries_field(m, #[trigger] s[i])
}

proof fn lemma_all_carry_concat(m: ClientMessageView, a: Seq<RequestView>, b: Seq<RequestView>)
    requires
        all_carry(m, a),
        all_carry(m, b),
    ensures
        all_carry(m, a + b),
{
    assert forall|i: int| 0 <= i < (a + b).len() implies carries_field(m, #[trigger] (a + b)[i]) by {
        if i < a.len() {
            assert((a + b)[i] == a[i]);
        } else {
            assert((a + b)[i] == b[i - a.len()]);
        }
    }
}

/// Each request of the plan carries the value of the field that asked for
/// it: the learned or forgotten blueprint id, the named team, the new name,
/// the new colour.
pub proof fn lemma_requests_carry_their_fields(m: ClientMessageView)
    ensures
        all_carry(m, plan_view(m)),
{
    let p1 = learned_part(m);
    let p2 = forgot_part(m);
    let p3 = create_part(m);
    let p4 = join_part(m);
    let p5 = leave_part(m);
    let p6 = name_part(m);
    let p7 = color_part(m);
    let p8 = clear_part(m);
    assert(all_carry(m, p1));
    assert(all_carry(m, p2));
    assert(all_carry(m, p3));
    assert(all_carry(m, p4));
    assert(all_carry(m, p5));
    assert(all_carry(m, p6));
    assert(all_carry(m, p7));
    assert(all_carry(m, p8));
    lemma_all_carry_concat(m, p1, p2);
    lemma_all_carry_concat(m, p1 + p2, p3);
    lemma_all_carry_concat(m, p1 + p2 + p3, p4);
    lemma_all_carry_concat(m, p1 + p2 + p3 + p4, p5);
    lemma_all_carry_concat(m, p1 + p2 + p3 + p4 + p5, p6);
    lemma_all_carry_concat(m, p1 + p2 + p3 + p4 + p5 + p6, p7);
    lemma_all_carry_concat(m, p1 + p2 + p3 + p4 + p5 + p6 + p7, p8);
}

/// Where a request stands in the fixed order of a plan (silent leaves aside).
pub open spec fn rank(r: RequestView) -> int {
    match r {
        RequestView::AddBlueprint(_) => 0,
        RequestView::RemoveBlueprint(_) => 1,
        RequestView::CreateTeam => 2,
        RequestView::JoinTeam(_) => 3,
        RequestView::LeaveTeamAndReport => 4,
        RequestView::UpdateName(_) => 5,
        RequestView::UpdateColor(_) => 6,
        RequestView::ClearBlueprints => 7,
        RequestView::LeaveTeam => -1,
    }
}

/// The requests other than silent leaves come in strictly increasing rank.
pub open spec fn in_order(s: Seq<RequestView>) -> bool {
    forall|i: int, j: int| 0 <= i < j < s.len() && !(s[i] is LeaveTeam) && !(s[j] is LeaveTeam)
        ==> #[trigger] rank(s[i]) < #[trigger] rank(s[j])
}

/// Every rank (silent leaves aside) lies in `lo..hi`.
pub open spec fn ranks_within(s: Seq<RequestView>, lo: int, hi: int) -> bool {
    forall|i: int| 0 <= i < s.len() && !(s[i] is LeaveTeam) ==> lo <= #[trigger] rank(s[i]) < hi
}

/// Every silent leave is directly followed by a team creation or join.
pub open spec fn leave_then_join(s: Seq<RequestView>) -> bool {
    forall|i: int| 0 <= i < s.len() && #[trigger] s[i] is LeaveTeam ==> i + 1 < s.len() && joins_team(s[i + 1])
}

proof fn lemma_order_concat(a: Seq<RequestView>, b: Seq<RequestView>, k: int)
    requires
        in_order(a),
        in_order(b),
        ranks_within(a, 0, k),
        ranks_within(b, k, k + 1),
        leave_then_join(a),
        leave_then_join(b),
    ensures
        in_order(a + b),
        ranks_within(a + b, 0, k + 1),
        leave_then_join(a + b),
{
    let c = a + b;
    assert forall|i: int, j: int| 0 <= i < j < c.len() && !(c[i] is LeaveTeam) && !(c[j] is LeaveTeam)
        implies #[trigger] rank(c[i]) < #[trigger] rank(c[j]) by {
        if j < a.len() {
            assert(c[i] == a[i] && c[j] == a[j]);
        } else if i < a.len() {
            assert(c[i] == a[i] && c[j] == b[j - a.len()]);
        } else {
            assert(c[i] == b[i - a.len()] && c[j] == b[j - a.len()]);
        }
    }
    assert forall|i: int| 0 <= i < c.len() && !(c[i] is LeaveTeam) implies 0 <= #[trigger] rank(c[i]) < k + 1 by {
        if i < a.len() {
            assert(c[i] == a[i]);
        } else {
            assert(c[i] == b[i - a.len()]);
        }
    }
    assert forall|i: int| 0 <= i < c.len() && #[trigger] c[i] is LeaveTeam implies i + 1 < c.len() && joins_team(c[i + 1]) by {
        if i < a.len() {
            assert(c[i] == a[i]);
            assert(c[i + 1] == a[i + 1]);
        } else {
            assert(c[i] == b[i - a.len()]);
            assert(c[i + 1] == b[i + 1 - a.len()]);
        }
    }
}

/// A plan follows a fixed order: learned blueprint, forgotten blueprint, new
/// team, joined team, leaving with a reply, new name, new colour, clearing;
/// and each silent leave comes directly before the creation or join it is for.
pub proof fn lemma_plan_order(m: ClientMessageView)
    ensures
        in_order(plan_view(m)),
        leave_then_join(plan_view(m)),
{
    let p1 = learned_part(m);
    let p2 = forgot_part(m);
    let p3 = create_part(m);
    let p4 = join_part(m);
    let p5 = leave_part(m);
    let p6 = name_part(m);
    let p7 = color_part(m);
    let p8 = clear_part(m);
    assert(in_order(p1) && ranks_within(p1, 0, 1) && leave_then_join(p1));
    assert(in_order(p2) && ranks_within(p2, 1, 2) && leave_then_join(p2));
    assert(in_order(p3) && ranks_within(p3, 2, 3) && leave_then_join(p3));
    assert(in_order(p4) && ranks_within(p4, 3, 4) && leave_then_join(p4));
    assert(in_order(p5) && ranks_within(p5, 4, 5) && leave_then_join(p5));
    assert(in_order(p6) && ranks_within(p6, 5, 6) && leave_then_join(p6));
    assert(in_order(p7) && ranks_within(p7, 6, 7) && leave_then_join(p7));
    assert(in_order(p8) && ranks_within(p8, 7, 8) && leave_then_join(p8));
    lemma_order_concat(p1, p2, 1);
    lemma_order_concat(p1 + p2, p3, 2);
    lemma_order_concat(p1 + p2 + p3, p4, 3);
    lemma_order_concat(p1 + p2 + p3 + p4, p5, 4);
    lemma_order_concat(p1 + p2 + p3 + p4 + p5, p6, 5);
    lemma_order_concat(p1 + p2 + p3 + p4 + p5 + p6, p7, 6);
    lemma_order_concat(p1 + p2 + p3 + p4 + p5 + p6 + p7, p8, 7);
}

} // verus!
