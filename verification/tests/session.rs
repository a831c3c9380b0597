use server::messages::{ClientMessage, ServerMessage};
use server::records::{Blueprint, Team, Timestamp, User};
use server::session::{
    can_welcome, greet, plan_requests, receive, registration_reply, reply, session_step,
    welcome_message, Frame, Greeting, Outcome, ReceiveError, Request, SessionStep,
};

fn bp(id: i32) -> Blueprint {
    Blueprint { bp_id: id, bp_date: Timestamp { secs: 1_500_000_000 + id as i64, nanos: 0 } }
}

fn member(id: &str, name: Option<&str>, bps: Option<Vec<i32>>) -> User {
    User {
        authentication_id: None,
        user_name: name.map(|s| s.to_string()),
        user_id: id.to_string(),
        team: None,
        blueprints: bps.map(|v| v.into_iter().map(bp).collect()),
        color: Some(format!("#{}", id)),
    }
}

fn is_empty_reply(m: &ServerMessage) -> bool {
    m.error.is_none()
        && m.authentication_id.is_none()
        && m.authenticated.is_none()
        && m.user_id.is_none()
        && m.user_name.is_none()
        && m.color.is_none()
        && m.team_id.is_none()
        && m.team_members.is_none()
        && m.known_bps.is_none()
        && m.team_known_bps.is_none()
}

#[test]
fn welcome_without_team() {
    let user = User {
        authentication_id: Some("auth".to_string()),
        user_name: Some("ann".to_string()),
        user_id: "u1".to_string(),
        team: None,
        blueprints: Some(vec![bp(4), bp(2)]),
        color: Some("#102030".to_string()),
    };
    assert!(can_welcome(&user));
    let m = welcome_message(user);
    assert_eq!(m.authenticated, Some(true));
    assert_eq!(m.user_id.as_deref(), Some("u1"));
    assert_eq!(m.user_name.as_deref(), Some("ann"));
    assert_eq!(m.color.as_deref(), Some("#102030"));
    assert_eq!(m.known_bps, Some(vec![4, 2]));
    assert!(m.team_id.is_none() && m.team_members.is_none() && m.team_known_bps.is_none());
    assert!(m.error.is_none() && m.authentication_id.is_none());
}

#[test]
fn welcome_with_team_lists_members_and_their_blueprints() {
    let old_team = Team { team_id: "old".to_string(), team_name: None, team_members: None };
    let team = Team {
        team_id: "t9".to_string(),
        team_name: Some("nine".to_string()),
        team_members: Some(vec![
            member("m1", Some("bob"), Some(vec![7, 8])),
            member("m2", None, None),
            member("m3", Some("cy"), Some(vec![9])),
        ]),
    };
    let user = User {
        authentication_id: Some("auth".to_string()),
        user_name: None,
        user_id: "me".to_string(),
        team: Some(vec![old_team, team]),
        blueprints: None,
        color: None,
    };
    let m = welcome_message(user);
    assert_eq!(m.team_id.as_deref(), Some("t9"));
    let members = m.team_members.unwrap();
    assert_eq!(members.len(), 3);
    assert_eq!(members[0].user_id, "m1");
    assert_eq!(members[0].user_name.as_deref(), Some("bob"));
    assert_eq!(members[1].user_name, None);
    assert_eq!(members[2].color.as_deref(), Some("#m3"));
    let bps: Vec<(String, i32)> =
        m.team_known_bps.unwrap().into_iter().map(|b| (b.user_id, b.bp)).collect();
    assert_eq!(
        bps,
        vec![("m1".to_string(), 7), ("m1".to_string(), 8), ("m3".to_string(), 9)]
    );
    assert_eq!(m.known_bps, Some(vec![]));
    assert_eq!(m.user_name, None);
}

#[test]
fn welcome_with_team_without_members() {
    let team = Team { team_id: "t1".to_string(), team_name: None, team_members: None };
    let user = User {
        authentication_id: None,
        user_name: None,
        user_id: "me".to_string(),
        team: Some(vec![team]),
        blueprints: None,
        color: None,
    };
    let m = welcome_message(user);
    assert_eq!(m.team_id.as_deref(), Some("t1"));
    assert!(m.team_members.is_none() && m.team_known_bps.is_none());
}

#[test]
fn an_empty_team_list_cannot_be_welcomed() {
    let user = User {
        authentication_id: None,
        user_name: None,
        user_id: "me".to_string(),
        team: Some(vec![]),
        blueprints: None,
        color: None,
    };
    assert!(!can_welcome(&user));
}

fn kinds(reqs: &[Request]) -> Vec<String> {
    reqs.iter().map(|r| format!("{:?}", r)).collect()
}

#[test]
fn empty_message_asks_for_nothing() {
    assert!(plan_requests(&ClientMessage::default()).is_empty());
}

#[test]
fn plan_follows_the_fixed_order() {
    let msg = ClientMessage {
        register: None,
        login: None,
        learned_bp: Some(5),
        forgot_bp: Some(6),
        clear_bp: Some(true),
        join_team: Some("t2".to_string()),
        create_team: Some(true),
        leave_team: Some(true),
        update_name: Some("zed".to_string()),
        color: Some("#abcdef".to_string()),
    };
    let reqs = plan_requests(&msg);
    assert_eq!(
        kinds(&reqs),
        vec![
            "AddBlueprint(5)",
            "RemoveBlueprint(6)",
            "LeaveTeam",
            "CreateTeam",
            "LeaveTeam",
            "JoinTeam(\"t2\")",
            "LeaveTeamAndReport",
            "UpdateName(\"zed\")",
            "UpdateColor(\"#abcdef\")",
            "ClearBlueprints",
        ]
    );
}

#[test]
fn false_flags_ask_for_nothing() {
    let msg = ClientMessage {
        clear_bp: Some(false),
        create_team: Some(false),
        leave_team: Some(false),
        ..ClientMessage::default()
    };
    assert!(plan_requests(&msg).is_empty());
}

#[test]
fn joining_a_team_leaves_first() {
    let msg = ClientMessage { join_team: Some("x".to_string()), ..ClientMessage::default() };
    assert_eq!(kinds(&plan_requests(&msg)), vec!["LeaveTeam", "JoinTeam(\"x\")"]);
}

#[test]
fn replies_to_team_requests() {
    let created = reply(&Request::CreateTeam, &Outcome::TeamCreated("new-id".to_string())).unwrap();
    assert_eq!(created.team_id.as_deref(), Some("new-id"));
    let joined = reply(&Request::JoinTeam("tj".to_string()), &Outcome::Joined(true)).unwrap();
    assert_eq!(joined.team_id.as_deref(), Some("tj"));
    assert!(joined.error.is_none());
    let refused = reply(&Request::JoinTeam("tj".to_string()), &Outcome::Joined(false)).unwrap();
    assert_eq!(refused.error.as_deref(), Some("No Such Team"));
    assert!(refused.team_id.is_none());
    let left = reply(&Request::LeaveTeamAndReport, &Outcome::Done).unwrap();
    assert_eq!(left.team_id.as_deref(), Some(""));
    assert!(reply(&Request::LeaveTeam, &Outcome::Done).is_none());
    assert!(reply(&Request::CreateTeam, &Outcome::Done).is_none());
}

#[test]
fn replies_echo_changes() {
    let n = reply(&Request::UpdateName("neo".to_string()), &Outcome::Done).unwrap();
    assert_eq!(n.user_name.as_deref(), Some("neo"));
    let c = reply(&Request::UpdateColor("#010203".to_string()), &Outcome::Done).unwrap();
    assert_eq!(c.color.as_deref(), Some("#010203"));
    let cl = reply(&Request::ClearBlueprints, &Outcome::Done).unwrap();
    assert_eq!(cl.known_bps, Some(vec![]));
    assert!(reply(&Request::AddBlueprint(1), &Outcome::Done).is_none());
    assert!(reply(&Request::RemoveBlueprint(1), &Outcome::Done).is_none());
}

#[test]
fn receive_classifies_frames() {
    let m = receive(Frame::Text(Some(ClientMessage { learned_bp: Some(3), ..Default::default() })));
    assert_eq!(m.unwrap().learned_bp, Some(3));
    assert_eq!(receive(Frame::Text(None)).unwrap_err(), ReceiveError::InvalidInput);
    assert_eq!(receive(Frame::NonText).unwrap_err(), ReceiveError::InvalidInput);
    assert_eq!(receive(Frame::Closed).unwrap_err(), ReceiveError::BrokenPipe);
    assert_eq!(receive(Frame::Failed).unwrap_err(), ReceiveError::InvalidInput);
}

#[test]
fn session_steps() {
    assert!(matches!(session_step(&Err(ReceiveError::BrokenPipe)), SessionStep::Stop));
    assert!(matches!(session_step(&Err(ReceiveError::InvalidInput)), SessionStep::Skip));
    let msg = ClientMessage { update_name: Some("n".to_string()), ..Default::default() };
    match session_step(&Ok(msg)) {
        SessionStep::Handle(reqs) => assert_eq!(kinds(&reqs), vec!["UpdateName(\"n\")"]),
        other => panic!("{:?}", other),
    }
}

#[test]
fn register_wins_over_login() {
    let both = ClientMessage {
        register: Some(false),
        login: Some("abc".to_string()),
        ..Default::default()
    };
    assert!(matches!(greet(&Ok(both)), Greeting::Register));
    let login = ClientMessage { login: Some("abc".to_string()), ..Default::default() };
    match greet(&Ok(login)) {
        Greeting::Login(a) => assert_eq!(a, "abc"),
        other => panic!("{:?}", other),
    }
    assert!(matches!(greet(&Ok(ClientMessage::default())), Greeting::Ignore));
    assert!(matches!(greet(&Err(ReceiveError::InvalidInput)), Greeting::Ignore));
}

#[test]
fn registration_reply_carries_only_the_id() {
    let m = registration_reply("id-1".to_string());
    assert_eq!(m.authentication_id.as_deref(), Some("id-1"));
    let rest = ServerMessage { authentication_id: None, ..m };
    assert!(is_empty_reply(&rest));
}

#[test]
fn defaults_are_empty() {
    assert!(is_empty_reply(&ServerMessage::default()));
    let c = ClientMessage::default();
    assert!(c.register.is_none() && c.login.is_none() && c.color.is_none());
}
