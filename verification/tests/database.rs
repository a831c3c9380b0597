use server::database::{
    add_blueprint_mutation, blueprint_query, clear_blueprints_mutation, create_team_mutation,
    create_user_mutation, first_uid, join_team_mutation, leave_team_mutations, new_id, new_user,
    pick_user, random_color, team_join_succeeds, remove_blueprints_mutation, sole_team_uid, team_query, uid_query,
    update_color_mutation, update_name_mutation, user_query, user_teams_query, Mutation,
    UserBlueprintUids, UserTeamUids,
};
use server::records::{new_blueprint, Blueprint, Timestamp, User};

fn is_lower_hex(c: char) -> bool {
    c.is_ascii_digit() || ('a'..='f').contains(&c)
}

fn user(id: &str) -> User {
    User {
        authentication_id: None,
        user_name: None,
        user_id: id.to_string(),
        team: None,
        blueprints: None,
        color: None,
    }
}

fn strings(v: &[&str]) -> Vec<String> {
    v.iter().map(|s| s.to_string()).collect()
}

#[test]
fn new_id_is_a_random_v4_uuid() {
    let id = new_id();
    let chars: Vec<char> = id.chars().collect();
    assert_eq!(chars.len(), 36);
    for (i, c) in chars.iter().enumerate() {
        if [8, 13, 18, 23].contains(&i) {
            assert_eq!(*c, '-');
        } else {
            assert!(is_lower_hex(*c), "{}", id);
        }
    }
    assert_eq!(chars[14], '4');
    assert!(['8', '9', 'a', 'b'].contains(&chars[19]));
    assert_ne!(new_id(), new_id());
}

#[test]
fn random_color_is_hash_and_six_hex_digits() {
    let c = random_color();
    assert_eq!(c.len(), 7);
    assert!(c.starts_with('#'));
    assert!(c[1..].chars().all(is_lower_hex));
}

#[test]
fn new_user_has_fresh_ids_and_a_color() {
    let u = new_user();
    assert_eq!(u.authentication_id.len(), 36);
    assert_eq!(u.user_id.len(), 36);
    assert_ne!(u.authentication_id, u.user_id);
    assert_eq!(u.color.len(), 7);
    let auth = u.authentication_id.clone();
    match create_user_mutation(u) {
        Mutation::CreateUser(n) => assert_eq!(n.authentication_id, auth),
        other => panic!("{:?}", other),
    }
}

#[test]
fn user_query_asks_for_the_full_record() {
    let q = user_query("abc");
    assert!(q.text.starts_with("query userQuery($auth_id: string) {"));
    assert!(q.text.contains("team_members @filter(not eq(authentication_id, $auth_id))"));
    assert!(q.text.contains("  \t~team_members {"));
    assert_eq!(q.vars, vec![("$auth_id".to_string(), "abc".to_string())]);
}

#[test]
fn uid_and_team_queries() {
    let q = uid_query("a-1");
    assert_eq!(
        q.text,
        "query userQuery($auth_id: string) {\n  user(func:eq(authentication_id, $auth_id)) {\n    uid\n  }\n}"
    );
    assert_eq!(q.vars, vec![("$auth_id".to_string(), "a-1".to_string())]);
    let t = team_query("t-9");
    assert_eq!(
        t.text,
        "query teamQuery($team_id: string) {\n  team(func:eq(team_id, $team_id)) {\n    uid\n  }\n}"
    );
    assert_eq!(t.vars, vec![("$team_id".to_string(), "t-9".to_string())]);
    let ut = user_teams_query("a-2");
    assert!(ut.text.contains("~team_members  {"));
    assert_eq!(ut.vars, vec![("$auth_id".to_string(), "a-2".to_string())]);
}

#[test]
fn blueprint_query_passes_the_id_in_decimal() {
    let q = blueprint_query("me", -42);
    assert!(q.text.starts_with("query bpQuery($auth_id: string, $bp_id: int) {"));
    assert_eq!(
        q.vars,
        vec![
            ("$auth_id".to_string(), "me".to_string()),
            ("$bp_id".to_string(), "-42".to_string())
        ]
    );
}

#[test]
fn pick_user_takes_the_last_listed() {
    assert!(pick_user(vec![]).is_none());
    let picked = pick_user(vec![user("first"), user("second")]).unwrap();
    assert_eq!(picked.user_id, "second");
}

#[test]
fn first_uid_takes_the_first_listed() {
    assert_eq!(first_uid(&strings(&["0x1", "0x2"])), Some("0x1".to_string()));
}

#[test]
fn sole_team_uid_needs_exactly_one_team() {
    assert_eq!(sole_team_uid(&vec![]), None);
    assert_eq!(sole_team_uid(&strings(&["0x7"])), Some("0x7".to_string()));
    assert_eq!(sole_team_uid(&strings(&["0x7", "0x8"])), None);
}

#[test]
fn remove_blueprints_uses_the_first_player_found() {
    let found = vec![
        UserBlueprintUids { uid: "0xa".to_string(), blueprint_uids: strings(&["0xb1", "0xb2"]) },
        UserBlueprintUids { uid: "0xz".to_string(), blueprint_uids: strings(&["0xzz"]) },
    ];
    let m = remove_blueprints_mutation(&found);
    assert!(m.is_deletion());
    match m {
        Mutation::RemoveBlueprints { uid, blueprint_uids } => {
            assert_eq!(uid, "0xa");
            assert_eq!(blueprint_uids, strings(&["0xb1", "0xb2"]));
        }
        other => panic!("{:?}", other),
    }
}

#[test]
fn leave_team_removes_the_player_from_every_listed_team() {
    let found = vec![UserTeamUids {
        uid: "0xu".to_string(),
        team_uids: Some(strings(&["0xt1", "0xt2"])),
    }];
    let ms = leave_team_mutations(&found);
    assert_eq!(ms.len(), 2);
    for (m, t) in ms.iter().zip(["0xt1", "0xt2"]) {
        assert!(m.is_deletion());
        match m {
            Mutation::RemoveMember { team_uid, member_uid } => {
                assert_eq!(team_uid, t);
                assert_eq!(member_uid, "0xu");
            }
            other => panic!("{:?}", other),
        }
    }
    let none = vec![UserTeamUids { uid: "0xu".to_string(), team_uids: None }];
    assert!(leave_team_mutations(&none).is_empty());
}

#[test]
fn set_mutations_are_not_deletions() {
    let bp = Blueprint { bp_id: 3, bp_date: Timestamp { secs: 1_600_000_000, nanos: 5 } };
    let add = add_blueprint_mutation("0x1".to_string(), bp);
    assert!(!add.is_deletion());
    match add {
        Mutation::AddBlueprint { uid, blueprint } => {
            assert_eq!(uid, "0x1");
            assert_eq!(blueprint.bp_id, 3);
            assert_eq!(blueprint.bp_date, Timestamp { secs: 1_600_000_000, nanos: 5 });
        }
        other => panic!("{:?}", other),
    }
    assert!(!create_team_mutation("t".to_string(), "u".to_string()).is_deletion());
    assert!(!join_team_mutation("t".to_string(), "u".to_string()).is_deletion());
    assert!(!update_name_mutation("u".to_string(), "n".to_string()).is_deletion());
    assert!(!update_color_mutation("u".to_string(), "#000000".to_string()).is_deletion());
    assert!(clear_blueprints_mutation("u".to_string()).is_deletion());
    match join_team_mutation("0xt".to_string(), "0xu".to_string()) {
        Mutation::AddMember { team_uid, member_uid } => {
            assert_eq!(team_uid, "0xt");
            assert_eq!(member_uid, "0xu");
        }
        other => panic!("{:?}", other),
    }
}

#[test]
fn new_blueprint_keeps_the_id() {
    let bp = new_blueprint(17);
    assert_eq!(bp.bp_id, 17);
    assert!(bp.bp_date.secs > 1_500_000_000);
    assert!(bp.bp_date.nanos < 1_000_000_000);
}

#[test]
fn joining_succeeds_exactly_when_the_team_was_found() {
    assert!(team_join_succeeds(&Some("0x5".to_string())));
    assert!(!team_join_succeeds(&None));
    assert_eq!(sole_team_uid(&strings(&["a", "b"])).is_some(), false);
}

#[test]
fn default_records_are_empty() {
    let u = User::default();
    assert!(u.authentication_id.is_none() && u.team.is_none() && u.blueprints.is_none());
    assert_eq!(u.user_id, "");
    let t = server::records::Team::default();
    assert_eq!(t.team_id, "");
    assert!(t.team_name.is_none() && t.team_members.is_none());
}
