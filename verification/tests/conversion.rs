//! End-to-end tests of the editor-to-final conversion pipeline.

use scoring_config::convert::convert_editor_to_final;
use scoring_config::model::{
    BlueTeamEditor, ConfigurationEditor, ConversionError, HttpCheckInfo, IpGeneratorScheme,
    MachineEditor, RedWhiteTeamEditor, ServiceDefinition, ServiceEditor, TeamConfig, User,
};

fn user(u: &str, p: &str) -> User {
    User { username: u.to_string(), password: p.to_string() }
}

fn http_record(mc: &str, ua: &str, vhost: &str, uri: &str) -> HttpCheckInfo {
    HttpCheckInfo {
        matching_content: mc.to_string(),
        useragent: ua.to_string(),
        vhost: vhost.to_string(),
        uri: uri.to_string(),
    }
}

fn http_service(name: &str, port: u16, points: u16) -> ServiceEditor {
    ServiceEditor {
        name: name.to_string(),
        port,
        points,
        definition: ServiceDefinition::Http { environment: vec![http_record("OK", "ua", "v", "/")] },
        accounts: None,
    }
}

fn machine(
    name: &str,
    template: &str,
    offset: Option<u8>,
    services: Vec<ServiceEditor>,
) -> MachineEditor {
    MachineEditor {
        name: name.to_string(),
        services,
        ip_template: template.to_string(),
        ip_offset: offset,
    }
}

fn blue(id: u8, name: &str, users: Vec<User>) -> BlueTeamEditor {
    BlueTeamEditor { id, name: name.to_string(), users }
}

fn red(name: &str, users: Vec<User>) -> RedWhiteTeamEditor {
    RedWhiteTeamEditor { name: name.to_string(), users, white_team: false }
}

fn white(name: &str, users: Vec<User>) -> RedWhiteTeamEditor {
    RedWhiteTeamEditor { name: name.to_string(), users, white_team: true }
}

fn config(
    red_white_teams: Vec<RedWhiteTeamEditor>,
    blue_teams: Vec<BlueTeamEditor>,
    machines: Vec<MachineEditor>,
    ip_generator: IpGeneratorScheme,
) -> ConfigurationEditor {
    ConfigurationEditor { red_white_teams, blue_teams, machines, ip_generator }
}

#[test]
fn end_to_end_single_http_service() {
    let cfg = config(
        vec![],
        vec![blue(1, "Blue1", vec![user("u", "p")])],
        vec![machine("web1", "10.0.0.X", None, vec![http_service("site", 80, 100)])],
        IpGeneratorScheme::ReplaceXWithId,
    );
    let (finalcfg, _) = convert_editor_to_final(&cfg).unwrap();
    assert_eq!(finalcfg.teams.len(), 1);
    match &finalcfg.teams[0] {
        TeamConfig::Blue { name, users, services } => {
            assert_eq!(name, "Blue1");
            assert_eq!(users.len(), 1);
            assert_eq!(services.len(), 1);
            let svc = &services[0];
            assert_eq!(svc.name, "web1-HTTPCheck-site");
            assert_eq!(svc.check_name, "HTTPCheck");
            assert_eq!(svc.host, "10.0.0.1");
            assert_eq!(svc.port, 80);
            assert_eq!(svc.points, 100);
            assert!(svc.accounts.is_none());
            assert_eq!(svc.environments.len(), 1);
            assert_eq!(svc.environments[0].matching_content, "OK");
            assert_eq!(svc.environments[0].properties.len(), 3);
            assert_eq!(svc.environments[0].properties[0].name, "useragent");
            assert_eq!(svc.environments[0].properties[0].value, "ua");
            assert_eq!(svc.environments[0].properties[1].name, "vhost");
            assert_eq!(svc.environments[0].properties[1].value, "v");
            assert_eq!(svc.environments[0].properties[2].name, "uri");
            assert_eq!(svc.environments[0].properties[2].value, "/");
        },
        other => panic!("expected a blue team, got {:?}", other),
    }
}

#[test]
fn conversion_is_deterministic() {
    let cfg = config(
        vec![red("Red1", vec![user("r", "p")])],
        vec![blue(1, "Blue1", vec![user("u", "p")])],
        vec![machine("web1", "10.0.0.X", None, vec![http_service("site", 80, 100)])],
        IpGeneratorScheme::ReplaceXWithId,
    );
    let first = convert_editor_to_final(&cfg);
    let second = convert_editor_to_final(&cfg);
    assert_eq!(first, second);
}

#[test]
fn returned_editor_equals_input() {
    let cfg = config(
        vec![white("White1", vec![user("w", "p")])],
        vec![blue(1, "Blue1", vec![user("u", "p")])],
        vec![machine("web1", "10.0.0.X", Some(9), vec![http_service("site", 80, 100)])],
        IpGeneratorScheme::ReplaceXWithId,
    );
    let (_, returned) = convert_editor_to_final(&cfg).unwrap();
    assert_eq!(returned, cfg);
}

#[test]
fn duplicate_blue_ids_rejected() {
    let cfg = config(
        vec![],
        vec![
            blue(1, "Blue1", vec![user("u1", "p")]),
            blue(1, "Blue2", vec![user("u2", "p")]),
        ],
        vec![],
        IpGeneratorScheme::ReplaceXWithId,
    );
    assert_eq!(
        convert_editor_to_final(&cfg).unwrap_err(),
        ConversionError::DuplicateBlueTeamIDs(1, vec!["Blue1".to_string(), "Blue2".to_string()]),
    );
}

#[test]
fn same_resolved_address_is_a_collision() {
    let cfg = config(
        vec![],
        vec![blue(1, "Blue1", vec![user("u", "p")])],
        vec![
            machine("m1", "10.0.0.x", None, vec![http_service("site", 80, 100)]),
            machine("m2", "10.0.0.X", None, vec![http_service("site", 80, 100)]),
        ],
        IpGeneratorScheme::ReplaceXWithId,
    );
    assert_eq!(
        convert_editor_to_final(&cfg).unwrap_err(),
        ConversionError::DuplicateIPs("10.0.0.1".to_string(), "m2".to_string(), "m1".to_string()),
    );
}

#[test]
fn distinct_teams_get_distinct_addresses() {
    let cfg = config(
        vec![],
        vec![
            blue(1, "Blue1", vec![user("u1", "p")]),
            blue(2, "Blue2", vec![user("u2", "p")]),
        ],
        vec![machine("web1", "10.0.0.x", None, vec![http_service("site", 80, 100)])],
        IpGeneratorScheme::ReplaceXWithId,
    );
    let (finalcfg, _) = convert_editor_to_final(&cfg).unwrap();
    let hosts: Vec<String> = finalcfg
        .teams
        .iter()
        .map(|t| match t {
            TeamConfig::Blue { services, .. } => services[0].host.clone(),
            _ => panic!("expected blue teams"),
        })
        .collect();
    assert_eq!(hosts, vec!["10.0.0.1".to_string(), "10.0.0.2".to_string()]);
}

#[test]
fn offset_scheme_arithmetic() {
    let cfg = config(
        vec![],
        vec![blue(2, "Blue2", vec![user("u", "p")])],
        vec![machine("web1", "10.0.0.X", Some(5), vec![http_service("site", 80, 100)])],
        IpGeneratorScheme::ReplaceXWithIdTimesMultiplierPlusOffset { multiplier: 10 },
    );
    let (finalcfg, _) = convert_editor_to_final(&cfg).unwrap();
    match &finalcfg.teams[0] {
        TeamConfig::Blue { services, .. } => assert_eq!(services[0].host, "10.0.0.25"),
        other => panic!("expected a blue team, got {:?}", other),
    }
}

#[test]
fn offset_scheme_wraps_eight_bit_arithmetic() {
    let cfg = config(
        vec![],
        vec![blue(3, "Blue3", vec![user("u", "p")])],
        vec![machine("web1", "10.0.0.X", Some(5), vec![http_service("site", 80, 100)])],
        IpGeneratorScheme::ReplaceXWithIdTimesMultiplierPlusOffset { multiplier: 100 },
    );
    let (finalcfg, _) = convert_editor_to_final(&cfg).unwrap();
    match &finalcfg.teams[0] {
        // 100 * 3 + 5 = 305, which wraps to 49 in eight bits
        TeamConfig::Blue { services, .. } => assert_eq!(services[0].host, "10.0.0.49"),
        other => panic!("expected a blue team, got {:?}", other),
    }
}

#[test]
fn empty_blue_team_rejected() {
    let cfg = config(
        vec![],
        vec![blue(1, "Blue1", vec![])],
        vec![],
        IpGeneratorScheme::ReplaceXWithId,
    );
    assert_eq!(
        convert_editor_to_final(&cfg).unwrap_err(),
        ConversionError::TeamNeedsUser("Blue1".to_string()),
    );
}

#[test]
fn cross_team_duplicate_username_rejected() {
    let cfg = config(
        vec![red("Red1", vec![user("alice", "p1")])],
        vec![blue(1, "Blue1", vec![user("alice", "p2")])],
        vec![],
        IpGeneratorScheme::ReplaceXWithId,
    );
    assert_eq!(
        convert_editor_to_final(&cfg).unwrap_err(),
        ConversionError::DuplicateUserNameForTeams(
            "alice".to_string(),
            vec!["Red1".to_string(), "Blue1".to_string()],
        ),
    );
}

#[test]
fn username_repeated_within_one_team_allowed() {
    let cfg = config(
        vec![],
        vec![blue(1, "Blue1", vec![user("alice", "p1"), user("alice", "p2")])],
        vec![],
        IpGeneratorScheme::ReplaceXWithId,
    );
    assert!(convert_editor_to_final(&cfg).is_ok());
}

#[test]
fn one_team_scheme_with_multiple_teams_rejected() {
    let cfg = config(
        vec![],
        vec![
            blue(1, "Blue1", vec![user("u1", "p")]),
            blue(2, "Blue2", vec![user("u2", "p")]),
        ],
        vec![],
        IpGeneratorScheme::OneTeam,
    );
    assert_eq!(
        convert_editor_to_final(&cfg).unwrap_err(),
        ConversionError::OneTeamConfigurationWithMultipleTeams,
    );
}

#[test]
fn one_team_scheme_accepts_literal_address() {
    let cfg = config(
        vec![],
        vec![blue(1, "Blue1", vec![user("u", "p")])],
        vec![machine("web1", "10.0.0.9", None, vec![http_service("site", 80, 100)])],
        IpGeneratorScheme::OneTeam,
    );
    let (finalcfg, _) = convert_editor_to_final(&cfg).unwrap();
    match &finalcfg.teams[0] {
        TeamConfig::Blue { services, .. } => assert_eq!(services[0].host, "10.0.0.9"),
        other => panic!("expected a blue team, got {:?}", other),
    }
}

#[test]
fn placeholder_in_manual_address_rejected() {
    let cfg = config(
        vec![],
        vec![blue(1, "Blue1", vec![user("u", "p")])],
        vec![machine("web1", "10.0.0.x", None, vec![http_service("site", 80, 100)])],
        IpGeneratorScheme::OneTeam,
    );
    assert_eq!(
        convert_editor_to_final(&cfg).unwrap_err(),
        ConversionError::XInManualIP("web1".to_string()),
    );
}

#[test]
fn missing_placeholder_in_template_rejected() {
    let cfg = config(
        vec![],
        vec![blue(1, "Blue1", vec![user("u", "p")])],
        vec![machine("web1", "10.0.0.9", None, vec![http_service("site", 80, 100)])],
        IpGeneratorScheme::ReplaceXWithId,
    );
    assert_eq!(
        convert_editor_to_final(&cfg).unwrap_err(),
        ConversionError::NoXInTemplateIP("web1".to_string()),
    );
}

#[test]
fn multiplier_must_cover_machine_count() {
    let cfg = config(
        vec![],
        vec![blue(1, "Blue1", vec![user("u", "p")])],
        vec![
            machine("m1", "10.0.0.X", Some(1), vec![]),
            machine("m2", "10.0.0.X", Some(2), vec![]),
        ],
        IpGeneratorScheme::ReplaceXWithIdTimesMultiplierPlusOffset { multiplier: 1 },
    );
    assert_eq!(
        convert_editor_to_final(&cfg).unwrap_err(),
        ConversionError::MultNotBigEnough(2, 1),
    );
}

#[test]
fn missing_offset_rejected() {
    let cfg = config(
        vec![],
        vec![blue(1, "Blue1", vec![user("u", "p")])],
        vec![
            machine("m1", "10.0.0.X", Some(1), vec![]),
            machine("m2", "10.0.0.X", None, vec![]),
        ],
        IpGeneratorScheme::ReplaceXWithIdTimesMultiplierPlusOffset { multiplier: 10 },
    );
    assert_eq!(
        convert_editor_to_final(&cfg).unwrap_err(),
        ConversionError::MissingOffset("m2".to_string()),
    );
}

#[test]
fn duplicate_offsets_rejected() {
    let cfg = config(
        vec![],
        vec![blue(1, "Blue1", vec![user("u", "p")])],
        vec![
            machine("m1", "10.0.0.X", Some(5), vec![]),
            machine("m2", "10.0.1.X", Some(5), vec![]),
        ],
        IpGeneratorScheme::ReplaceXWithIdTimesMultiplierPlusOffset { multiplier: 10 },
    );
    assert_eq!(
        convert_editor_to_final(&cfg).unwrap_err(),
        ConversionError::DuplicateOffsets(vec!["m1".to_string(), "m2".to_string()]),
    );
}

#[test]
fn zero_blue_team_id_rejected() {
    let cfg = config(
        vec![],
        vec![blue(0, "Blue0", vec![user("u", "p")])],
        vec![],
        IpGeneratorScheme::ReplaceXWithId,
    );
    assert_eq!(
        convert_editor_to_final(&cfg).unwrap_err(),
        ConversionError::ZeroBlueTeamID("Blue0".to_string()),
    );
}

#[test]
fn empty_team_name_rejected() {
    let cfg = config(
        vec![red("", vec![user("r", "p")])],
        vec![],
        vec![],
        IpGeneratorScheme::ReplaceXWithId,
    );
    assert_eq!(convert_editor_to_final(&cfg).unwrap_err(), ConversionError::TeamHasEmptyName);
}

#[test]
fn empty_blue_team_name_rejected() {
    let cfg = config(
        vec![],
        vec![blue(1, "", vec![user("u", "p")])],
        vec![],
        IpGeneratorScheme::ReplaceXWithId,
    );
    assert_eq!(convert_editor_to_final(&cfg).unwrap_err(), ConversionError::TeamHasEmptyName);
}

#[test]
fn red_white_team_without_users_rejected() {
    let cfg = config(
        vec![white("White1", vec![])],
        vec![],
        vec![],
        IpGeneratorScheme::ReplaceXWithId,
    );
    assert_eq!(
        convert_editor_to_final(&cfg).unwrap_err(),
        ConversionError::TeamNeedsUser("White1".to_string()),
    );
}

#[test]
fn empty_machine_name_rejected() {
    let cfg = config(
        vec![],
        vec![blue(1, "Blue1", vec![user("u", "p")])],
        vec![machine("", "10.0.0.X", None, vec![])],
        IpGeneratorScheme::ReplaceXWithId,
    );
    assert_eq!(convert_editor_to_final(&cfg).unwrap_err(), ConversionError::MachineHasEmptyName);
}

#[test]
fn duplicate_machine_names_rejected() {
    let cfg = config(
        vec![],
        vec![blue(1, "Blue1", vec![user("u", "p")])],
        vec![
            machine("web1", "10.0.0.X", None, vec![]),
            machine("web1", "10.0.1.X", None, vec![]),
        ],
        IpGeneratorScheme::ReplaceXWithId,
    );
    assert_eq!(
        convert_editor_to_final(&cfg).unwrap_err(),
        ConversionError::DuplicateMachineNames("web1".to_string()),
    );
}

#[test]
fn empty_service_name_rejected() {
    let cfg = config(
        vec![],
        vec![blue(1, "Blue1", vec![user("u", "p")])],
        vec![machine("web1", "10.0.0.X", None, vec![http_service("", 80, 100)])],
        IpGeneratorScheme::ReplaceXWithId,
    );
    assert_eq!(
        convert_editor_to_final(&cfg).unwrap_err(),
        ConversionError::MachineHasEmptyService("web1".to_string()),
    );
}

#[test]
fn duplicate_service_names_rejected() {
    let cfg = config(
        vec![],
        vec![blue(1, "Blue1", vec![user("u", "p")])],
        vec![machine(
            "web1",
            "10.0.0.X",
            None,
            vec![http_service("site", 80, 100), http_service("site", 443, 100)],
        )],
        IpGeneratorScheme::ReplaceXWithId,
    );
    assert_eq!(
        convert_editor_to_final(&cfg).unwrap_err(),
        ConversionError::DuplicateServiceName("web1".to_string(), "site".to_string()),
    );
}

#[test]
fn blank_account_credential_rejected() {
    let mut svc = http_service("site", 80, 100);
    svc.accounts = Some(vec![user("bob", "")]);
    let cfg = config(
        vec![],
        vec![blue(1, "Blue1", vec![user("u", "p")])],
        vec![machine("web1", "10.0.0.X", None, vec![svc])],
        IpGeneratorScheme::ReplaceXWithId,
    );
    assert_eq!(
        convert_editor_to_final(&cfg).unwrap_err(),
        ConversionError::EmptyUsernameOrPassword("service web1-site".to_string(), "bob".to_string()),
    );
}

#[test]
fn blank_blue_team_credential_rejected() {
    let cfg = config(
        vec![],
        vec![blue(1, "Blue1", vec![user("bob", "")])],
        vec![],
        IpGeneratorScheme::ReplaceXWithId,
    );
    assert_eq!(
        convert_editor_to_final(&cfg).unwrap_err(),
        ConversionError::EmptyUsernameOrPassword("team Blue1".to_string(), "bob".to_string()),
    );
}

#[test]
fn blank_red_team_credential_rejected() {
    let cfg = config(
        vec![red("Red1", vec![user("", "pw")])],
        vec![],
        vec![],
        IpGeneratorScheme::ReplaceXWithId,
    );
    assert_eq!(
        convert_editor_to_final(&cfg).unwrap_err(),
        ConversionError::EmptyUsernameOrPassword("team Red1".to_string(), "".to_string()),
    );
}

#[test]
fn membership_check_precedes_credential_check() {
    let cfg = config(
        vec![],
        vec![blue(1, "Blue1", vec![]), blue(2, "Blue2", vec![user("bob", "")])],
        vec![],
        IpGeneratorScheme::ReplaceXWithId,
    );
    assert_eq!(
        convert_editor_to_final(&cfg).unwrap_err(),
        ConversionError::TeamNeedsUser("Blue1".to_string()),
    );
}

#[test]
fn credential_check_precedes_service_validation() {
    let mut svc = http_service("site", 80, 100);
    svc.definition = ServiceDefinition::Http { environment: vec![http_record("OK", "ua", "v", "")] };
    let cfg = config(
        vec![],
        vec![blue(1, "Blue1", vec![user("bob", "")])],
        vec![machine("web1", "10.0.0.X", None, vec![svc])],
        IpGeneratorScheme::ReplaceXWithId,
    );
    assert_eq!(
        convert_editor_to_final(&cfg).unwrap_err(),
        ConversionError::EmptyUsernameOrPassword("team Blue1".to_string(), "bob".to_string()),
    );
}

#[test]
fn error_messages_render_with_payloads() {
    assert_eq!(
        ConversionError::OneTeamConfigurationWithMultipleTeams.message(),
        "multiple teams specified with a one team ip address configuration",
    );
    assert_eq!(
        ConversionError::MultNotBigEnough(2, 1).message(),
        "the multiplier specified was not big enough to account for all the machines on the network (multiplier 1, machine count 2)",
    );
    assert_eq!(
        ConversionError::DuplicateBlueTeamIDs(7, vec!["A".to_string(), "B".to_string()]).message(),
        "duplicate blue team member IDs for teams A, B (7)",
    );
    assert_eq!(
        ConversionError::DuplicateIPs("10.0.0.1".to_string(), "m2".to_string(), "m1".to_string())
            .message(),
        "duplicate ip address 10.0.0.1 specified for machines m2 and m1",
    );
    assert_eq!(
        ConversionError::ServiceNotFullyConfigured(
            "web1".to_string(),
            "site".to_string(),
            "URI cannot be empty".to_string(),
        )
        .message(),
        "the service site on machine web1 was not fully configured: URI cannot be empty",
    );
    assert_eq!(
        ConversionError::EmptyUsernameOrPassword("team Blue1".to_string(), "bob".to_string())
            .message(),
        "empty username or password at team Blue1 (username: bob)",
    );
    assert_eq!(
        ConversionError::ZeroBlueTeamID("Blue0".to_string()).message(),
        "blue team Blue0 has the id 0",
    );
}

#[test]
fn team_validation_precedes_machine_validation() {
    let cfg = config(
        vec![red("", vec![user("r", "p")])],
        vec![blue(1, "Blue1", vec![user("u", "p")])],
        vec![
            machine("web1", "10.0.0.X", None, vec![]),
            machine("web1", "10.0.1.X", None, vec![]),
        ],
        IpGeneratorScheme::ReplaceXWithId,
    );
    assert_eq!(convert_editor_to_final(&cfg).unwrap_err(), ConversionError::TeamHasEmptyName);
}

#[test]
fn one_team_re_registration_is_idempotent() {
    // Two services on one machine resolve the same literal address for the
    // same machine: not a collision.
    let cfg = config(
        vec![],
        vec![blue(1, "Blue1", vec![user("u", "p")])],
        vec![machine(
            "web1",
            "10.0.0.9",
            None,
            vec![http_service("site", 80, 100), http_service("admin", 443, 50)],
        )],
        IpGeneratorScheme::OneTeam,
    );
    let (finalcfg, _) = convert_editor_to_final(&cfg).unwrap();
    match &finalcfg.teams[0] {
        TeamConfig::Blue { services, .. } => {
            assert_eq!(services.len(), 2);
            assert_eq!(services[0].host, "10.0.0.9");
            assert_eq!(services[1].host, "10.0.0.9");
        },
        other => panic!("expected a blue team, got {:?}", other),
    }
}

#[test]
fn red_white_teams_precede_blue_teams() {
    let cfg = config(
        vec![
            red("Red1", vec![user("r", "p")]),
            white("White1", vec![user("w", "p")]),
        ],
        vec![blue(1, "Blue1", vec![user("u", "p")])],
        vec![],
        IpGeneratorScheme::ReplaceXWithId,
    );
    let (finalcfg, _) = convert_editor_to_final(&cfg).unwrap();
    assert_eq!(finalcfg.teams.len(), 3);
    assert!(matches!(&finalcfg.teams[0], TeamConfig::Red { .. }));
    assert!(matches!(&finalcfg.teams[1], TeamConfig::White { .. }));
    assert!(matches!(&finalcfg.teams[2], TeamConfig::Blue { .. }));
}
