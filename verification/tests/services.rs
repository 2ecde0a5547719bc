//! Tests of per-kind service validation and environment derivation.

use scoring_config::model::{
    ConversionError, DnsCheckInfo, FtpCheckInfo, NfsCheckInfo, RemoteCommandCheckInfo,
    ServiceDefinition, SmbCheckInfo, SmtpCheckInfo, User,
};

fn smb_record(hash: &str) -> SmbCheckInfo {
    SmbCheckInfo {
        matching_content: "ok".to_string(),
        remote_name: "srv".to_string(),
        share: "share".to_string(),
        file: "file.txt".to_string(),
        hash: hash.to_string(),
    }
}

#[test]
fn icmp_default_matcher() {
    let def = ServiceDefinition::Icmp { environment: None };
    let envs = def.environments("m", "s").unwrap();
    assert_eq!(envs.len(), 1);
    assert_eq!(envs[0].matching_content, "1 packets transmitted, 1 received");
    assert!(envs[0].properties.is_empty());
}

#[test]
fn rdp_default_matcher() {
    let def = ServiceDefinition::Rdp { environment: None };
    let envs = def.environments("m", "s").unwrap();
    assert_eq!(envs[0].matching_content, "SUCCESS$");
}

#[test]
fn vnc_default_matcher() {
    let def = ServiceDefinition::Vnc { environment: None };
    let envs = def.environments("m", "s").unwrap();
    assert_eq!(envs[0].matching_content, "ACCOUNT FOUND");
}

#[test]
fn icmp_supplied_matcher_used_verbatim() {
    let def = ServiceDefinition::Icmp { environment: Some("custom ping".to_string()) };
    let envs = def.environments("m", "s").unwrap();
    assert_eq!(envs.len(), 1);
    assert_eq!(envs[0].matching_content, "custom ping");
    assert!(envs[0].properties.is_empty());
}

#[test]
fn docker_produces_no_environments() {
    let def = ServiceDefinition::Docker { environment: vec![] };
    assert!(def.environments("m", "s").unwrap().is_empty());
}

#[test]
fn dns_valid_record_becomes_environment() {
    let def = ServiceDefinition::Dns {
        environment: vec![DnsCheckInfo {
            matching_content: "1.2.3.4".to_string(),
            qtype: "A".to_string(),
            domain: "example.test".to_string(),
        }],
    };
    let envs = def.environments("m", "s").unwrap();
    assert_eq!(envs.len(), 1);
    assert_eq!(envs[0].matching_content, "1.2.3.4");
    assert_eq!(envs[0].properties.len(), 2);
    assert_eq!(envs[0].properties[0].name, "qtype");
    assert_eq!(envs[0].properties[0].value, "A");
    assert_eq!(envs[0].properties[1].name, "domain");
    assert_eq!(envs[0].properties[1].value, "example.test");
}

#[test]
fn dns_empty_fields_collects_all_messages() {
    let def = ServiceDefinition::Dns {
        environment: vec![DnsCheckInfo {
            matching_content: "".to_string(),
            qtype: "".to_string(),
            domain: "".to_string(),
        }],
    };
    assert_eq!(
        def.environments("m", "s").unwrap_err(),
        ConversionError::ServiceNotFullyConfigured(
            "m".to_string(),
            "s".to_string(),
            "Service match cannot be empty, DNS query type cannot be empty, Domain queried cannot be empty"
                .to_string(),
        ),
    );
}

#[test]
fn http_empty_uri_names_the_rule() {
    let def = ServiceDefinition::Http {
        environment: vec![scoring_config::model::HttpCheckInfo {
            matching_content: "OK".to_string(),
            useragent: "ua".to_string(),
            vhost: "v".to_string(),
            uri: "".to_string(),
        }],
    };
    assert_eq!(
        def.environments("web1", "site").unwrap_err(),
        ConversionError::ServiceNotFullyConfigured(
            "web1".to_string(),
            "site".to_string(),
            "URI cannot be empty".to_string(),
        ),
    );
}

#[test]
fn smb_hash_must_be_sixty_four_characters() {
    let def = ServiceDefinition::Smb { environment: vec![smb_record(&"a".repeat(63))] };
    assert_eq!(
        def.environments("m", "s").unwrap_err(),
        ConversionError::ServiceNotFullyConfigured(
            "m".to_string(),
            "s".to_string(),
            "File hash must be 64 characters".to_string(),
        ),
    );
}

#[test]
fn smb_empty_hash_breaks_both_hash_rules() {
    let def = ServiceDefinition::Smb { environment: vec![smb_record("")] };
    assert_eq!(
        def.environments("m", "s").unwrap_err(),
        ConversionError::ServiceNotFullyConfigured(
            "m".to_string(),
            "s".to_string(),
            "File hash cannot be empty, File hash must be 64 characters".to_string(),
        ),
    );
}

#[test]
fn smb_valid_hash_accepted() {
    let def = ServiceDefinition::Smb { environment: vec![smb_record(&"a".repeat(64))] };
    let envs = def.environments("m", "s").unwrap();
    assert_eq!(envs[0].properties.len(), 4);
    assert_eq!(envs[0].properties[3].name, "hash");
}

#[test]
fn smtp_recipient_must_hold_at_sign() {
    let def = ServiceDefinition::Smtp {
        environment: vec![SmtpCheckInfo {
            matching_content: "250".to_string(),
            touser: "bob".to_string(),
            subject: "hi".to_string(),
            body: "text".to_string(),
        }],
    };
    assert_eq!(
        def.environments("m", "s").unwrap_err(),
        ConversionError::ServiceNotFullyConfigured(
            "m".to_string(),
            "s".to_string(),
            "Email must contain an '@' symbol".to_string(),
        ),
    );
}

#[test]
fn smtp_only_recipient_becomes_a_property() {
    let def = ServiceDefinition::Smtp {
        environment: vec![SmtpCheckInfo {
            matching_content: "250".to_string(),
            touser: "bob@example.test".to_string(),
            subject: "hi".to_string(),
            body: "text".to_string(),
        }],
    };
    let envs = def.environments("m", "s").unwrap();
    assert_eq!(envs[0].properties.len(), 1);
    assert_eq!(envs[0].properties[0].name, "touser");
    assert_eq!(envs[0].properties[0].value, "bob@example.test");
}

#[test]
fn ftp_property_order_is_contents_then_path() {
    let def = ServiceDefinition::Ftp {
        environment: vec![FtpCheckInfo {
            matching_content: "ok".to_string(),
            remotefilepath: "/srv/f".to_string(),
            filecontents: "data".to_string(),
        }],
    };
    let envs = def.environments("m", "s").unwrap();
    assert_eq!(envs[0].properties[0].name, "filecontents");
    assert_eq!(envs[0].properties[1].name, "remotefilepath");
}

#[test]
fn nfs_property_order_is_path_then_contents() {
    let def = ServiceDefinition::Nfs {
        environment: vec![NfsCheckInfo {
            matching_content: "ok".to_string(),
            remotefilepath: "/srv/f".to_string(),
            filecontents: "data".to_string(),
        }],
    };
    let envs = def.environments("m", "s").unwrap();
    assert_eq!(envs[0].properties[0].name, "remotefilepath");
    assert_eq!(envs[0].properties[1].name, "filecontents");
}

#[test]
fn first_invalid_record_rejects_whole_service() {
    let def = ServiceDefinition::Dns {
        environment: vec![
            DnsCheckInfo {
                matching_content: "ok".to_string(),
                qtype: "A".to_string(),
                domain: "example.test".to_string(),
            },
            DnsCheckInfo {
                matching_content: "ok".to_string(),
                qtype: "".to_string(),
                domain: "example.test".to_string(),
            },
        ],
    };
    assert_eq!(
        def.environments("m", "s").unwrap_err(),
        ConversionError::ServiceNotFullyConfigured(
            "m".to_string(),
            "s".to_string(),
            "DNS query type cannot be empty".to_string(),
        ),
    );
}

#[test]
fn ssh_empty_matching_content_names_the_rule() {
    let def = ServiceDefinition::Ssh {
        environment: vec![RemoteCommandCheckInfo {
            matching_content: "".to_string(),
            commands: "uptime".to_string(),
        }],
    };
    assert_eq!(
        def.environments("m", "s").unwrap_err(),
        ConversionError::ServiceNotFullyConfigured(
            "m".to_string(),
            "s".to_string(),
            "Service match cannot be empty".to_string(),
        ),
    );
}

#[test]
fn winrm_valid_record_becomes_environment() {
    let def = ServiceDefinition::WinRm {
        environment: vec![RemoteCommandCheckInfo {
            matching_content: "ok".to_string(),
            commands: "hostname".to_string(),
        }],
    };
    let envs = def.environments("m", "s").unwrap();
    assert_eq!(envs.len(), 1);
    assert_eq!(envs[0].properties.len(), 1);
    assert_eq!(envs[0].properties[0].name, "commands");
    assert_eq!(envs[0].properties[0].value, "hostname");
}

#[test]
fn check_names_are_fixed_per_kind() {
    assert_eq!(ServiceDefinition::Dns { environment: vec![] }.check_name(), "DNSCheck");
    assert_eq!(ServiceDefinition::Docker { environment: vec![] }.check_name(), "DockerCheck");
    assert_eq!(ServiceDefinition::Https { environment: vec![] }.check_name(), "HTTPSCheck");
    assert_eq!(ServiceDefinition::Icmp { environment: None }.check_name(), "ICMPCheck");
    assert_eq!(ServiceDefinition::Mssql { environment: vec![] }.check_name(), "MSSQLCheck");
    assert_eq!(ServiceDefinition::Mysql { environment: vec![] }.check_name(), "MYSQLCheck");
    assert_eq!(
        ServiceDefinition::PostgreSql { environment: vec![] }.check_name(),
        "PostgreSQLCheck",
    );
    assert_eq!(ServiceDefinition::WinRm { environment: vec![] }.check_name(), "WinRMCheck");
    assert_eq!(ServiceDefinition::Wordpress { environment: vec![] }.check_name(), "WordpressCheck");
}

#[test]
fn user_validate_accepts_full_credentials() {
    let u = User { username: "bob".to_string(), password: "pw".to_string() };
    assert_eq!(u.clone().validate("team A".to_string()).unwrap(), u);
}

#[test]
fn user_validate_rejects_blank_password() {
    let u = User { username: "bob".to_string(), password: "".to_string() };
    assert_eq!(
        u.validate("team A".to_string()).unwrap_err(),
        ConversionError::EmptyUsernameOrPassword("team A".to_string(), "bob".to_string()),
    );
}

#[test]
fn user_validate_rejects_blank_username() {
    let u = User { username: "".to_string(), password: "pw".to_string() };
    assert_eq!(
        u.validate("team A".to_string()).unwrap_err(),
        ConversionError::EmptyUsernameOrPassword("team A".to_string(), "".to_string()),
    );
}
