//! Tests of the address resolver in isolation, with a fresh
//! collision-detection memory per scenario.

use scoring_config::model::{ConversionError, IpGeneratorScheme};
use scoring_config::resolver::{convert_id_to_ip, new_conversion_state, wrap_mult_offset_exec};

#[test]
fn one_team_same_machine_is_idempotent() {
    let mut state = new_conversion_state();
    let first = convert_id_to_ip(&mut state, "m1", "10.0.0.9", None, &IpGeneratorScheme::OneTeam, 1);
    let second =
        convert_id_to_ip(&mut state, "m1", "10.0.0.9", None, &IpGeneratorScheme::OneTeam, 2);
    assert_eq!(first.unwrap(), "10.0.0.9");
    assert_eq!(second.unwrap(), "10.0.0.9");
}

#[test]
fn one_team_other_machine_collides() {
    let mut state = new_conversion_state();
    convert_id_to_ip(&mut state, "m1", "10.0.0.9", None, &IpGeneratorScheme::OneTeam, 1).unwrap();
    assert_eq!(
        convert_id_to_ip(&mut state, "m2", "10.0.0.9", None, &IpGeneratorScheme::OneTeam, 1)
            .unwrap_err(),
        ConversionError::DuplicateIPs("10.0.0.9".to_string(), "m2".to_string(), "m1".to_string()),
    );
}

#[test]
fn replace_scheme_substitutes_both_cases() {
    let mut state = new_conversion_state();
    let host =
        convert_id_to_ip(&mut state, "m1", "192.x.0.X", None, &IpGeneratorScheme::ReplaceXWithId, 7)
            .unwrap();
    assert_eq!(host, "192.7.0.7");
}

#[test]
fn replace_scheme_collision_on_resolved_value() {
    let mut state = new_conversion_state();
    convert_id_to_ip(&mut state, "m1", "10.0.0.x", None, &IpGeneratorScheme::ReplaceXWithId, 1)
        .unwrap();
    assert_eq!(
        convert_id_to_ip(&mut state, "m2", "10.0.0.X", None, &IpGeneratorScheme::ReplaceXWithId, 1)
            .unwrap_err(),
        ConversionError::DuplicateIPs("10.0.0.1".to_string(), "m2".to_string(), "m1".to_string()),
    );
}

#[test]
fn replace_scheme_distinct_ids_do_not_collide() {
    let mut state = new_conversion_state();
    convert_id_to_ip(&mut state, "m1", "10.0.0.x", None, &IpGeneratorScheme::ReplaceXWithId, 1)
        .unwrap();
    let host =
        convert_id_to_ip(&mut state, "m1", "10.0.0.x", None, &IpGeneratorScheme::ReplaceXWithId, 2)
            .unwrap();
    assert_eq!(host, "10.0.0.2");
}

#[test]
fn multiplier_scheme_requires_offset() {
    let mut state = new_conversion_state();
    assert_eq!(
        convert_id_to_ip(
            &mut state,
            "m1",
            "10.0.0.X",
            None,
            &IpGeneratorScheme::ReplaceXWithIdTimesMultiplierPlusOffset { multiplier: 10 },
            1,
        )
        .unwrap_err(),
        ConversionError::OffsetNotSpecified("m1".to_string()),
    );
}

#[test]
fn multiplier_scheme_computes_offset_address() {
    let mut state = new_conversion_state();
    let host = convert_id_to_ip(
        &mut state,
        "m1",
        "10.0.0.X",
        Some(5),
        &IpGeneratorScheme::ReplaceXWithIdTimesMultiplierPlusOffset { multiplier: 10 },
        2,
    )
    .unwrap();
    assert_eq!(host, "10.0.0.25");
}

#[test]
fn multiplier_scheme_requires_placeholder() {
    let mut state = new_conversion_state();
    assert_eq!(
        convert_id_to_ip(
            &mut state,
            "m1",
            "10.0.0.9",
            Some(5),
            &IpGeneratorScheme::ReplaceXWithIdTimesMultiplierPlusOffset { multiplier: 10 },
            2,
        )
        .unwrap_err(),
        ConversionError::NoXInTemplateIP("m1".to_string()),
    );
}

#[test]
fn wrap_mult_offset_wraps_at_two_hundred_fifty_six() {
    assert_eq!(wrap_mult_offset_exec(10, 2, 5), 25);
    assert_eq!(wrap_mult_offset_exec(100, 3, 5), 49);
    assert_eq!(wrap_mult_offset_exec(255, 255, 255), (255u32 * 255 + 255 & 0xff) as u8);
}
