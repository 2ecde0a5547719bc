//! Laws of the conversion pipeline, stated and proved over the spec-level
//! model: determinism, all-or-nothing environment derivation, and the
//! fail-closed behaviour of the duplicate-identifier, empty-membership and
//! cross-team username rules.

use vstd::prelude::*;

use crate::convert::{build_blue_spec, conversion_result, one_team_guard, scheme_checks};
use crate::model::{
    BlueTeamEditorView, ConfigurationEditorView, ConversionErrorView, DnsCheckInfoView,
    ElasticsearchCheckInfoView, FtpCheckInfoView, HttpCheckInfoView, ImapCheckInfoView,
    LdapCheckInfoView, MachineEditorView, NfsCheckInfoView, PopCheckInfoView,
    RedWhiteTeamEditorView, RemoteCommandCheckInfoView, ServiceDefinitionView, SmbCheckInfoView,
    SmtpCheckInfoView, SqlCheckInfoView, TeamConfigView, UserView, validate_users_spec,
};
use crate::services::{
    dns_check_record, elasticsearch_check_record, environments_of_records_spec,
    environments_spec, first_invalid_record, ftp_check_record, http_check_record,
    imap_check_record, ldap_check_record, nfs_check_record, pop_check_record,
    remote_command_check_record, smb_check_record, smtp_check_record, sql_check_record,
    CheckRecordView,
};
use crate::structural::{
    blue_duplicate_id_error, blue_ids_error, blue_names_with_id, blue_zero_id_error,
    build_red_white_spec, duplicate_username_error, machine_names_error,
    team_duplicate_username_error, team_has_username, team_name, team_users,
    teams_with_username,
};
use crate::text::team_context;

verus! {

/// Law: conversion is deterministic. The outcome is a function of the editor
/// document's value alone, so two conversions of value-equal documents yield
/// the same final document or the same error.
pub proof fn lemma_conversion_deterministic(c1: ConfigurationEditorView, c2: ConfigurationEditorView)
    requires
        c1 == c2,
    ensures
        conversion_result(c1) == conversion_result(c2),
{
}

/// The record scan from `i` on finds nothing exactly when every record from
/// `i` on is valid.
proof fn lemma_first_invalid_none(recs: Seq<CheckRecordView>, i: int)
    requires
        0 <= i,
    ensures
        first_invalid_record(recs, i) is None <==> (forall|k: int|
            i <= k < recs.len() ==> recs[k].violations.len() == 0),
    decreases recs.len() - i,
{
    if 0 <= i < recs.len() {
        lemma_first_invalid_none(recs, i + 1);
    }
}

/// Law: environment derivation is all-or-nothing. The derivation succeeds
/// exactly when every record passes its rules, and then emits one environment
/// per record; a single invalid record rejects the whole service and no
/// partial environment list exists.
pub proof fn lemma_environments_all_or_nothing(
    recs: Seq<CheckRecordView>,
    machine: Seq<char>,
    service: Seq<char>,
)
    ensures
        environments_of_records_spec(recs, machine, service) is Ok <==> (forall|k: int|
            0 <= k < recs.len() ==> recs[k].violations.len() == 0),
        environments_of_records_spec(recs, machine, service) matches Ok(envs) ==> envs.len()
            == recs.len(),
        environments_of_records_spec(recs, machine, service) matches Err(e) ==> e
            is ServiceNotFullyConfigured,
{
    lemma_first_invalid_none(recs, 0);
}

/// When two blue teams share an identifier, the duplicate scan from any
/// position at or before the first of them reports a violation carrying a
/// shared identifier and the names of all its claimants.
proof fn lemma_blue_duplicate_found(ts: Seq<BlueTeamEditorView>, k: int, i: int, j: int)
    requires
        0 <= k <= i,
        0 <= i < ts.len(),
        0 <= j < ts.len(),
        i != j,
        ts[i].id == ts[j].id,
    ensures
        blue_duplicate_id_error(ts, k) matches Some(e) && e matches
            ConversionErrorView::DuplicateBlueTeamIDs(d, names) && names == blue_names_with_id(
            ts,
            d,
            0,
        ) && (exists|a: int, b: int|
            0 <= a < ts.len() && 0 <= b < ts.len() && a != b && ts[a].id == d && ts[b].id == d),
    decreases i - k,
{
    if exists|l: int| 0 <= l < ts.len() && l != k && ts[l].id == ts[k].id {
        let l = choose|l: int| 0 <= l < ts.len() && l != k && ts[l].id == ts[k].id;
        assert(0 <= k < ts.len() && 0 <= l < ts.len() && k != l && ts[k].id == ts[k].id
            && ts[l].id == ts[k].id);
    } else {
        assert(k != i) by {
            if k == i {
                assert(0 <= j < ts.len() && j != k && ts[j].id == ts[k].id);
            }
        }
        lemma_blue_duplicate_found(ts, k + 1, i, j);
    }
}

/// Law: duplicated blue team identifiers fail closed. With two blue teams
/// sharing one non-zero identifier no final document is ever produced, and
/// when every earlier validation stage passes the reported violation is the
/// duplicate-identifier one, carrying a shared identifier and the names of
/// all blue teams claiming it, in document order.
pub proof fn lemma_duplicate_blue_ids_fail(c: ConfigurationEditorView, i: int, j: int)
    requires
        0 <= i < c.blue_teams.len(),
        0 <= j < c.blue_teams.len(),
        i != j,
        c.blue_teams[i].id == c.blue_teams[j].id,
        c.blue_teams[i].id != 0,
    ensures
        conversion_result(c) is Err,
        (build_red_white_spec(c.red_white_teams, 0) is Ok && one_team_guard(c) is None
            && scheme_checks(c) is None && machine_names_error(c.machines, 0) is None
            && blue_zero_id_error(c.blue_teams, 0) is None) ==> (conversion_result(c) matches Err(
            e,
        ) && e matches ConversionErrorView::DuplicateBlueTeamIDs(d, names) && names
            == blue_names_with_id(c.blue_teams, d, 0) && (exists|a: int, b: int|
            0 <= a < c.blue_teams.len() && 0 <= b < c.blue_teams.len() && a != b
                && c.blue_teams[a].id == d && c.blue_teams[b].id == d)),
{
    lemma_blue_duplicate_found(c.blue_teams, 0, i, j);
    assert(blue_ids_error(c.blue_teams) is Some);
}

/// A successful blue team build means every blue team from `k` on has at
/// least one user, all of whose credentials pass the rule.
proof fn lemma_build_blue_ok_members(
    ts: Seq<BlueTeamEditorView>,
    ms: Seq<MachineEditorView>,
    generator: crate::model::IpGeneratorScheme,
    state: Map<Seq<char>, Seq<char>>,
    k: int,
    i: int,
)
    requires
        build_blue_spec(ts, ms, generator, state, k) is Ok,
        0 <= k <= i,
        i < ts.len(),
    ensures
        ts[i].users.len() != 0,
        validate_users_spec(ts[i].users, team_context(ts[i].name), 0) is Ok,
    decreases i - k,
{
    if k < i {
        match crate::convert::team_services_spec(ms, generator, ts[k].id, state, 0) {
            Ok(p) => {
                lemma_build_blue_ok_members(ts, ms, generator, p.1, k + 1, i);
            },
            Err(e) => {},
        }
    }
}

/// Law: a blue team with no user fails closed. No final document is produced
/// from a document in which some blue team has an empty user list.
pub proof fn lemma_empty_blue_team_fails(c: ConfigurationEditorView, i: int)
    requires
        0 <= i < c.blue_teams.len(),
        c.blue_teams[i].users.len() == 0,
    ensures
        conversion_result(c) is Err,
{
    if conversion_result(c) is Ok {
        lemma_build_blue_ok_members(
            c.blue_teams,
            c.machines,
            c.ip_generator,
            Map::empty(),
            0,
            i,
        );
    }
}

/// The name collection from `k` on holds at least one entry when some team at
/// or past `k` holds the username.
proof fn lemma_teams_with_username_ge1(
    ts: Seq<TeamConfigView>,
    name: Seq<char>,
    k: int,
    i: int,
)
    requires
        0 <= k <= i,
        i < ts.len(),
        team_has_username(ts[i], name),
    ensures
        teams_with_username(ts, name, k).len() >= 1,
    decreases i - k,
{
    if k < i {
        lemma_teams_with_username_ge1(ts, name, k + 1, i);
    }
}

/// The name collection from `k` on holds at least two entries when two
/// distinct teams at or past `k` hold the username.
proof fn lemma_teams_with_username_ge2(
    ts: Seq<TeamConfigView>,
    name: Seq<char>,
    k: int,
    i: int,
    j: int,
)
    requires
        0 <= k <= i < j < ts.len(),
        team_has_username(ts[i], name),
        team_has_username(ts[j], name),
    ensures
        teams_with_username(ts, name, k).len() >= 2,
    decreases i - k,
{
    if k == i {
        lemma_teams_with_username_ge1(ts, name, k + 1, j);
    } else {
        lemma_teams_with_username_ge2(ts, name, k + 1, i, j);
    }
}

/// A clean per-team scan from `ui` on means no user from `ui` on carries a
/// username held by two teams.
proof fn lemma_team_scan_none(ts: Seq<TeamConfigView>, t: TeamConfigView, ui: int, u: int)
    requires
        team_duplicate_username_error(ts, t, ui) is None,
        0 <= ui <= u,
        u < team_users(t).len(),
    ensures
        teams_with_username(ts, team_users(t)[u].username, 0).len() <= 1,
    decreases u - ui,
{
    if ui < u {
        lemma_team_scan_none(ts, t, ui + 1, u);
    }
}

/// A violation reported by the per-team scan is always the cross-team
/// username one, carrying the username and the names of every team holding
/// it, in team order.
proof fn lemma_team_scan_variant(ts: Seq<TeamConfigView>, t: TeamConfigView, ui: int)
    ensures
        team_duplicate_username_error(ts, t, ui) matches Some(e) ==> (e matches
            ConversionErrorView::DuplicateUserNameForTeams(n, names) && names
            == teams_with_username(ts, n, 0) && names.len() > 1),
    decreases team_users(t).len() - ui,
{
    if 0 <= ui < team_users(t).len() {
        lemma_team_scan_variant(ts, t, ui + 1);
    }
}

/// When some team holds a username that two teams hold, the cross-team scan
/// from any position at or before that team reports a violation.
proof fn lemma_username_scan_some(ts: Seq<TeamConfigView>, name: Seq<char>, k: int, ti: int, u: int)
    requires
        0 <= k <= ti,
        ti < ts.len(),
        0 <= u < team_users(ts[ti]).len(),
        team_users(ts[ti])[u].username == name,
        teams_with_username(ts, name, 0).len() > 1,
    ensures
        duplicate_username_error(ts, k) matches Some(e) && e matches
            ConversionErrorView::DuplicateUserNameForTeams(n, names) && names
            == teams_with_username(ts, n, 0) && names.len() > 1,
    decreases ti - k,
{
    match team_duplicate_username_error(ts, ts[k], 0) {
        Some(e) => {
            lemma_team_scan_variant(ts, ts[k], 0);
        },
        None => {
            assert(k != ti) by {
                if k == ti {
                    lemma_team_scan_none(ts, ts[ti], 0, u);
                }
            }
            lemma_username_scan_some(ts, name, k + 1, ti, u);
        },
    }
}

/// Law: a username held by two different teams of the assembled team list is
/// always detected, and the reported violation is the cross-team username
/// one. A username repeated only inside one team's own list is not flagged by
/// this rule.
pub proof fn lemma_cross_team_username_detected(
    ts: Seq<TeamConfigView>,
    name: Seq<char>,
    ti: int,
    tj: int,
    ui: int,
)
    requires
        0 <= ti < tj < ts.len(),
        team_has_username(ts[tj], name),
        0 <= ui < team_users(ts[ti]).len(),
        team_users(ts[ti])[ui].username == name,
    ensures
        duplicate_username_error(ts, 0) matches Some(e) && e matches
            ConversionErrorView::DuplicateUserNameForTeams(n, names) && names
            == teams_with_username(ts, n, 0) && names.len() > 1,
{
    lemma_teams_with_username_ge2(ts, name, 0, ti, tj);
    lemma_username_scan_some(ts, name, 0, ti, ui);
}


/// A successful red and white build maps the drafts one to one: the team at
/// each position keeps its draft's name and users.
proof fn lemma_red_white_built(ts: Seq<RedWhiteTeamEditorView>, k: int, rw: Seq<TeamConfigView>)
    requires
        0 <= k <= ts.len(),
        build_red_white_spec(ts, k) == Ok::<Seq<TeamConfigView>, ConversionErrorView>(rw),
    ensures
        rw.len() == ts.len() - k,
        forall|l: int|
            0 <= l < rw.len() ==> team_users(#[trigger] rw[l]) == ts[k + l].users && team_name(
                rw[l],
            ) == ts[k + l].name,
    decreases ts.len() - k,
{
    if k < ts.len() {
        match crate::structural::rw_team_spec(ts[k]) {
            Ok(t) => match build_red_white_spec(ts, k + 1) {
                Ok(rest) => {
                    lemma_red_white_built(ts, k + 1, rest);
                    assert(rw == seq![t] + rest);
                    assert forall|l: int|
                        0 <= l < rw.len() implies team_users(#[trigger] rw[l]) == ts[k + l].users
                        && team_name(rw[l]) == ts[k + l].name by {
                        if l == 0 {
                            assert(rw[0] == t);
                        } else {
                            assert(rw[l] == rest[l - 1]);
                        }
                    }
                },
                Err(e) => {
                    assert(false);
                },
            },
            Err(e) => {
                assert(false);
            },
        }
    }
}

/// A successful blue build maps the drafts one to one: the team at each
/// position keeps its draft's name and users.
proof fn lemma_blue_built(
    ts: Seq<BlueTeamEditorView>,
    ms: Seq<MachineEditorView>,
    generator: crate::model::IpGeneratorScheme,
    state: Map<Seq<char>, Seq<char>>,
    k: int,
    blue: Seq<TeamConfigView>,
)
    requires
        0 <= k <= ts.len(),
        build_blue_spec(ts, ms, generator, state, k) matches Ok(p) && p.0 == blue,
    ensures
        blue.len() == ts.len() - k,
        forall|l: int|
            0 <= l < blue.len() ==> team_users(#[trigger] blue[l]) == ts[k + l].users && team_name(
                blue[l],
            ) == ts[k + l].name,
    decreases ts.len() - k,
{
    if k < ts.len() {
        match crate::convert::team_services_spec(ms, generator, ts[k].id, state, 0) {
            Ok(p) => match build_blue_spec(ts, ms, generator, p.1, k + 1) {
                Ok(q) => {
                    lemma_blue_built(ts, ms, generator, p.1, k + 1, q.0);
                    let built = TeamConfigView::Blue {
                        name: ts[k].name,
                        users: ts[k].users,
                        services: p.0,
                    };
                    assert(blue == seq![built] + q.0);
                    assert forall|l: int|
                        0 <= l < blue.len() implies team_users(#[trigger] blue[l]) == ts[k
                        + l].users && team_name(blue[l]) == ts[k + l].name by {
                        if l == 0 {
                            assert(blue[0] == built);
                        } else {
                            assert(blue[l] == q.0[l - 1]);
                        }
                    }
                },
                Err(e) => {
                    assert(false);
                },
            },
            Err(e) => {
                assert(false);
            },
        }
    }
}

/// The user list of the editor team at the given position, counting red and
/// white teams first and blue teams after them, as the final document does.
pub open spec fn editor_team_users(c: ConfigurationEditorView, t: int) -> Seq<UserView> {
    if t < c.red_white_teams.len() {
        c.red_white_teams[t].users
    } else {
        c.blue_teams[t - c.red_white_teams.len()].users
    }
}

/// Law: a username held by the user lists of two different teams of the
/// editor document, whatever their colours, fails closed: no final document
/// is produced.
pub proof fn lemma_cross_team_duplicate_username_fails(
    c: ConfigurationEditorView,
    name: Seq<char>,
    ti: int,
    tj: int,
)
    requires
        0 <= ti < tj < c.red_white_teams.len() + c.blue_teams.len(),
        exists|u: int|
            0 <= u < editor_team_users(c, ti).len() && editor_team_users(c, ti)[u].username
                == name,
        exists|u: int|
            0 <= u < editor_team_users(c, tj).len() && editor_team_users(c, tj)[u].username
                == name,
    ensures
        conversion_result(c) is Err,
{
    if conversion_result(c) is Ok {
        match build_red_white_spec(c.red_white_teams, 0) {
            Ok(rw) => {
                lemma_red_white_built(c.red_white_teams, 0, rw);
                match build_blue_spec(c.blue_teams, c.machines, c.ip_generator, Map::empty(), 0) {
                    Ok(p) => {
                        lemma_blue_built(
                            c.blue_teams,
                            c.machines,
                            c.ip_generator,
                            Map::empty(),
                            0,
                            p.0,
                        );
                        let teams = rw + p.0;
                        assert(team_users(teams[ti]) == editor_team_users(c, ti));
                        assert(team_users(teams[tj]) == editor_team_users(c, tj));
                        let ui = choose|u: int|
                            0 <= u < editor_team_users(c, ti).len() && editor_team_users(
                                c,
                                ti,
                            )[u].username == name;
                        assert(team_has_username(teams[tj], name));
                        lemma_cross_team_username_detected(teams, name, ti, tj, ui);
                    },
                    Err(e) => {},
                }
            },
            Err(e) => {},
        }
    }
}


/// Law: environment derivation rejects a service only as not fully
/// configured. Whatever the kind, the derivation either yields the service's
/// environments or reports the broken check-record rules; no other error
/// arises from it.
pub proof fn lemma_environments_error_kind(
    d: ServiceDefinitionView,
    machine: Seq<char>,
    service: Seq<char>,
)
    ensures
        environments_spec(d, machine, service) matches Err(e) ==> e is ServiceNotFullyConfigured,
{
    match d {
        ServiceDefinitionView::Dns { environment } => {
            lemma_environments_all_or_nothing(
                environment.map_values(|r: DnsCheckInfoView| dns_check_record(r)),
                machine,
                service,
            );
        },
        ServiceDefinitionView::Elasticsearch { environment } => {
            lemma_environments_all_or_nothing(
                environment.map_values(|r: ElasticsearchCheckInfoView| elasticsearch_check_record(r)),
                machine,
                service,
            );
        },
        ServiceDefinitionView::Ftp { environment } => {
            lemma_environments_all_or_nothing(
                environment.map_values(|r: FtpCheckInfoView| ftp_check_record(r)),
                machine,
                service,
            );
        },
        ServiceDefinitionView::Http { environment } => {
            lemma_environments_all_or_nothing(
                environment.map_values(|r: HttpCheckInfoView| http_check_record(r)),
                machine,
                service,
            );
        },
        ServiceDefinitionView::Https { environment } => {
            lemma_environments_all_or_nothing(
                environment.map_values(|r: HttpCheckInfoView| http_check_record(r)),
                machine,
                service,
            );
        },
        ServiceDefinitionView::Imap { environment } => {
            lemma_environments_all_or_nothing(
                environment.map_values(|r: ImapCheckInfoView| imap_check_record(r)),
                machine,
                service,
            );
        },
        ServiceDefinitionView::Imaps { environment } => {
            lemma_environments_all_or_nothing(
                environment.map_values(|r: ImapCheckInfoView| imap_check_record(r)),
                machine,
                service,
            );
        },
        ServiceDefinitionView::Ldap { environment } => {
            lemma_environments_all_or_nothing(
                environment.map_values(|r: LdapCheckInfoView| ldap_check_record(r)),
                machine,
                service,
            );
        },
        ServiceDefinitionView::Mssql { environment } => {
            lemma_environments_all_or_nothing(
                environment.map_values(|r: SqlCheckInfoView| sql_check_record(r)),
                machine,
                service,
            );
        },
        ServiceDefinitionView::Mysql { environment } => {
            lemma_environments_all_or_nothing(
                environment.map_values(|r: SqlCheckInfoView| sql_check_record(r)),
                machine,
                service,
            );
        },
        ServiceDefinitionView::Nfs { environment } => {
            lemma_environments_all_or_nothing(
                environment.map_values(|r: NfsCheckInfoView| nfs_check_record(r)),
                machine,
                service,
            );
        },
        ServiceDefinitionView::Pop3 { environment } => {
            lemma_environments_all_or_nothing(
                environment.map_values(|r: PopCheckInfoView| pop_check_record(r)),
                machine,
                service,
            );
        },
        ServiceDefinitionView::Pop3s { environment } => {
            lemma_environments_all_or_nothing(
                environment.map_values(|r: PopCheckInfoView| pop_check_record(r)),
                machine,
                service,
            );
        },
        ServiceDefinitionView::PostgreSql { environment } => {
            lemma_environments_all_or_nothing(
                environment.map_values(|r: SqlCheckInfoView| sql_check_record(r)),
                machine,
                service,
            );
        },
        ServiceDefinitionView::Smb { environment } => {
            lemma_environments_all_or_nothing(
                environment.map_values(|r: SmbCheckInfoView| smb_check_record(r)),
                machine,
                service,
            );
        },
        ServiceDefinitionView::Smtp { environment } => {
            lemma_environments_all_or_nothing(
                environment.map_values(|r: SmtpCheckInfoView| smtp_check_record(r)),
                machine,
                service,
            );
        },
        ServiceDefinitionView::Smtps { environment } => {
            lemma_environments_all_or_nothing(
                environment.map_values(|r: SmtpCheckInfoView| smtp_check_record(r)),
                machine,
                service,
            );
        },
        ServiceDefinitionView::Ssh { environment } => {
            lemma_environments_all_or_nothing(
                environment.map_values(|r: RemoteCommandCheckInfoView| remote_command_check_record(r)),
                machine,
                service,
            );
        },
        ServiceDefinitionView::WinRm { environment } => {
            lemma_environments_all_or_nothing(
                environment.map_values(|r: RemoteCommandCheckInfoView| remote_command_check_record(r)),
                machine,
                service,
            );
        },
        ServiceDefinitionView::Wordpress { environment } => {
            lemma_environments_all_or_nothing(
                environment.map_values(|r: HttpCheckInfoView| http_check_record(r)),
                machine,
                service,
            );
        },
        ServiceDefinitionView::Docker { .. } => {},
        ServiceDefinitionView::Icmp { .. } => {},
        ServiceDefinitionView::Rdp { .. } => {},
        ServiceDefinitionView::Vnc { .. } => {},
    }
}


/// Every user from `u` on passes the credential rule when the scan from `i`
/// on accepts the list.
proof fn lemma_users_validated(users: Seq<UserView>, place: Seq<char>, i: int, u: int)
    requires
        validate_users_spec(users, place, i) is Ok,
        0 <= i <= u,
        u < users.len(),
    ensures
        users[u].username.len() != 0,
        users[u].password.len() != 0,
    decreases u - i,
{
    if i < u {
        lemma_users_validated(users, place, i + 1, u);
    }
}

/// A successful red and white build means every draft from `k` on has
/// members whose credentials all pass the rule.
proof fn lemma_red_white_ok_credentials(ts: Seq<RedWhiteTeamEditorView>, k: int, t: int)
    requires
        build_red_white_spec(ts, k) is Ok,
        0 <= k <= t,
        t < ts.len(),
    ensures
        validate_users_spec(ts[t].users, team_context(ts[t].name), 0) is Ok,
    decreases t - k,
{
    if k < t {
        lemma_red_white_ok_credentials(ts, k + 1, t);
    }
}

/// Law: a blank credential on a top-level team member fails closed. No final
/// document is produced from a document in which some red, white or blue
/// team's member has an empty username or an empty password.
pub proof fn lemma_blank_credential_fails(c: ConfigurationEditorView, t: int, u: int)
    requires
        0 <= t < c.red_white_teams.len() + c.blue_teams.len(),
        0 <= u < editor_team_users(c, t).len(),
        editor_team_users(c, t)[u].username.len() == 0 || editor_team_users(c, t)[u].password.len()
            == 0,
    ensures
        conversion_result(c) is Err,
{
    if conversion_result(c) is Ok {
        if t < c.red_white_teams.len() {
            lemma_red_white_ok_credentials(c.red_white_teams, 0, t);
            lemma_users_validated(
                c.red_white_teams[t].users,
                team_context(c.red_white_teams[t].name),
                0,
                u,
            );
        } else {
            let b = t - c.red_white_teams.len();
            lemma_build_blue_ok_members(
                c.blue_teams,
                c.machines,
                c.ip_generator,
                Map::empty(),
                0,
                b,
            );
            lemma_users_validated(
                c.blue_teams[b].users,
                team_context(c.blue_teams[b].name),
                0,
                u,
            );
        }
    }
}

} // verus!
