//! The top-level converter: one linear pass that validates the editor
//! document, resolves every blue team's services, and assembles the final
//! document, aborting on the first violation.
//!
//! The whole pass is modelled by [`conversion_result`], a function from the
//! editor document's mathematical value to the final document's value or the
//! error; [`convert_editor_to_final`] is proved to return exactly that.

use vstd::hash_map::StringHashMap;
use vstd::prelude::*;

use crate::model::{
    BlueTeamEditor, BlueTeamEditorView, ConfigurationEditor, ConfigurationEditorView,
    ConversionError, ConversionErrorView, FinalConfiguration, FinalConfigurationView,
    IpGeneratorScheme, MachineEditor, MachineEditorView, ServiceConfig, ServiceConfigView,
    ServiceEditor, ServiceEditorView, TeamConfig, TeamConfigView, User, UserView, dup_users,
    validate_user_spec, validate_users_spec,
};
use crate::resolver::{convert_id_to_ip, ips_view, resolve_ip_spec};
use crate::services::{check_name_spec, environments_spec};
use crate::structural::{
    blue_ids_error, build_red_white, build_red_white_spec, check_blue_team_ids,
    check_machine_names, check_offsets, check_service_names, check_team_users, check_usernames,
    duplicate_username_error, machine_names_error, offsets_error, service_names_error,
};
use crate::text::{
    build_hyphen_join3, build_service_context, hyphen_join3, service_context, team_context,
};

verus! {

/// What validating a service's optional dedicated accounts yields: the
/// accounts unchanged, or the first blank credential, recorded against the
/// machine and service.
pub open spec fn accounts_spec(
    accounts: Option<Seq<UserView>>,
    machine: Seq<char>,
    service: Seq<char>,
) -> Result<Option<Seq<UserView>>, ConversionErrorView> {
    match accounts {
        None => Ok(None),
        Some(users) => match validate_users_spec(users, service_context(machine, service), 0) {
            Err(e) => Err(e),
            Ok(us) => Ok(Some(us)),
        },
    }
}

/// Validates a service's optional dedicated accounts.
fn validate_accounts(accounts: &Option<Vec<User>>, machine: &str, service: &str) -> (r: Result<
    Option<Vec<User>>,
    ConversionError,
>)
    ensures
        accounts_spec(accounts.deep_view(), machine@, service@) matches Ok(a) ==> (r matches Ok(v)
            && v.deep_view() == a),
        accounts_spec(accounts.deep_view(), machine@, service@) matches Err(e) ==> (r matches Err(
            er,
        ) && er.deep_view() == e),
{
    let users = match accounts {
        Some(users) => users,
        None => {
            return Ok(None);
        },
    };
    let ghost usersv = users.deep_view();
    let ghost place = service_context(machine@, service@);
    let mut out: Vec<User> = Vec::new();
    let mut i: usize = 0;
    proof {
        if let Ok(rest) = validate_users_spec(usersv, place, 0) {
            assert(out.deep_view() + rest =~= rest);
        }
    }
    while i < users.len()
        invariant
            i <= users.len(),
            usersv == users.deep_view(),
            accounts.deep_view() == Some(usersv),
            place == service_context(machine@, service@),
            validate_users_spec(usersv, place, i as int) matches Ok(rest) ==> validate_users_spec(
                usersv,
                place,
                0,
            ) == Ok::<Seq<UserView>, ConversionErrorView>(out.deep_view() + rest),
            validate_users_spec(usersv, place, i as int) matches Err(e) ==> validate_users_spec(
                usersv,
                place,
                0,
            ) == Err::<Seq<UserView>, ConversionErrorView>(e),
        decreases users.len() - i,
    {
        let ctx = build_service_context(machine, service);
        let user = match users[i].duplicate().validate(ctx) {
            Ok(user) => user,
            Err(e) => {
                return Err(e);
            },
        };
        let ghost prev = out.deep_view();
        let ghost userv = user.deep_view();
        out.push(user);
        proof {
            assert(out.deep_view() =~= prev + seq![userv]);
            assert(validate_user_spec(usersv[i as int], place) == Ok::<UserView,
                ConversionErrorView>(userv));
            if let Ok(rest) = validate_users_spec(usersv, place, i + 1 as int) {
                assert(prev + (seq![userv] + rest) =~= (prev + seq![userv]) + rest);
            }
        }
        i += 1;
    }
    proof {
        assert(validate_users_spec(usersv, place, i as int) == Ok::<Seq<UserView>,
            ConversionErrorView>(Seq::empty()));
        assert(out.deep_view() + Seq::<UserView>::empty() =~= out.deep_view());
    }
    Ok(Some(out))
}

/// What resolving and assembling one service of one machine for one blue team
/// yields: the resolved service and the collision-detection memory afterwards,
/// or the first violation (the resolver's, then a blank account credential,
/// then a check-record rule).
pub open spec fn service_config_spec(
    m: MachineEditorView,
    s: ServiceEditorView,
    generator: IpGeneratorScheme,
    id: u8,
    state: Map<Seq<char>, Seq<char>>,
) -> Result<(ServiceConfigView, Map<Seq<char>, Seq<char>>), ConversionErrorView> {
    let resolved = resolve_ip_spec(state, m.name, m.ip_template, m.ip_offset, generator, id);
    match resolved.0 {
        Err(e) => Err(e),
        Ok(host) => match accounts_spec(s.accounts, m.name, s.name) {
            Err(e) => Err(e),
            Ok(accounts) => match environments_spec(s.definition, m.name, s.name) {
                Err(e) => Err(e),
                Ok(environments) => Ok(
                    (
                        ServiceConfigView {
                            name: hyphen_join3(m.name, check_name_spec(s.definition), s.name),
                            check_name: check_name_spec(s.definition),
                            host: host,
                            port: s.port,
                            points: s.points,
                            accounts: accounts,
                            environments: environments,
                        },
                        resolved.1,
                    ),
                ),
            },
        },
    }
}

/// Resolves and assembles one service of one machine for one blue team.
fn build_service_config(
    used_ips: &mut StringHashMap<String>,
    machine: &MachineEditor,
    service: &ServiceEditor,
    generator: &IpGeneratorScheme,
    id: u8,
) -> (r: Result<ServiceConfig, ConversionError>)
    ensures
        service_config_spec(
            machine.deep_view(),
            service.deep_view(),
            *generator,
            id,
            ips_view(*old(used_ips)),
        ) matches Ok(p) ==> (r matches Ok(sc) && sc.deep_view() == p.0 && ips_view(
            *final(used_ips),
        ) == p.1),
        service_config_spec(
            machine.deep_view(),
            service.deep_view(),
            *generator,
            id,
            ips_view(*old(used_ips)),
        ) matches Err(e) ==> (r matches Err(er) && er.deep_view() == e),
{
    let check_name = service.definition.check_name();
    let name = build_hyphen_join3(machine.name.as_str(), check_name, service.name.as_str());
    let host = match convert_id_to_ip(
        used_ips,
        machine.name.as_str(),
        machine.ip_template.as_str(),
        machine.ip_offset,
        generator,
        id,
    ) {
        Ok(host) => host,
        Err(e) => {
            return Err(e);
        },
    };
    let accounts = match validate_accounts(
        &service.accounts,
        machine.name.as_str(),
        service.name.as_str(),
    ) {
        Ok(accounts) => accounts,
        Err(e) => {
            return Err(e);
        },
    };
    let environments = match service.definition.environments(
        machine.name.as_str(),
        service.name.as_str(),
    ) {
        Ok(environments) => environments,
        Err(e) => {
            return Err(e);
        },
    };
    Ok(
        ServiceConfig {
            name,
            check_name: check_name.to_owned(),
            host,
            port: service.port,
            points: service.points,
            accounts,
            environments,
        },
    )
}


/// What resolving every service of one machine for one blue team yields, from
/// service `i` on: the resolved services in order and the collision-detection
/// memory afterwards, or the first violation.
pub open spec fn machine_services_from(
    m: MachineEditorView,
    generator: IpGeneratorScheme,
    id: u8,
    state: Map<Seq<char>, Seq<char>>,
    i: int,
) -> Result<(Seq<ServiceConfigView>, Map<Seq<char>, Seq<char>>), ConversionErrorView>
    decreases m.services.len() - i,
{
    if i < 0 || i >= m.services.len() {
        Ok((Seq::empty(), state))
    } else {
        match service_config_spec(m, m.services[i], generator, id, state) {
            Err(e) => Err(e),
            Ok(p) => match machine_services_from(m, generator, id, p.1, i + 1) {
                Err(e) => Err(e),
                Ok(q) => Ok((seq![p.0] + q.0, q.1)),
            },
        }
    }
}

/// What processing one machine for one blue team yields: the service-name
/// rules first, then every service resolved in order.
pub open spec fn machine_services_spec(
    m: MachineEditorView,
    generator: IpGeneratorScheme,
    id: u8,
    state: Map<Seq<char>, Seq<char>>,
) -> Result<(Seq<ServiceConfigView>, Map<Seq<char>, Seq<char>>), ConversionErrorView> {
    match service_names_error(m, 0) {
        Some(e) => Err(e),
        None => machine_services_from(m, generator, id, state, 0),
    }
}

/// Processes one machine for one blue team: checks its service names, then
/// resolves and assembles each of its services in order.
fn machine_services(
    used_ips: &mut StringHashMap<String>,
    machine: &MachineEditor,
    generator: &IpGeneratorScheme,
    id: u8,
) -> (r: Result<Vec<ServiceConfig>, ConversionError>)
    ensures
        machine_services_spec(
            machine.deep_view(),
            *generator,
            id,
            ips_view(*old(used_ips)),
        ) matches Ok(p) ==> (r matches Ok(v) && v.deep_view() == p.0 && ips_view(*final(used_ips))
            == p.1),
        machine_services_spec(
            machine.deep_view(),
            *generator,
            id,
            ips_view(*old(used_ips)),
        ) matches Err(e) ==> (r matches Err(er) && er.deep_view() == e),
{
    let ghost state0 = ips_view(*used_ips);
    let ghost mv = machine.deep_view();
    match check_service_names(machine) {
        Ok(()) => {},
        Err(e) => {
            return Err(e);
        },
    }
    let mut out: Vec<ServiceConfig> = Vec::new();
    let mut i: usize = 0;
    proof {
        if let Ok(p) = machine_services_from(mv, *generator, id, state0, 0) {
            assert(out.deep_view() + p.0 =~= p.0);
        }
    }
    while i < machine.services.len()
        invariant
            i <= machine.services.len(),
            mv == machine.deep_view(),
            state0 == ips_view(*old(used_ips)),
            service_names_error(mv, 0) is None,
            machine_services_from(mv, *generator, id, ips_view(*used_ips), i as int) matches Ok(p)
                ==> machine_services_from(mv, *generator, id, state0, 0) == Ok::<
                (Seq<ServiceConfigView>, Map<Seq<char>, Seq<char>>),
                ConversionErrorView,
            >((out.deep_view() + p.0, p.1)),
            machine_services_from(mv, *generator, id, ips_view(*used_ips), i as int) matches Err(e)
                ==> machine_services_from(mv, *generator, id, state0, 0) == Err::<
                (Seq<ServiceConfigView>, Map<Seq<char>, Seq<char>>),
                ConversionErrorView,
            >(e),
        decreases machine.services.len() - i,
    {
        let ghost pre = ips_view(*used_ips);
        let sc = match build_service_config(used_ips, machine, &machine.services[i], generator, id) {
            Ok(sc) => sc,
            Err(e) => {
                return Err(e);
            },
        };
        let ghost scv = sc.deep_view();
        let ghost prev = out.deep_view();
        out.push(sc);
        proof {
            assert(mv.services[i as int] == machine.services@[i as int].deep_view());
            assert(service_config_spec(mv, mv.services[i as int], *generator, id, pre) matches Ok(
                p,
            ) && p.0 == scv && p.1 == ips_view(*used_ips));
            assert(out.deep_view() =~= prev + seq![scv]);
            if let Ok(q) = machine_services_from(mv, *generator, id, ips_view(*used_ips), i + 1) {
                assert(prev + (seq![scv] + q.0) =~= (prev + seq![scv]) + q.0);
            }
        }
        i += 1;
    }
    proof {
        assert(machine_services_from(mv, *generator, id, ips_view(*used_ips), i as int) == Ok::<
            (Seq<ServiceConfigView>, Map<Seq<char>, Seq<char>>),
            ConversionErrorView,
        >((Seq::empty(), ips_view(*used_ips))));
        assert(out.deep_view() + Seq::<ServiceConfigView>::empty() =~= out.deep_view());
    }
    Ok(out)
}

/// What resolving every machine's services for one blue team yields, from
/// machine `i` on: the services of all machines concatenated in machine
/// order, and the collision-detection memory afterwards, or the first
/// violation.
pub open spec fn team_services_spec(
    ms: Seq<MachineEditorView>,
    generator: IpGeneratorScheme,
    id: u8,
    state: Map<Seq<char>, Seq<char>>,
    i: int,
) -> Result<(Seq<ServiceConfigView>, Map<Seq<char>, Seq<char>>), ConversionErrorView>
    decreases ms.len() - i,
{
    if i < 0 || i >= ms.len() {
        Ok((Seq::empty(), state))
    } else {
        match machine_services_spec(ms[i], generator, id, state) {
            Err(e) => Err(e),
            Ok(p) => match team_services_spec(ms, generator, id, p.1, i + 1) {
                Err(e) => Err(e),
                Ok(q) => Ok((p.0 + q.0, q.1)),
            },
        }
    }
}

/// Generates one blue team's full service list: every machine in document
/// order, every service of each machine in order, all sharing one
/// collision-detection memory.
#[verifier::rlimit(30)]
pub fn services_generator(
    conversion_state: &mut StringHashMap<String>,
    config: &ConfigurationEditor,
    team: &BlueTeamEditor,
) -> (r: Result<Vec<ServiceConfig>, ConversionError>)
    ensures
        team_services_spec(
            config.machines.deep_view(),
            config.ip_generator,
            team.id,
            ips_view(*old(conversion_state)),
            0,
        ) matches Ok(p) ==> (r matches Ok(v) && v.deep_view() == p.0 && ips_view(
            *final(conversion_state),
        ) == p.1),
        team_services_spec(
            config.machines.deep_view(),
            config.ip_generator,
            team.id,
            ips_view(*old(conversion_state)),
            0,
        ) matches Err(e) ==> (r matches Err(er) && er.deep_view() == e),
{
    let ghost state0 = ips_view(*conversion_state);
    let ghost msv = config.machines.deep_view();
    let ghost gen = config.ip_generator;
    let mut out: Vec<ServiceConfig> = Vec::new();
    let mut i: usize = 0;
    proof {
        if let Ok(p) = team_services_spec(msv, gen, team.id, state0, 0) {
            assert(out.deep_view() + p.0 =~= p.0);
        }
    }
    while i < config.machines.len()
        invariant
            i <= config.machines.len(),
            msv == config.machines.deep_view(),
            gen == config.ip_generator,
            state0 == ips_view(*old(conversion_state)),
            team_services_spec(msv, gen, team.id, ips_view(*conversion_state), i as int) matches
                Ok(p) ==> team_services_spec(msv, gen, team.id, state0, 0) == Ok::<
                (Seq<ServiceConfigView>, Map<Seq<char>, Seq<char>>),
                ConversionErrorView,
            >((out.deep_view() + p.0, p.1)),
            team_services_spec(msv, gen, team.id, ips_view(*conversion_state), i as int) matches
                Err(e) ==> team_services_spec(msv, gen, team.id, state0, 0) == Err::<
                (Seq<ServiceConfigView>, Map<Seq<char>, Seq<char>>),
                ConversionErrorView,
            >(e),
        decreases config.machines.len() - i,
    {
        let ghost pre = ips_view(*conversion_state);
        let mut svcs = match machine_services(
            conversion_state,
            &config.machines[i],
            &config.ip_generator,
            team.id,
        ) {
            Ok(svcs) => svcs,
            Err(e) => {
                return Err(e);
            },
        };
        let ghost svcsv = svcs.deep_view();
        let ghost prev = out.deep_view();
        out.append(&mut svcs);
        proof {
            assert(msv[i as int] == config.machines@[i as int].deep_view());
            assert(machine_services_spec(msv[i as int], gen, team.id, pre) matches Ok(p) && p.0
                == svcsv && p.1 == ips_view(*conversion_state));
            assert(out.deep_view() =~= prev + svcsv);
            if let Ok(q) = team_services_spec(msv, gen, team.id, ips_view(*conversion_state), i + 1) {
                assert(prev + (svcsv + q.0) =~= (prev + svcsv) + q.0);
            }
        }
        i += 1;
    }
    proof {
        assert(team_services_spec(msv, gen, team.id, ips_view(*conversion_state), i as int)
            == Ok::<(Seq<ServiceConfigView>, Map<Seq<char>, Seq<char>>), ConversionErrorView>(
            (Seq::empty(), ips_view(*conversion_state)),
        ));
        assert(out.deep_view() + Seq::<ServiceConfigView>::empty() =~= out.deep_view());
    }
    Ok(out)
}


/// What validating and resolving every blue team yields, from `i` on: the
/// blue teams with their resolved services, in document order, and the
/// collision-detection memory afterwards, or the first violation (an empty
/// name, an empty user list, a member with a blank credential, then the
/// services).
pub open spec fn build_blue_spec(
    ts: Seq<BlueTeamEditorView>,
    ms: Seq<MachineEditorView>,
    generator: IpGeneratorScheme,
    state: Map<Seq<char>, Seq<char>>,
    i: int,
) -> Result<(Seq<TeamConfigView>, Map<Seq<char>, Seq<char>>), ConversionErrorView>
    decreases ts.len() - i,
{
    if i < 0 || i >= ts.len() {
        Ok((Seq::empty(), state))
    } else if ts[i].name.len() == 0 {
        Err(ConversionErrorView::TeamHasEmptyName)
    } else if ts[i].users.len() == 0 {
        Err(ConversionErrorView::TeamNeedsUser(ts[i].name))
    } else if validate_users_spec(ts[i].users, team_context(ts[i].name), 0) is Err {
        Err(validate_users_spec(ts[i].users, team_context(ts[i].name), 0)->Err_0)
    } else {
        match team_services_spec(ms, generator, ts[i].id, state, 0) {
            Err(e) => Err(e),
            Ok(p) => match build_blue_spec(ts, ms, generator, p.1, i + 1) {
                Err(e) => Err(e),
                Ok(q) => Ok(
                    (
                        seq![
                            TeamConfigView::Blue {
                                name: ts[i].name,
                                users: ts[i].users,
                                services: p.0,
                            },
                        ] + q.0,
                        q.1,
                    ),
                ),
            },
        }
    }
}

/// Validates every blue team and generates its services, threading one
/// collision-detection memory through all of them.
#[verifier::rlimit(30)]
fn build_blue_teams(
    conversion_state: &mut StringHashMap<String>,
    config: &ConfigurationEditor,
) -> (r: Result<Vec<TeamConfig>, ConversionError>)
    ensures
        build_blue_spec(
            config.blue_teams.deep_view(),
            config.machines.deep_view(),
            config.ip_generator,
            ips_view(*old(conversion_state)),
            0,
        ) matches Ok(p) ==> (r matches Ok(v) && v.deep_view() == p.0 && ips_view(
            *final(conversion_state),
        ) == p.1),
        build_blue_spec(
            config.blue_teams.deep_view(),
            config.machines.deep_view(),
            config.ip_generator,
            ips_view(*old(conversion_state)),
            0,
        ) matches Err(e) ==> (r matches Err(er) && er.deep_view() == e),
{
    let ghost state0 = ips_view(*conversion_state);
    let ghost tsv = config.blue_teams.deep_view();
    let ghost msv = config.machines.deep_view();
    let ghost gen = config.ip_generator;
    let mut out: Vec<TeamConfig> = Vec::new();
    let mut i: usize = 0;
    proof {
        if let Ok(p) = build_blue_spec(tsv, msv, gen, state0, 0) {
            assert(out.deep_view() + p.0 =~= p.0);
        }
    }
    while i < config.blue_teams.len()
        invariant
            i <= config.blue_teams.len(),
            tsv == config.blue_teams.deep_view(),
            msv == config.machines.deep_view(),
            gen == config.ip_generator,
            state0 == ips_view(*old(conversion_state)),
            build_blue_spec(tsv, msv, gen, ips_view(*conversion_state), i as int) matches Ok(p)
                ==> build_blue_spec(tsv, msv, gen, state0, 0) == Ok::<
                (Seq<TeamConfigView>, Map<Seq<char>, Seq<char>>),
                ConversionErrorView,
            >((out.deep_view() + p.0, p.1)),
            build_blue_spec(tsv, msv, gen, ips_view(*conversion_state), i as int) matches Err(e)
                ==> build_blue_spec(tsv, msv, gen, state0, 0) == Err::<
                (Seq<TeamConfigView>, Map<Seq<char>, Seq<char>>),
                ConversionErrorView,
            >(e),
        decreases config.blue_teams.len() - i,
    {
        let team = &config.blue_teams[i];
        if team.name.as_str().is_empty() {
            return Err(ConversionError::TeamHasEmptyName);
        }
        if team.users.len() == 0 {
            return Err(ConversionError::TeamNeedsUser(team.name.clone()));
        }
        match check_team_users(&team.users, team.name.as_str()) {
            Ok(()) => {},
            Err(e) => {
                return Err(e);
            },
        }
        let ghost pre = ips_view(*conversion_state);
        let services = match services_generator(conversion_state, config, team) {
            Ok(services) => services,
            Err(e) => {
                return Err(e);
            },
        };
        let built = TeamConfig::Blue {
            name: team.name.clone(),
            users: dup_users(&team.users),
            services,
        };
        let ghost builtv = built.deep_view();
        let ghost prev = out.deep_view();
        out.push(built);
        proof {
            assert(tsv[i as int] == config.blue_teams@[i as int].deep_view());
            assert(team_services_spec(msv, gen, tsv[i as int].id, pre, 0) matches Ok(p) && builtv
                == (TeamConfigView::Blue {
                name: tsv[i as int].name,
                users: tsv[i as int].users,
                services: p.0,
            }) && p.1 == ips_view(*conversion_state));
            assert(out.deep_view() =~= prev + seq![builtv]);
            if let Ok(q) = build_blue_spec(tsv, msv, gen, ips_view(*conversion_state), i + 1) {
                assert(prev + (seq![builtv] + q.0) =~= (prev + seq![builtv]) + q.0);
            }
        }
        i += 1;
    }
    proof {
        assert(build_blue_spec(tsv, msv, gen, ips_view(*conversion_state), i as int) == Ok::<
            (Seq<TeamConfigView>, Map<Seq<char>, Seq<char>>),
            ConversionErrorView,
        >((Seq::empty(), ips_view(*conversion_state))));
        assert(out.deep_view() + Seq::<TeamConfigView>::empty() =~= out.deep_view());
    }
    Ok(out)
}

/// The guard that the one-team scheme admits at most one blue team.
pub open spec fn one_team_guard(c: ConfigurationEditorView) -> Option<ConversionErrorView> {
    if c.ip_generator is OneTeam && c.blue_teams.len() > 1 {
        Some(ConversionErrorView::OneTeamConfigurationWithMultipleTeams)
    } else {
        None
    }
}

/// The multiplier scheme's batch validations: the multiplier must cover the
/// machine count, every machine must declare an offset, and no two machines
/// may share one. The other schemes need none of this.
pub open spec fn scheme_checks(c: ConfigurationEditorView) -> Option<ConversionErrorView> {
    match c.ip_generator {
        IpGeneratorScheme::ReplaceXWithIdTimesMultiplierPlusOffset { multiplier } => {
            if (multiplier as int) < c.machines.len() {
                Some(ConversionErrorView::MultNotBigEnough(c.machines.len() as u8, multiplier))
            } else {
                offsets_error(c.machines)
            }
        },
        _ => None,
    }
}

/// What converting an editor document yields: the fully resolved final
/// document, or the first violation in the pipeline's fixed order (red and
/// white teams with their members' credentials; the one-team guard; the
/// multiplier scheme's batch checks; machine names; blue team identifiers;
/// each blue team's name, membership, member credentials and services; and
/// last the cross-team username rule over the assembled team list).
pub open spec fn conversion_result(c: ConfigurationEditorView) -> Result<
    FinalConfigurationView,
    ConversionErrorView,
> {
    match build_red_white_spec(c.red_white_teams, 0) {
        Err(e) => Err(e),
        Ok(red_white) => match one_team_guard(c) {
            Some(e) => Err(e),
            None => match scheme_checks(c) {
                Some(e) => Err(e),
                None => match machine_names_error(c.machines, 0) {
                    Some(e) => Err(e),
                    None => match blue_ids_error(c.blue_teams) {
                        Some(e) => Err(e),
                        None => match build_blue_spec(
                            c.blue_teams,
                            c.machines,
                            c.ip_generator,
                            Map::empty(),
                            0,
                        ) {
                            Err(e) => Err(e),
                            Ok(p) => match duplicate_username_error(red_white + p.0, 0) {
                                Some(e) => Err(e),
                                None => Ok(FinalConfigurationView { teams: red_white + p.0 }),
                            },
                        },
                    },
                },
            },
        },
    }
}

/// Converts the editor document into the final document, or reports the first
/// violation. The input is left untouched; the returned editor document is an
/// equal copy of it.
#[verifier::rlimit(30)]
pub fn convert_editor_to_final(config: &ConfigurationEditor) -> (r: Result<
    (FinalConfiguration, ConfigurationEditor),
    ConversionError,
>)
    requires
        config.ip_generator matches IpGeneratorScheme::ReplaceXWithIdTimesMultiplierPlusOffset {
            ..
        } ==> config.machines@.len() <= u8::MAX,
    ensures
        r is Ok <==> conversion_result(config.deep_view()) is Ok,
        r matches Ok(p) ==> conversion_result(config.deep_view()) == Ok::<
            FinalConfigurationView,
            ConversionErrorView,
        >(p.0.deep_view()) && p.1.deep_view() == config.deep_view(),
        r matches Err(e) ==> conversion_result(config.deep_view()) == Err::<
            FinalConfigurationView,
            ConversionErrorView,
        >(e.deep_view()),
{
    let ghost cv = config.deep_view();
    let red_white = match build_red_white(&config.red_white_teams) {
        Ok(red_white) => red_white,
        Err(e) => {
            return Err(e);
        },
    };
    match &config.ip_generator {
        IpGeneratorScheme::OneTeam => {
            if config.blue_teams.len() > 1 {
                return Err(ConversionError::OneTeamConfigurationWithMultipleTeams);
            }
        },
        _ => {},
    }
    match &config.ip_generator {
        IpGeneratorScheme::ReplaceXWithIdTimesMultiplierPlusOffset { multiplier } => {
            let mcount = config.machines.len() as u8;
            if *multiplier < mcount {
                return Err(ConversionError::MultNotBigEnough(mcount, *multiplier));
            }
            match check_offsets(&config.machines) {
                Ok(()) => {},
                Err(e) => {
                    return Err(e);
                },
            }
        },
        _ => {},
    }
    assert(scheme_checks(cv) is None);
    match check_machine_names(&config.machines) {
        Ok(()) => {},
        Err(e) => {
            return Err(e);
        },
    }
    match check_blue_team_ids(&config.blue_teams) {
        Ok(()) => {},
        Err(e) => {
            return Err(e);
        },
    }
    let mut conversion_state: StringHashMap<String> = StringHashMap::new();
    proof {
        assert(ips_view(conversion_state) =~= Map::<Seq<char>, Seq<char>>::empty());
    }
    let mut blue = match build_blue_teams(&mut conversion_state, config) {
        Ok(blue) => blue,
        Err(e) => {
            return Err(e);
        },
    };
    let ghost rwv = red_white.deep_view();
    let ghost bluev = blue.deep_view();
    let mut teams = red_white;
    teams.append(&mut blue);
    proof {
        assert forall|j: int| 0 <= j < teams@.len() implies teams.deep_view()[j] == (rwv
            + bluev)[j] by {
            assert(teams.deep_view()[j] == teams@[j].deep_view());
            if j < rwv.len() {
                assert(teams@[j].deep_view() == rwv[j]);
            } else {
                assert(teams@[j].deep_view() == bluev[j - rwv.len()]);
            }
        }
        assert(teams.deep_view() =~= rwv + bluev);
    }
    match check_usernames(&teams) {
        Ok(()) => {},
        Err(e) => {
            return Err(e);
        },
    }
    let editor_copy = config.duplicate();
    Ok((FinalConfiguration { teams }, editor_copy))
}

} // verus!
