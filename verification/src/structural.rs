//! Structural validators: team name and membership rules, machine and
//! service name uniqueness, blue team identifier rules, address offset rules,
//! and the cross-team username rule.
//!
//! Each validator scans in document order and reports the first violation, so
//! the error a document draws is a function of the document alone.

use vstd::prelude::*;

use crate::model::{
    BlueTeamEditor, BlueTeamEditorView, ConversionError, ConversionErrorView, MachineEditor,
    MachineEditorView, RedWhiteTeamEditor, RedWhiteTeamEditorView, TeamConfig, TeamConfigView,
    User, UserView, dup_users, validate_users_spec,
};
use crate::text::{build_team_context, str_eq, team_context};

verus! {

/// Maps [`Result`] values over team lists to their mathematical value.
pub open spec fn teams_result_view(r: Result<Vec<TeamConfig>, ConversionError>) -> Result<
    Seq<TeamConfigView>,
    ConversionErrorView,
> {
    match r {
        Ok(v) => Ok(v.deep_view()),
        Err(e) => Err(e.deep_view()),
    }
}

/// What validating one red or white team draft yields: the team tagged with
/// its colour, or the first broken rule (an empty name, then an empty user
/// list, then the first member with a blank credential).
pub open spec fn rw_team_spec(t: RedWhiteTeamEditorView) -> Result<
    TeamConfigView,
    ConversionErrorView,
> {
    if t.name.len() == 0 {
        Err(ConversionErrorView::TeamHasEmptyName)
    } else if t.users.len() == 0 {
        Err(ConversionErrorView::TeamNeedsUser(t.name))
    } else {
        match validate_users_spec(t.users, team_context(t.name), 0) {
            Err(e) => Err(e),
            Ok(_) => if t.white_team {
                Ok(TeamConfigView::White { name: t.name, users: t.users })
            } else {
                Ok(TeamConfigView::Red { name: t.name, users: t.users })
            },
        }
    }
}

/// Checks every member of one team against the credential rule: both the
/// username and the password must be non-empty.
pub fn check_team_users(users: &Vec<User>, name: &str) -> (r: Result<(), ConversionError>)
    ensures
        r is Ok <==> validate_users_spec(users.deep_view(), team_context(name@), 0) is Ok,
        r matches Err(e) ==> validate_users_spec(users.deep_view(), team_context(name@), 0)
            == Err::<Seq<UserView>, ConversionErrorView>(e.deep_view()),
{
    let ghost uv = users.deep_view();
    let ghost place = team_context(name@);
    let mut i: usize = 0;
    while i < users.len()
        invariant
            i <= users.len(),
            uv == users.deep_view(),
            place == team_context(name@),
            validate_users_spec(uv, place, i as int) matches Err(e) ==> validate_users_spec(
                uv,
                place,
                0,
            ) == Err::<Seq<UserView>, ConversionErrorView>(e),
            validate_users_spec(uv, place, i as int) is Ok ==> validate_users_spec(uv, place, 0)
                is Ok,
        decreases users.len() - i,
    {
        proof {
            assert(uv[i as int] == users@[i as int].deep_view());
        }
        let ctx = build_team_context(name);
        match users[i].duplicate().validate(ctx) {
            Ok(_) => {},
            Err(e) => {
                return Err(e);
            },
        }
        i += 1;
    }
    Ok(())
}

/// What validating every red and white team draft from `i` on yields: the
/// teams in document order, or the first broken rule.
pub open spec fn build_red_white_spec(ts: Seq<RedWhiteTeamEditorView>, i: int) -> Result<
    Seq<TeamConfigView>,
    ConversionErrorView,
>
    decreases ts.len() - i,
{
    if i < 0 || i >= ts.len() {
        Ok(Seq::empty())
    } else {
        match rw_team_spec(ts[i]) {
            Err(e) => Err(e),
            Ok(t) => match build_red_white_spec(ts, i + 1) {
                Err(e) => Err(e),
                Ok(rest) => Ok(seq![t] + rest),
            },
        }
    }
}

/// Validates and tags every red and white team draft, in document order.
pub fn build_red_white(teams: &Vec<RedWhiteTeamEditor>) -> (r: Result<
    Vec<TeamConfig>,
    ConversionError,
>)
    ensures
        teams_result_view(r) == build_red_white_spec(teams.deep_view(), 0),
{
    let ghost tsv = teams.deep_view();
    let mut out: Vec<TeamConfig> = Vec::new();
    let mut i: usize = 0;
    proof {
        if let Ok(rest) = build_red_white_spec(tsv, 0) {
            assert(out.deep_view() + rest =~= rest);
        }
    }
    while i < teams.len()
        invariant
            i <= teams.len(),
            tsv == teams.deep_view(),
            build_red_white_spec(tsv, i as int) matches Ok(rest) ==> build_red_white_spec(tsv, 0)
                == Ok::<Seq<TeamConfigView>, ConversionErrorView>(out.deep_view() + rest),
            build_red_white_spec(tsv, i as int) matches Err(e) ==> build_red_white_spec(tsv, 0)
                == Err::<Seq<TeamConfigView>, ConversionErrorView>(e),
        decreases teams.len() - i,
    {
        let team = &teams[i];
        if team.name.as_str().is_empty() {
            return Err(ConversionError::TeamHasEmptyName);
        }
        if team.users.len() == 0 {
            return Err(ConversionError::TeamNeedsUser(team.name.clone()));
        }
        match check_team_users(&team.users, team.name.as_str()) {
            Ok(()) => {},
            Err(e) => {
                return Err(e);
            },
        }
        let built = if team.white_team {
            TeamConfig::White { name: team.name.clone(), users: dup_users(&team.users) }
        } else {
            TeamConfig::Red { name: team.name.clone(), users: dup_users(&team.users) }
        };
        let ghost prev = out.deep_view();
        let ghost builtv = built.deep_view();
        out.push(built);
        proof {
            assert(out.deep_view() =~= prev + seq![builtv]);
            assert(rw_team_spec(tsv[i as int]) == Ok::<TeamConfigView, ConversionErrorView>(
                builtv,
            ));
            if let Ok(rest) = build_red_white_spec(tsv, i + 1 as int) {
                assert(prev + (seq![builtv] + rest) =~= (prev + seq![builtv]) + rest);
            }
        }
        i += 1;
    }
    proof {
        assert(build_red_white_spec(tsv, i as int) == Ok::<Seq<TeamConfigView>,
            ConversionErrorView>(Seq::empty()));
        assert(out.deep_view() + Seq::<TeamConfigView>::empty() =~= out.deep_view());
    }
    Ok(out)
}

/// The first machine name violation from `i` on: an empty name, or a name
/// already claimed by an earlier machine.
pub open spec fn machine_names_error(ms: Seq<MachineEditorView>, i: int) -> Option<
    ConversionErrorView,
>
    decreases ms.len() - i,
{
    if i < 0 || i >= ms.len() {
        None
    } else if ms[i].name.len() == 0 {
        Some(ConversionErrorView::MachineHasEmptyName)
    } else if exists|j: int| 0 <= j < i && ms[j].name == ms[i].name {
        Some(ConversionErrorView::DuplicateMachineNames(ms[i].name))
    } else {
        machine_names_error(ms, i + 1)
    }
}

/// Checks that every machine name is non-empty and unique across the whole
/// machine list.
pub fn check_machine_names(machines: &Vec<MachineEditor>) -> (r: Result<(), ConversionError>)
    ensures
        r is Ok <==> machine_names_error(machines.deep_view(), 0) is None,
        r matches Err(e) ==> machine_names_error(machines.deep_view(), 0) == Some(e.deep_view()),
{
    let ghost msv = machines.deep_view();
    let mut i: usize = 0;
    while i < machines.len()
        invariant
            i <= machines.len(),
            msv == machines.deep_view(),
            machine_names_error(msv, 0) == machine_names_error(msv, i as int),
        decreases machines.len() - i,
    {
        let machine = &machines[i];
        if machine.name.as_str().is_empty() {
            return Err(ConversionError::MachineHasEmptyName);
        }
        let mut j: usize = 0;
        while j < i
            invariant
                j <= i < machines.len(),
                msv == machines.deep_view(),
                machine_names_error(msv, 0) == machine_names_error(msv, i as int),
                msv[i as int].name.len() != 0,
                forall|k: int| 0 <= k < j ==> msv[k].name != msv[i as int].name,
            decreases i - j,
        {
            proof {
                assert(msv[j as int].name == machines@[j as int].name@);
                assert(msv[i as int].name == machines@[i as int].name@);
            }
            if str_eq(machines[j].name.as_str(), machines[i].name.as_str()) {
                assert(msv[j as int].name == msv[i as int].name);
                return Err(ConversionError::DuplicateMachineNames(machines[i].name.clone()));
            }
            j += 1;
        }
        i += 1;
    }
    Ok(())
}

/// The first service name violation on one machine from `i` on: an empty
/// name, or a name already claimed by an earlier service of that machine.
pub open spec fn service_names_error(m: MachineEditorView, i: int) -> Option<ConversionErrorView>
    decreases m.services.len() - i,
{
    if i < 0 || i >= m.services.len() {
        None
    } else if m.services[i].name.len() == 0 {
        Some(ConversionErrorView::MachineHasEmptyService(m.name))
    } else if exists|j: int| 0 <= j < i && m.services[j].name == m.services[i].name {
        Some(ConversionErrorView::DuplicateServiceName(m.name, m.services[i].name))
    } else {
        service_names_error(m, i + 1)
    }
}

/// Checks that every service name on the machine is non-empty and unique
/// within the machine.
pub fn check_service_names(machine: &MachineEditor) -> (r: Result<(), ConversionError>)
    ensures
        r is Ok <==> service_names_error(machine.deep_view(), 0) is None,
        r matches Err(e) ==> service_names_error(machine.deep_view(), 0) == Some(e.deep_view()),
{
    let ghost mv = machine.deep_view();
    let mut i: usize = 0;
    while i < machine.services.len()
        invariant
            i <= machine.services.len(),
            mv == machine.deep_view(),
            service_names_error(mv, 0) == service_names_error(mv, i as int),
        decreases machine.services.len() - i,
    {
        let service = &machine.services[i];
        if service.name.as_str().is_empty() {
            return Err(ConversionError::MachineHasEmptyService(machine.name.clone()));
        }
        let mut j: usize = 0;
        while j < i
            invariant
                j <= i < machine.services.len(),
                mv == machine.deep_view(),
                service_names_error(mv, 0) == service_names_error(mv, i as int),
                mv.services[i as int].name.len() != 0,
                forall|k: int| 0 <= k < j ==> mv.services[k].name != mv.services[i as int].name,
            decreases i - j,
        {
            proof {
                assert(mv.services[j as int].name == machine.services@[j as int].name@);
                assert(mv.services[i as int].name == machine.services@[i as int].name@);
            }
            if str_eq(machine.services[j].name.as_str(), machine.services[i].name.as_str()) {
                assert(mv.services[j as int].name == mv.services[i as int].name);
                return Err(
                    ConversionError::DuplicateServiceName(
                        machine.name.clone(),
                        machine.services[i].name.clone(),
                    ),
                );
            }
            j += 1;
        }
        i += 1;
    }
    Ok(())
}


/// The first blue team with identifier zero, from `i` on.
pub open spec fn blue_zero_id_error(ts: Seq<BlueTeamEditorView>, i: int) -> Option<
    ConversionErrorView,
>
    decreases ts.len() - i,
{
    if i < 0 || i >= ts.len() {
        None
    } else if ts[i].id == 0 {
        Some(ConversionErrorView::ZeroBlueTeamID(ts[i].name))
    } else {
        blue_zero_id_error(ts, i + 1)
    }
}

/// The names of all blue teams claiming the identifier, in document order,
/// from `i` on.
pub open spec fn blue_names_with_id(ts: Seq<BlueTeamEditorView>, id: u8, i: int) -> Seq<Seq<char>>
    decreases ts.len() - i,
{
    if i < 0 || i >= ts.len() {
        seq![]
    } else if ts[i].id == id {
        seq![ts[i].name] + blue_names_with_id(ts, id, i + 1)
    } else {
        blue_names_with_id(ts, id, i + 1)
    }
}

/// The first blue team whose identifier another blue team also claims, from
/// `i` on; the violation names every claimant.
pub open spec fn blue_duplicate_id_error(ts: Seq<BlueTeamEditorView>, i: int) -> Option<
    ConversionErrorView,
>
    decreases ts.len() - i,
{
    if i < 0 || i >= ts.len() {
        None
    } else if exists|j: int| 0 <= j < ts.len() && j != i && ts[j].id == ts[i].id {
        Some(ConversionErrorView::DuplicateBlueTeamIDs(ts[i].id, blue_names_with_id(ts, ts[i].id, 0)))
    } else {
        blue_duplicate_id_error(ts, i + 1)
    }
}

/// The first blue team identifier violation: a zero identifier, then a
/// duplicated one.
pub open spec fn blue_ids_error(ts: Seq<BlueTeamEditorView>) -> Option<ConversionErrorView> {
    match blue_zero_id_error(ts, 0) {
        Some(e) => Some(e),
        None => blue_duplicate_id_error(ts, 0),
    }
}

/// Collects the names of all blue teams claiming the identifier, in document
/// order.
fn blue_names_with_id_exec(teams: &Vec<BlueTeamEditor>, id: u8) -> (r: Vec<String>)
    ensures
        r.deep_view() == blue_names_with_id(teams.deep_view(), id, 0),
{
    let ghost tsv = teams.deep_view();
    let mut r: Vec<String> = Vec::new();
    let mut i: usize = 0;
    proof {
        assert(r.deep_view() + blue_names_with_id(tsv, id, 0) =~= blue_names_with_id(tsv, id, 0));
    }
    while i < teams.len()
        invariant
            i <= teams.len(),
            tsv == teams.deep_view(),
            blue_names_with_id(tsv, id, 0) == r.deep_view() + blue_names_with_id(
                tsv,
                id,
                i as int,
            ),
        decreases teams.len() - i,
    {
        let ghost prev = r.deep_view();
        if teams[i].id == id {
            r.push(teams[i].name.clone());
            proof {
                assert(r.deep_view() =~= prev + seq![tsv[i as int].name]);
                assert((prev + seq![tsv[i as int].name]) + blue_names_with_id(tsv, id, i + 1)
                    =~= prev + (seq![tsv[i as int].name] + blue_names_with_id(tsv, id, i + 1)));
            }
        }
        i += 1;
    }
    proof {
        assert(blue_names_with_id(tsv, id, i as int) =~= Seq::<Seq<char>>::empty());
        assert(r.deep_view() + Seq::<Seq<char>>::empty() =~= r.deep_view());
    }
    r
}

/// Checks that every blue team identifier is non-zero and claimed by exactly
/// one blue team.
pub fn check_blue_team_ids(teams: &Vec<BlueTeamEditor>) -> (r: Result<(), ConversionError>)
    ensures
        r is Ok <==> blue_ids_error(teams.deep_view()) is None,
        r matches Err(e) ==> blue_ids_error(teams.deep_view()) == Some(e.deep_view()),
{
    let ghost tsv = teams.deep_view();
    let mut i: usize = 0;
    while i < teams.len()
        invariant
            i <= teams.len(),
            tsv == teams.deep_view(),
            blue_zero_id_error(tsv, 0) == blue_zero_id_error(tsv, i as int),
        decreases teams.len() - i,
    {
        if teams[i].id == 0 {
            return Err(ConversionError::ZeroBlueTeamID(teams[i].name.clone()));
        }
        i += 1;
    }
    assert(blue_zero_id_error(tsv, 0) is None);
    let mut i: usize = 0;
    while i < teams.len()
        invariant
            i <= teams.len(),
            tsv == teams.deep_view(),
            blue_zero_id_error(tsv, 0) is None,
            blue_duplicate_id_error(tsv, 0) == blue_duplicate_id_error(tsv, i as int),
        decreases teams.len() - i,
    {
        let mut j: usize = 0;
        while j < teams.len()
            invariant
                j <= teams.len(),
                i < teams.len(),
                tsv == teams.deep_view(),
                blue_zero_id_error(tsv, 0) is None,
                blue_duplicate_id_error(tsv, 0) == blue_duplicate_id_error(tsv, i as int),
                forall|k: int| 0 <= k < j && k != i ==> tsv[k].id != tsv[i as int].id,
            decreases teams.len() - j,
        {
            if j != i && teams[j].id == teams[i].id {
                proof {
                    assert(tsv[j as int].id == tsv[i as int].id);
                    assert(exists|k: int|
                        0 <= k < tsv.len() && k != i as int && tsv[k].id == tsv[i as int].id);
                }
                let names = blue_names_with_id_exec(teams, teams[i].id);
                return Err(ConversionError::DuplicateBlueTeamIDs(teams[i].id, names));
            }
            j += 1;
        }
        i += 1;
    }
    Ok(())
}

/// The first machine without a declared address offset, from `i` on.
pub open spec fn missing_offset_error(ms: Seq<MachineEditorView>, i: int) -> Option<
    ConversionErrorView,
>
    decreases ms.len() - i,
{
    if i < 0 || i >= ms.len() {
        None
    } else if ms[i].ip_offset is None {
        Some(ConversionErrorView::MissingOffset(ms[i].name))
    } else {
        missing_offset_error(ms, i + 1)
    }
}

/// The names of all machines declaring the offset, in document order, from
/// `i` on.
pub open spec fn machines_with_offset(ms: Seq<MachineEditorView>, off: u8, i: int) -> Seq<
    Seq<char>,
>
    decreases ms.len() - i,
{
    if i < 0 || i >= ms.len() {
        seq![]
    } else if ms[i].ip_offset == Some(off) {
        seq![ms[i].name] + machines_with_offset(ms, off, i + 1)
    } else {
        machines_with_offset(ms, off, i + 1)
    }
}

/// The first machine whose declared offset another machine also declares,
/// from `i` on; the violation names every claimant.
pub open spec fn duplicate_offsets_error(ms: Seq<MachineEditorView>, i: int) -> Option<
    ConversionErrorView,
>
    decreases ms.len() - i,
{
    if i < 0 || i >= ms.len() {
        None
    } else if ms[i].ip_offset is Some && exists|j: int|
        0 <= j < ms.len() && j != i && ms[j].ip_offset == ms[i].ip_offset {
        Some(
            ConversionErrorView::DuplicateOffsets(
                machines_with_offset(ms, ms[i].ip_offset->0, 0),
            ),
        )
    } else {
        duplicate_offsets_error(ms, i + 1)
    }
}

/// The first address offset violation under the multiplier scheme: a machine
/// without an offset, then an offset shared by two machines.
pub open spec fn offsets_error(ms: Seq<MachineEditorView>) -> Option<ConversionErrorView> {
    match missing_offset_error(ms, 0) {
        Some(e) => Some(e),
        None => duplicate_offsets_error(ms, 0),
    }
}

/// Collects the names of all machines declaring the offset, in document
/// order.
fn machines_with_offset_exec(machines: &Vec<MachineEditor>, off: u8) -> (r: Vec<String>)
    ensures
        r.deep_view() == machines_with_offset(machines.deep_view(), off, 0),
{
    let ghost msv = machines.deep_view();
    let mut r: Vec<String> = Vec::new();
    let mut i: usize = 0;
    proof {
        assert(r.deep_view() + machines_with_offset(msv, off, 0) =~= machines_with_offset(
            msv,
            off,
            0,
        ));
    }
    while i < machines.len()
        invariant
            i <= machines.len(),
            msv == machines.deep_view(),
            machines_with_offset(msv, off, 0) == r.deep_view() + machines_with_offset(
                msv,
                off,
                i as int,
            ),
        decreases machines.len() - i,
    {
        let ghost prev = r.deep_view();
        let matches_off = match machines[i].ip_offset {
            Some(o) => o == off,
            None => false,
        };
        if matches_off {
            r.push(machines[i].name.clone());
            proof {
                assert(r.deep_view() =~= prev + seq![msv[i as int].name]);
                assert((prev + seq![msv[i as int].name]) + machines_with_offset(msv, off, i + 1)
                    =~= prev + (seq![msv[i as int].name] + machines_with_offset(msv, off, i + 1)));
            }
        }
        i += 1;
    }
    proof {
        assert(machines_with_offset(msv, off, i as int) =~= Seq::<Seq<char>>::empty());
        assert(r.deep_view() + Seq::<Seq<char>>::empty() =~= r.deep_view());
    }
    r
}

/// When the missing-offset scan finds nothing from `i` on, every machine
/// from `i` on declares an offset.
proof fn lemma_no_missing_offsets(ms: Seq<MachineEditorView>, i: int)
    requires
        0 <= i <= ms.len(),
        missing_offset_error(ms, i) is None,
    ensures
        forall|k: int| i <= k < ms.len() ==> ms[k].ip_offset is Some,
    decreases ms.len() - i,
{
    if 0 <= i < ms.len() {
        lemma_no_missing_offsets(ms, i + 1);
    }
}

/// Checks that, under the multiplier scheme, every machine declares an
/// address offset and no two machines share one.
pub fn check_offsets(machines: &Vec<MachineEditor>) -> (r: Result<(), ConversionError>)
    ensures
        r is Ok <==> offsets_error(machines.deep_view()) is None,
        r matches Err(e) ==> offsets_error(machines.deep_view()) == Some(e.deep_view()),
{
    let ghost msv = machines.deep_view();
    let mut i: usize = 0;
    while i < machines.len()
        invariant
            i <= machines.len(),
            msv == machines.deep_view(),
            missing_offset_error(msv, 0) == missing_offset_error(msv, i as int),
        decreases machines.len() - i,
    {
        if machines[i].ip_offset.is_none() {
            return Err(ConversionError::MissingOffset(machines[i].name.clone()));
        }
        i += 1;
    }
    assert(missing_offset_error(msv, 0) is None);
    proof {
        lemma_no_missing_offsets(msv, 0);
    }
    let mut i: usize = 0;
    while i < machines.len()
        invariant
            i <= machines.len(),
            msv == machines.deep_view(),
            missing_offset_error(msv, 0) is None,
            forall|k: int| 0 <= k < msv.len() ==> msv[k].ip_offset is Some,
            duplicate_offsets_error(msv, 0) == duplicate_offsets_error(msv, i as int),
        decreases machines.len() - i,
    {
        let mut j: usize = 0;
        while j < machines.len()
            invariant
                j <= machines.len(),
                i < machines.len(),
                msv == machines.deep_view(),
                missing_offset_error(msv, 0) is None,
                forall|k: int| 0 <= k < msv.len() ==> msv[k].ip_offset is Some,
                duplicate_offsets_error(msv, 0) == duplicate_offsets_error(msv, i as int),
                forall|k: int|
                    0 <= k < j && k != i ==> msv[k].ip_offset != msv[i as int].ip_offset,
            decreases machines.len() - j,
        {
            proof {
                assert(msv[j as int].ip_offset == machines@[j as int].ip_offset);
                assert(msv[i as int].ip_offset == machines@[i as int].ip_offset);
            }
            let same = match (machines[j].ip_offset, machines[i].ip_offset) {
                (Some(a), Some(b)) => a == b,
                _ => false,
            };
            if j != i && same {
                proof {
                    assert(msv[j as int].ip_offset == machines@[j as int].ip_offset);
                    assert(msv[i as int].ip_offset == machines@[i as int].ip_offset);
                    assert(msv[i as int].ip_offset is Some);
                    assert(msv[j as int].ip_offset == msv[i as int].ip_offset);
                    assert(exists|k: int|
                        0 <= k < msv.len() && k != i as int && msv[k].ip_offset == msv[
                            i as int
                        ].ip_offset);
                }
                let off = match machines[i].ip_offset {
                    Some(o) => o,
                    None => 0,
                };
                assert(msv[i as int].ip_offset == Some(off));
                let names = machines_with_offset_exec(machines, off);
                return Err(ConversionError::DuplicateOffsets(names));
            }
            j += 1;
        }
        i += 1;
    }
    Ok(())
}


/// The name of a final team.
pub open spec fn team_name(t: TeamConfigView) -> Seq<char> {
    match t {
        TeamConfigView::Red { name, .. } => name,
        TeamConfigView::White { name, .. } => name,
        TeamConfigView::Blue { name, .. } => name,
    }
}

/// The users of a final team.
pub open spec fn team_users(t: TeamConfigView) -> Seq<UserView> {
    match t {
        TeamConfigView::Red { users, .. } => users,
        TeamConfigView::White { users, .. } => users,
        TeamConfigView::Blue { users, .. } => users,
    }
}

/// Whether the username appears in the team's own user list.
pub open spec fn team_has_username(t: TeamConfigView, name: Seq<char>) -> bool {
    exists|u: int| 0 <= u < team_users(t).len() && team_users(t)[u].username == name
}

/// The names of all teams whose user list holds the username, in team order,
/// from `i` on; each team contributes its name once.
pub open spec fn teams_with_username(ts: Seq<TeamConfigView>, name: Seq<char>, i: int) -> Seq<
    Seq<char>,
>
    decreases ts.len() - i,
{
    if i < 0 || i >= ts.len() {
        seq![]
    } else if team_has_username(ts[i], name) {
        seq![team_name(ts[i])] + teams_with_username(ts, name, i + 1)
    } else {
        teams_with_username(ts, name, i + 1)
    }
}

/// The first user of one team, from `ui` on, whose username also appears in
/// another team of the whole list; the violation names the username and every
/// team holding it.
pub open spec fn team_duplicate_username_error(
    ts: Seq<TeamConfigView>,
    t: TeamConfigView,
    ui: int,
) -> Option<ConversionErrorView>
    decreases team_users(t).len() - ui,
{
    if ui < 0 || ui >= team_users(t).len() {
        None
    } else if teams_with_username(ts, team_users(t)[ui].username, 0).len() > 1 {
        Some(
            ConversionErrorView::DuplicateUserNameForTeams(
                team_users(t)[ui].username,
                teams_with_username(ts, team_users(t)[ui].username, 0),
            ),
        )
    } else {
        team_duplicate_username_error(ts, t, ui + 1)
    }
}

/// The first cross-team username violation, scanning teams then users in
/// document order, from team `ti` on. A username may repeat within one team's
/// own list; only a username shared by two teams is a violation.
pub open spec fn duplicate_username_error(ts: Seq<TeamConfigView>, ti: int) -> Option<
    ConversionErrorView,
>
    decreases ts.len() - ti,
{
    if ti < 0 || ti >= ts.len() {
        None
    } else {
        match team_duplicate_username_error(ts, ts[ti], 0) {
            Some(e) => Some(e),
            None => duplicate_username_error(ts, ti + 1),
        }
    }
}

/// The team's user list.
fn team_users_ref(t: &TeamConfig) -> (r: &Vec<User>)
    ensures
        r.deep_view() == team_users(t.deep_view()),
{
    match t {
        TeamConfig::Red { users, .. } => users,
        TeamConfig::White { users, .. } => users,
        TeamConfig::Blue { users, .. } => users,
    }
}

/// The team's name.
fn team_name_ref(t: &TeamConfig) -> (r: &String)
    ensures
        r@ == team_name(t.deep_view()),
{
    match t {
        TeamConfig::Red { name, .. } => name,
        TeamConfig::White { name, .. } => name,
        TeamConfig::Blue { name, .. } => name,
    }
}

/// Whether the username appears in the team's own user list.
fn team_contains_username(t: &TeamConfig, name: &str) -> (b: bool)
    ensures
        b == team_has_username(t.deep_view(), name@),
{
    let users = team_users_ref(t);
    let mut i: usize = 0;
    while i < users.len()
        invariant
            i <= users.len(),
            users.deep_view() == team_users(t.deep_view()),
            forall|j: int| 0 <= j < i ==> team_users(t.deep_view())[j].username != name@,
        decreases users.len() - i,
    {
        proof {
            assert(team_users(t.deep_view())[i as int] == users@[i as int].deep_view());
        }
        if str_eq(users[i].username.as_str(), name) {
            assert(team_users(t.deep_view())[i as int].username == name@);
            return true;
        }
        i += 1;
    }
    false
}

/// Collects the names of all teams whose user list holds the username, in
/// team order.
fn teams_containing_username(teams: &Vec<TeamConfig>, name: &str) -> (r: Vec<String>)
    ensures
        r.deep_view() == teams_with_username(teams.deep_view(), name@, 0),
{
    let ghost tsv = teams.deep_view();
    let mut r: Vec<String> = Vec::new();
    let mut i: usize = 0;
    proof {
        assert(r.deep_view() + teams_with_username(tsv, name@, 0) =~= teams_with_username(
            tsv,
            name@,
            0,
        ));
    }
    while i < teams.len()
        invariant
            i <= teams.len(),
            tsv == teams.deep_view(),
            teams_with_username(tsv, name@, 0) == r.deep_view() + teams_with_username(
                tsv,
                name@,
                i as int,
            ),
        decreases teams.len() - i,
    {
        let ghost prev = r.deep_view();
        if team_contains_username(&teams[i], name) {
            r.push(team_name_ref(&teams[i]).clone());
            proof {
                assert(r.deep_view() =~= prev + seq![team_name(tsv[i as int])]);
                assert((prev + seq![team_name(tsv[i as int])]) + teams_with_username(
                    tsv,
                    name@,
                    i + 1,
                ) =~= prev + (seq![team_name(tsv[i as int])] + teams_with_username(
                    tsv,
                    name@,
                    i + 1,
                )));
            }
        }
        i += 1;
    }
    proof {
        assert(teams_with_username(tsv, name@, i as int) =~= Seq::<Seq<char>>::empty());
        assert(r.deep_view() + Seq::<Seq<char>>::empty() =~= r.deep_view());
    }
    r
}

/// Checks that no username appears in two different teams of the assembled
/// team list.
pub fn check_usernames(teams: &Vec<TeamConfig>) -> (r: Result<(), ConversionError>)
    ensures
        r is Ok <==> duplicate_username_error(teams.deep_view(), 0) is None,
        r matches Err(e) ==> duplicate_username_error(teams.deep_view(), 0) == Some(e.deep_view()),
{
    let ghost tsv = teams.deep_view();
    let mut ti: usize = 0;
    while ti < teams.len()
        invariant
            ti <= teams.len(),
            tsv == teams.deep_view(),
            duplicate_username_error(tsv, 0) == duplicate_username_error(tsv, ti as int),
        decreases teams.len() - ti,
    {
        let users = team_users_ref(&teams[ti]);
        let mut ui: usize = 0;
        while ui < users.len()
            invariant
                ui <= users.len(),
                ti < teams.len(),
                tsv == teams.deep_view(),
                users.deep_view() == team_users(tsv[ti as int]),
                duplicate_username_error(tsv, 0) == duplicate_username_error(tsv, ti as int),
                team_duplicate_username_error(tsv, tsv[ti as int], 0)
                    == team_duplicate_username_error(tsv, tsv[ti as int], ui as int),
            decreases users.len() - ui,
        {
            proof {
                assert(team_users(tsv[ti as int])[ui as int] == users@[ui as int].deep_view());
            }
            let names = teams_containing_username(teams, users[ui].username.as_str());
            if names.len() > 1 {
                return Err(
                    ConversionError::DuplicateUserNameForTeams(users[ui].username.clone(), names),
                );
            }
            ui += 1;
        }
        ti += 1;
    }
    Ok(())
}

} // verus!
