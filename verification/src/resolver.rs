//! The address resolver: turns a generation scheme, a machine's address
//! template and a blue team's identifier into a concrete host address, while
//! detecting collisions at the resolved-address level.
//!
//! The collision-detection memory (resolved address to owning machine name)
//! is threaded across the whole conversion: every team and machine processed
//! in one run shares it, because different teams concretize one template to
//! different addresses and only the resolved values can collide.

use vstd::hash_map::StringHashMap;
use vstd::prelude::*;

use crate::model::{ConversionError, ConversionErrorView, IpGeneratorScheme};
use crate::text::{
    has_placeholder, replace_placeholder, str_eq, str_replace_placeholder,
    template_has_placeholder, u8_decimal, u8_to_decimal,
};

verus! {

/// The collision-detection memory as a map from resolved address to owning
/// machine name.
pub open spec fn ips_view(m: StringHashMap<String>) -> Map<Seq<char>, Seq<char>> {
    m@.map_values(|s: String| s@)
}

/// A fresh, empty collision-detection memory for one conversion run.
pub fn new_conversion_state() -> (r: StringHashMap<String>)
    ensures
        ips_view(r) == Map::<Seq<char>, Seq<char>>::empty(),
{
    let r = StringHashMap::new();
    proof {
        assert(ips_view(r) =~= Map::<Seq<char>, Seq<char>>::empty());
    }
    r
}

/// The number the multiplier scheme substitutes for the placeholder:
/// `multiplier * id + offset` in wrapping eight-bit arithmetic.
pub open spec fn wrap_mult_offset(multiplier: u8, id: u8, offset: u8) -> u8 {
    (((multiplier as int) * (id as int) + (offset as int)) % 256) as u8
}

/// Computes `multiplier * id + offset` in wrapping eight-bit arithmetic.
pub fn wrap_mult_offset_exec(multiplier: u8, id: u8, offset: u8) -> (r: u8)
    ensures
        r == wrap_mult_offset(multiplier, id, offset),
{
    let m = multiplier as u32;
    let i = id as u32;
    let o = offset as u32;
    proof {
        assert(m * i <= 255 * 255) by (nonlinear_arith)
            requires
                m <= 255,
                i <= 255,
        ;
    }
    ((m * i + o) % 256) as u8
}

/// What resolving one machine's address yields, and the collision-detection
/// memory afterwards.
///
/// - Under the one-team scheme the template must already be a literal address
///   (no placeholder letter); a literal claimed by a different machine is a
///   collision, while re-registering the same machine is idempotent.
/// - Under the identifier scheme every placeholder letter is replaced by the
///   decimal digits of the team identifier, and the same collision rule runs
///   on the resolved address.
/// - Under the multiplier scheme the machine must declare an offset; every
///   placeholder letter is replaced by the decimal digits of
///   `multiplier * id + offset` (wrapping eight-bit arithmetic), and no
///   collision check is performed: the batch offset validation prevents
///   collisions structurally.
pub open spec fn resolve_ip_spec(
    used: Map<Seq<char>, Seq<char>>,
    machine: Seq<char>,
    template: Seq<char>,
    offset: Option<u8>,
    generator: IpGeneratorScheme,
    id: u8,
) -> (Result<Seq<char>, ConversionErrorView>, Map<Seq<char>, Seq<char>>) {
    match generator {
        IpGeneratorScheme::OneTeam => {
            if has_placeholder(template) {
                (Err(ConversionErrorView::XInManualIP(machine)), used)
            } else if used.contains_key(template) && used[template] != machine {
                (Err(ConversionErrorView::DuplicateIPs(template, machine, used[template])), used)
            } else {
                (Ok(template), used.insert(template, machine))
            }
        },
        IpGeneratorScheme::ReplaceXWithId => {
            if !has_placeholder(template) {
                (Err(ConversionErrorView::NoXInTemplateIP(machine)), used)
            } else {
                let ip = replace_placeholder(template, u8_decimal(id));
                if used.contains_key(ip) && used[ip] != machine {
                    (Err(ConversionErrorView::DuplicateIPs(ip, machine, used[ip])), used)
                } else {
                    (Ok(ip), used.insert(ip, machine))
                }
            }
        },
        IpGeneratorScheme::ReplaceXWithIdTimesMultiplierPlusOffset { multiplier } => {
            match offset {
                None => (Err(ConversionErrorView::OffsetNotSpecified(machine)), used),
                Some(off) => {
                    if has_placeholder(template) {
                        (
                            Ok(
                                replace_placeholder(
                                    template,
                                    u8_decimal(wrap_mult_offset(multiplier, id, off)),
                                ),
                            ),
                            used,
                        )
                    } else {
                        (Err(ConversionErrorView::NoXInTemplateIP(machine)), used)
                    }
                },
            }
        },
    }
}

/// Resolves one machine's concrete host address for one blue team, recording
/// the claimed address in (and checking it against) the shared
/// collision-detection memory.
pub fn convert_id_to_ip(
    used_ips: &mut StringHashMap<String>,
    machine_name: &str,
    ip_template: &str,
    ip_offset: Option<u8>,
    generator: &IpGeneratorScheme,
    id: u8,
) -> (r: Result<String, ConversionError>)
    ensures
        ips_view(*final(used_ips)) == resolve_ip_spec(
            ips_view(*old(used_ips)),
            machine_name@,
            ip_template@,
            ip_offset,
            *generator,
            id,
        ).1,
        r matches Ok(ip) ==> resolve_ip_spec(
            ips_view(*old(used_ips)),
            machine_name@,
            ip_template@,
            ip_offset,
            *generator,
            id,
        ).0 == Ok::<Seq<char>, ConversionErrorView>(ip@),
        r matches Err(e) ==> resolve_ip_spec(
            ips_view(*old(used_ips)),
            machine_name@,
            ip_template@,
            ip_offset,
            *generator,
            id,
        ).0 == Err::<Seq<char>, ConversionErrorView>(e.deep_view()),
        r is Ok <==> resolve_ip_spec(
            ips_view(*old(used_ips)),
            machine_name@,
            ip_template@,
            ip_offset,
            *generator,
            id,
        ).0 is Ok,
{
    match generator {
        IpGeneratorScheme::OneTeam => {
            if template_has_placeholder(ip_template) {
                return Err(ConversionError::XInManualIP(machine_name.to_owned()));
            }
            match used_ips.get(ip_template) {
                Some(other_machine) => {
                    if !str_eq(other_machine.as_str(), machine_name) {
                        return Err(
                            ConversionError::DuplicateIPs(
                                ip_template.to_owned(),
                                machine_name.to_owned(),
                                other_machine.clone(),
                            ),
                        );
                    }
                },
                None => {},
            }
            used_ips.insert(ip_template.to_owned(), machine_name.to_owned());
            Ok(ip_template.to_owned())
        },
        IpGeneratorScheme::ReplaceXWithId => {
            if !template_has_placeholder(ip_template) {
                return Err(ConversionError::NoXInTemplateIP(machine_name.to_owned()));
            }
            let digits = u8_to_decimal(id);
            let ip = str_replace_placeholder(ip_template, digits.as_str());
            match used_ips.get(ip.as_str()) {
                Some(other_machine) => {
                    if !str_eq(other_machine.as_str(), machine_name) {
                        return Err(
                            ConversionError::DuplicateIPs(
                                ip,
                                machine_name.to_owned(),
                                other_machine.clone(),
                            ),
                        );
                    }
                },
                None => {},
            }
            used_ips.insert(ip.clone(), machine_name.to_owned());
            Ok(ip)
        },
        IpGeneratorScheme::ReplaceXWithIdTimesMultiplierPlusOffset { multiplier } => {
            let off = match ip_offset {
                Some(off) => off,
                None => {
                    return Err(ConversionError::OffsetNotSpecified(machine_name.to_owned()));
                },
            };
            let num = wrap_mult_offset_exec(*multiplier, id, off);
            if template_has_placeholder(ip_template) {
                let digits = u8_to_decimal(num);
                Ok(str_replace_placeholder(ip_template, digits.as_str()))
            } else {
                Err(ConversionError::NoXInTemplateIP(machine_name.to_owned()))
            }
        },
    }
}

} // verus!
