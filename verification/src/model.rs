//! Data model: the editor document (input), the final document (output), and
//! the error taxonomy of the conversion pipeline.

use vstd::prelude::*;

use crate::text::{comma_join, join_comma, u8_decimal, u8_to_decimal};

verus! {

/// One precise reason a conversion was rejected. Each variant carries the
/// structured context (names, counts, lists) needed to render a diagnostic
/// without re-inspecting the input.
#[derive(Debug, PartialEq, Eq, Clone)]
pub enum ConversionError {
    /// The one-team scheme was chosen but more than one blue team exists.
    OneTeamConfigurationWithMultipleTeams,
    /// A literal address was expected for this machine but its template holds
    /// a placeholder letter.
    XInManualIP(String),
    /// A template with a placeholder letter was expected for this machine but
    /// none is present.
    NoXInTemplateIP(String),
    /// The multiplier (second field) is smaller than the machine count
    /// (first field).
    MultNotBigEnough(u8, u8),
    /// This machine declares no address offset under the multiplier scheme.
    OffsetNotSpecified(String),
    /// This machine declares no address offset under the multiplier scheme
    /// (detected during the batch offset validation).
    MissingOffset(String),
    /// The named machines share one address offset.
    DuplicateOffsets(Vec<String>),
    /// The address (first field) is claimed by both named machines.
    DuplicateIPs(String, String, String),
    /// A user at the named place (first field) has an empty username or an
    /// empty password; the second field is the username.
    EmptyUsernameOrPassword(String, String),
    /// The blue team identifier is claimed by all the named teams.
    DuplicateBlueTeamIDs(u8, Vec<String>),
    /// The named blue team has identifier zero.
    ZeroBlueTeamID(String),
    /// The named team has no user at all.
    TeamNeedsUser(String),
    /// Some team has an empty name.
    TeamHasEmptyName,
    /// Some machine has an empty name.
    MachineHasEmptyName,
    /// The named machine has a service with an empty name.
    MachineHasEmptyService(String),
    /// The username (first field) appears in every team named by the list.
    DuplicateUserNameForTeams(String, Vec<String>),
    /// Two machines share the given name.
    DuplicateMachineNames(String),
    /// A check record of the service (second field) on the machine (first
    /// field) broke the rules joined in the message (third field).
    ServiceNotFullyConfigured(String, String, String),
    /// The machine (first field) has two services with the name given by the
    /// second field.
    DuplicateServiceName(String, String),
}

/// The human-readable diagnostic of one violation.
pub open spec fn message_spec(e: ConversionErrorView) -> Seq<char> {
    match e {
        ConversionErrorView::OneTeamConfigurationWithMultipleTeams => "multiple teams specified with a one team ip address configuration"@,
        ConversionErrorView::XInManualIP(m) => "an ip address template was provided when a full ip address was expected (machine: "@ + m + ")"@,
        ConversionErrorView::NoXInTemplateIP(m) => "a full ip address was provided when an ip address template was expected (machine: "@ + m + ")"@,
        ConversionErrorView::MultNotBigEnough(mcount, mult) => "the multiplier specified was not big enough to account for all the machines on the network (multiplier "@ + u8_decimal(mult) + ", machine count "@ + u8_decimal(mcount) + ")"@,
        ConversionErrorView::OffsetNotSpecified(m) => "a machine does not have an ip address offset specified (machine "@ + m + ")"@,
        ConversionErrorView::MissingOffset(m) => "machine "@ + m + " is missing an offset"@,
        ConversionErrorView::DuplicateOffsets(ms) => "multiple machines share the same offsets ("@ + comma_join(ms) + ")"@,
        ConversionErrorView::DuplicateIPs(ip, m1, m2) => "duplicate ip address "@ + ip + " specified for machines "@ + m1 + " and "@ + m2,
        ConversionErrorView::EmptyUsernameOrPassword(place, name) => "empty username or password at "@ + place + " (username: "@ + name + ")"@,
        ConversionErrorView::DuplicateBlueTeamIDs(id, names) => "duplicate blue team member IDs for teams "@ + comma_join(names) + " ("@ + u8_decimal(id) + ")"@,
        ConversionErrorView::ZeroBlueTeamID(name) => "blue team "@ + name + " has the id 0"@,
        ConversionErrorView::TeamNeedsUser(team) => "team "@ + team + " is missing at least one user account"@,
        ConversionErrorView::TeamHasEmptyName => "one of the teams has no name"@,
        ConversionErrorView::MachineHasEmptyName => "there can't be any machines with no name"@,
        ConversionErrorView::MachineHasEmptyService(m) => "machine '"@ + m + "' has a service with no name"@,
        ConversionErrorView::DuplicateUserNameForTeams(name, teams) => "the username "@ + name + " is repeated across teams "@ + comma_join(teams),
        ConversionErrorView::DuplicateMachineNames(m) => "multiple machines with the same name '"@ + m + "'"@,
        ConversionErrorView::ServiceNotFullyConfigured(m, s, why) => "the service "@ + s + " on machine "@ + m + " was not fully configured: "@ + why,
        ConversionErrorView::DuplicateServiceName(m, s) => "the machine "@ + m + " has multiple services named "@ + s,
    }
}

impl ConversionError {
    /// Renders the violation as its human-readable diagnostic.
    pub fn message(&self) -> (r: String)
        ensures
            r@ == message_spec(self.deep_view()),
    {
        match self {
            ConversionError::OneTeamConfigurationWithMultipleTeams => String::from_str("multiple teams specified with a one team ip address configuration"),
            ConversionError::XInManualIP(m) => {
                let mut s = String::from_str("an ip address template was provided when a full ip address was expected (machine: ");
                s.append(m.as_str());
                s.append(")");
                proof {
                    assert(s@ =~= message_spec(self.deep_view()));
                }
                s
            },
            ConversionError::NoXInTemplateIP(m) => {
                let mut s = String::from_str("a full ip address was provided when an ip address template was expected (machine: ");
                s.append(m.as_str());
                s.append(")");
                proof {
                    assert(s@ =~= message_spec(self.deep_view()));
                }
                s
            },
            ConversionError::MultNotBigEnough(mcount, mult) => {
                let mut s = String::from_str("the multiplier specified was not big enough to account for all the machines on the network (multiplier ");
                let digits = u8_to_decimal(*mult);
                s.append(digits.as_str());
                s.append(", machine count ");
                let digits = u8_to_decimal(*mcount);
                s.append(digits.as_str());
                s.append(")");
                proof {
                    assert(s@ =~= message_spec(self.deep_view()));
                }
                s
            },
            ConversionError::OffsetNotSpecified(m) => {
                let mut s = String::from_str("a machine does not have an ip address offset specified (machine ");
                s.append(m.as_str());
                s.append(")");
                proof {
                    assert(s@ =~= message_spec(self.deep_view()));
                }
                s
            },
            ConversionError::MissingOffset(m) => {
                let mut s = String::from_str("machine ");
                s.append(m.as_str());
                s.append(" is missing an offset");
                proof {
                    assert(s@ =~= message_spec(self.deep_view()));
                }
                s
            },
            ConversionError::DuplicateOffsets(ms) => {
                let mut s = String::from_str("multiple machines share the same offsets (");
                let joined = join_comma(ms);
                s.append(joined.as_str());
                s.append(")");
                proof {
                    assert(s@ =~= message_spec(self.deep_view()));
                }
                s
            },
            ConversionError::DuplicateIPs(ip, m1, m2) => {
                let mut s = String::from_str("duplicate ip address ");
                s.append(ip.as_str());
                s.append(" specified for machines ");
                s.append(m1.as_str());
                s.append(" and ");
                s.append(m2.as_str());
                proof {
                    assert(s@ =~= message_spec(self.deep_view()));
                }
                s
            },
            ConversionError::EmptyUsernameOrPassword(place, name) => {
                let mut s = String::from_str("empty username or password at ");
                s.append(place.as_str());
                s.append(" (username: ");
                s.append(name.as_str());
                s.append(")");
                proof {
                    assert(s@ =~= message_spec(self.deep_view()));
                }
                s
            },
            ConversionError::DuplicateBlueTeamIDs(id, names) => {
                let mut s = String::from_str("duplicate blue team member IDs for teams ");
                let joined = join_comma(names);
                s.append(joined.as_str());
                s.append(" (");
                let digits = u8_to_decimal(*id);
                s.append(digits.as_str());
                s.append(")");
                proof {
                    assert(s@ =~= message_spec(self.deep_view()));
                }
                s
            },
            ConversionError::ZeroBlueTeamID(name) => {
                let mut s = String::from_str("blue team ");
                s.append(name.as_str());
                s.append(" has the id 0");
                proof {
                    assert(s@ =~= message_spec(self.deep_view()));
                }
                s
            },
            ConversionError::TeamNeedsUser(team) => {
                let mut s = String::from_str("team ");
                s.append(team.as_str());
                s.append(" is missing at least one user account");
                proof {
                    assert(s@ =~= message_spec(self.deep_view()));
                }
                s
            },
            ConversionError::TeamHasEmptyName => String::from_str("one of the teams has no name"),
            ConversionError::MachineHasEmptyName => String::from_str("there can't be any machines with no name"),
            ConversionError::MachineHasEmptyService(m) => {
                let mut s = String::from_str("machine '");
                s.append(m.as_str());
                s.append("' has a service with no name");
                proof {
                    assert(s@ =~= message_spec(self.deep_view()));
                }
                s
            },
            ConversionError::DuplicateUserNameForTeams(name, teams) => {
                let mut s = String::from_str("the username ");
                s.append(name.as_str());
                s.append(" is repeated across teams ");
                let joined = join_comma(teams);
                s.append(joined.as_str());
                proof {
                    assert(s@ =~= message_spec(self.deep_view()));
                }
                s
            },
            ConversionError::DuplicateMachineNames(m) => {
                let mut s = String::from_str("multiple machines with the same name '");
                s.append(m.as_str());
                s.append("'");
                proof {
                    assert(s@ =~= message_spec(self.deep_view()));
                }
                s
            },
            ConversionError::ServiceNotFullyConfigured(m, sname, why) => {
                let mut s = String::from_str("the service ");
                s.append(sname.as_str());
                s.append(" on machine ");
                s.append(m.as_str());
                s.append(" was not fully configured: ");
                s.append(why.as_str());
                proof {
                    assert(s@ =~= message_spec(self.deep_view()));
                }
                s
            },
            ConversionError::DuplicateServiceName(m, sname) => {
                let mut s = String::from_str("the machine ");
                s.append(m.as_str());
                s.append(" has multiple services named ");
                s.append(sname.as_str());
                proof {
                    assert(s@ =~= message_spec(self.deep_view()));
                }
                s
            },
        }
    }
}

/// A credential pair attached to a team or to a single monitored service.
#[derive(Debug, PartialEq, Eq, Clone)]
pub struct User {
    pub username: String,
    pub password: String,
}

/// Mathematical value of a [`User`].
#[verifier::ext_equal]
pub struct UserView {
    pub username: Seq<char>,
    pub password: Seq<char>,
}

impl DeepView for User {
    type V = UserView;

    open spec fn deep_view(&self) -> UserView {
        UserView { username: self.username@, password: self.password@ }
    }
}

/// Mathematical value of a [`ConversionError`].
#[verifier::ext_equal]
pub enum ConversionErrorView {
    OneTeamConfigurationWithMultipleTeams,
    XInManualIP(Seq<char>),
    NoXInTemplateIP(Seq<char>),
    MultNotBigEnough(u8, u8),
    OffsetNotSpecified(Seq<char>),
    MissingOffset(Seq<char>),
    DuplicateOffsets(Seq<Seq<char>>),
    DuplicateIPs(Seq<char>, Seq<char>, Seq<char>),
    EmptyUsernameOrPassword(Seq<char>, Seq<char>),
    DuplicateBlueTeamIDs(u8, Seq<Seq<char>>),
    ZeroBlueTeamID(Seq<char>),
    TeamNeedsUser(Seq<char>),
    TeamHasEmptyName,
    MachineHasEmptyName,
    MachineHasEmptyService(Seq<char>),
    DuplicateUserNameForTeams(Seq<char>, Seq<Seq<char>>),
    DuplicateMachineNames(Seq<char>),
    ServiceNotFullyConfigured(Seq<char>, Seq<char>, Seq<char>),
    DuplicateServiceName(Seq<char>, Seq<char>),
}

impl DeepView for ConversionError {
    type V = ConversionErrorView;

    open spec fn deep_view(&self) -> ConversionErrorView {
        match self {
            ConversionError::OneTeamConfigurationWithMultipleTeams => ConversionErrorView::OneTeamConfigurationWithMultipleTeams,
            ConversionError::XInManualIP(m) => ConversionErrorView::XInManualIP(m@),
            ConversionError::NoXInTemplateIP(m) => ConversionErrorView::NoXInTemplateIP(m@),
            ConversionError::MultNotBigEnough(c, m) => ConversionErrorView::MultNotBigEnough(*c, *m),
            ConversionError::OffsetNotSpecified(m) => ConversionErrorView::OffsetNotSpecified(m@),
            ConversionError::MissingOffset(m) => ConversionErrorView::MissingOffset(m@),
            ConversionError::DuplicateOffsets(ms) => ConversionErrorView::DuplicateOffsets(ms.deep_view()),
            ConversionError::DuplicateIPs(ip, m1, m2) => ConversionErrorView::DuplicateIPs(ip@, m1@, m2@),
            ConversionError::EmptyUsernameOrPassword(w, u) => ConversionErrorView::EmptyUsernameOrPassword(w@, u@),
            ConversionError::DuplicateBlueTeamIDs(id, ns) => ConversionErrorView::DuplicateBlueTeamIDs(*id, ns.deep_view()),
            ConversionError::ZeroBlueTeamID(n) => ConversionErrorView::ZeroBlueTeamID(n@),
            ConversionError::TeamNeedsUser(n) => ConversionErrorView::TeamNeedsUser(n@),
            ConversionError::TeamHasEmptyName => ConversionErrorView::TeamHasEmptyName,
            ConversionError::MachineHasEmptyName => ConversionErrorView::MachineHasEmptyName,
            ConversionError::MachineHasEmptyService(m) => ConversionErrorView::MachineHasEmptyService(m@),
            ConversionError::DuplicateUserNameForTeams(u, ts) => ConversionErrorView::DuplicateUserNameForTeams(u@, ts.deep_view()),
            ConversionError::DuplicateMachineNames(m) => ConversionErrorView::DuplicateMachineNames(m@),
            ConversionError::ServiceNotFullyConfigured(m, s, r) => ConversionErrorView::ServiceNotFullyConfigured(m@, s@, r@),
            ConversionError::DuplicateServiceName(m, s) => ConversionErrorView::DuplicateServiceName(m@, s@),
        }
    }
}

/// Fields of one DNS check record.
#[derive(Debug, PartialEq, Eq, Clone)]
pub struct DnsCheckInfo {
    pub matching_content: String,
    pub qtype: String,
    pub domain: String,
}

/// Mathematical value of a [`DnsCheckInfo`].
#[verifier::ext_equal]
pub struct DnsCheckInfoView {
    pub matching_content: Seq<char>,
    pub qtype: Seq<char>,
    pub domain: Seq<char>,
}

impl DeepView for DnsCheckInfo {
    type V = DnsCheckInfoView;

    open spec fn deep_view(&self) -> DnsCheckInfoView {
        DnsCheckInfoView {
            matching_content: self.matching_content@,
            qtype: self.qtype@,
            domain: self.domain@,
        }
    }
}

impl DnsCheckInfo {
    /// An owned copy with the same value.
    pub fn duplicate(&self) -> (r: Self)
        ensures
            r == *self,
    {
        DnsCheckInfo {
            matching_content: self.matching_content.clone(),
            qtype: self.qtype.clone(),
            domain: self.domain.clone(),
        }
    }
}

/// Fields of one Docker check record.
#[derive(Debug, PartialEq, Eq, Clone)]
pub struct DockerCheckInfo {
    pub matching_content: String,
    pub image: String,
}

/// Mathematical value of a [`DockerCheckInfo`].
#[verifier::ext_equal]
pub struct DockerCheckInfoView {
    pub matching_content: Seq<char>,
    pub image: Seq<char>,
}

impl DeepView for DockerCheckInfo {
    type V = DockerCheckInfoView;

    open spec fn deep_view(&self) -> DockerCheckInfoView {
        DockerCheckInfoView { matching_content: self.matching_content@, image: self.image@ }
    }
}

impl DockerCheckInfo {
    /// An owned copy with the same value.
    pub fn duplicate(&self) -> (r: Self)
        ensures
            r == *self,
    {
        DockerCheckInfo {
            matching_content: self.matching_content.clone(),
            image: self.image.clone(),
        }
    }
}

/// Fields of one Elasticsearch check record.
#[derive(Debug, PartialEq, Eq, Clone)]
pub struct ElasticsearchCheckInfo {
    pub matching_content: String,
    pub index: String,
    pub doc_type: String,
}

/// Mathematical value of an [`ElasticsearchCheckInfo`].
#[verifier::ext_equal]
pub struct ElasticsearchCheckInfoView {
    pub matching_content: Seq<char>,
    pub index: Seq<char>,
    pub doc_type: Seq<char>,
}

impl DeepView for ElasticsearchCheckInfo {
    type V = ElasticsearchCheckInfoView;

    open spec fn deep_view(&self) -> ElasticsearchCheckInfoView {
        ElasticsearchCheckInfoView {
            matching_content: self.matching_content@,
            index: self.index@,
            doc_type: self.doc_type@,
        }
    }
}

impl ElasticsearchCheckInfo {
    /// An owned copy with the same value.
    pub fn duplicate(&self) -> (r: Self)
        ensures
            r == *self,
    {
        ElasticsearchCheckInfo {
            matching_content: self.matching_content.clone(),
            index: self.index.clone(),
            doc_type: self.doc_type.clone(),
        }
    }
}

/// Fields of one FTP check record.
#[derive(Debug, PartialEq, Eq, Clone)]
pub struct FtpCheckInfo {
    pub matching_content: String,
    pub remotefilepath: String,
    pub filecontents: String,
}

/// Mathematical value of an [`FtpCheckInfo`].
#[verifier::ext_equal]
pub struct FtpCheckInfoView {
    pub matching_content: Seq<char>,
    pub remotefilepath: Seq<char>,
    pub filecontents: Seq<char>,
}

impl DeepView for FtpCheckInfo {
    type V = FtpCheckInfoView;

    open spec fn deep_view(&self) -> FtpCheckInfoView {
        FtpCheckInfoView {
            matching_content: self.matching_content@,
            remotefilepath: self.remotefilepath@,
            filecontents: self.filecontents@,
        }
    }
}

impl FtpCheckInfo {
    /// An owned copy with the same value.
    pub fn duplicate(&self) -> (r: Self)
        ensures
            r == *self,
    {
        FtpCheckInfo {
            matching_content: self.matching_content.clone(),
            remotefilepath: self.remotefilepath.clone(),
            filecontents: self.filecontents.clone(),
        }
    }
}

/// Fields of one check record for the HTTP family (plain, TLS, Wordpress).
#[derive(Debug, PartialEq, Eq, Clone)]
pub struct HttpCheckInfo {
    pub matching_content: String,
    pub useragent: String,
    pub vhost: String,
    pub uri: String,
}

/// Mathematical value of an [`HttpCheckInfo`].
#[verifier::ext_equal]
pub struct HttpCheckInfoView {
    pub matching_content: Seq<char>,
    pub useragent: Seq<char>,
    pub vhost: Seq<char>,
    pub uri: Seq<char>,
}

impl DeepView for HttpCheckInfo {
    type V = HttpCheckInfoView;

    open spec fn deep_view(&self) -> HttpCheckInfoView {
        HttpCheckInfoView {
            matching_content: self.matching_content@,
            useragent: self.useragent@,
            vhost: self.vhost@,
            uri: self.uri@,
        }
    }
}

impl HttpCheckInfo {
    /// An owned copy with the same value.
    pub fn duplicate(&self) -> (r: Self)
        ensures
            r == *self,
    {
        HttpCheckInfo {
            matching_content: self.matching_content.clone(),
            useragent: self.useragent.clone(),
            vhost: self.vhost.clone(),
            uri: self.uri.clone(),
        }
    }
}

/// Fields of one check record for the IMAP family.
#[derive(Debug, PartialEq, Eq, Clone)]
pub struct ImapCheckInfo {
    pub matching_content: String,
    pub domain: String,
}

/// Mathematical value of an [`ImapCheckInfo`].
#[verifier::ext_equal]
pub struct ImapCheckInfoView {
    pub matching_content: Seq<char>,
    pub domain: Seq<char>,
}

impl DeepView for ImapCheckInfo {
    type V = ImapCheckInfoView;

    open spec fn deep_view(&self) -> ImapCheckInfoView {
        ImapCheckInfoView { matching_content: self.matching_content@, domain: self.domain@ }
    }
}

impl ImapCheckInfo {
    /// An owned copy with the same value.
    pub fn duplicate(&self) -> (r: Self)
        ensures
            r == *self,
    {
        ImapCheckInfo {
            matching_content: self.matching_content.clone(),
            domain: self.domain.clone(),
        }
    }
}

/// Fields of one LDAP check record.
#[derive(Debug, PartialEq, Eq, Clone)]
pub struct LdapCheckInfo {
    pub matching_content: String,
    pub domain: String,
    pub base_dn: String,
}

/// Mathematical value of an [`LdapCheckInfo`].
#[verifier::ext_equal]
pub struct LdapCheckInfoView {
    pub matching_content: Seq<char>,
    pub domain: Seq<char>,
    pub base_dn: Seq<char>,
}

impl DeepView for LdapCheckInfo {
    type V = LdapCheckInfoView;

    open spec fn deep_view(&self) -> LdapCheckInfoView {
        LdapCheckInfoView {
            matching_content: self.matching_content@,
            domain: self.domain@,
            base_dn: self.base_dn@,
        }
    }
}

impl LdapCheckInfo {
    /// An owned copy with the same value.
    pub fn duplicate(&self) -> (r: Self)
        ensures
            r == *self,
    {
        LdapCheckInfo {
            matching_content: self.matching_content.clone(),
            domain: self.domain.clone(),
            base_dn: self.base_dn.clone(),
        }
    }
}

/// Fields of one check record for the SQL family (MSSQL, MySQL, PostgreSQL).
#[derive(Debug, PartialEq, Eq, Clone)]
pub struct SqlCheckInfo {
    pub matching_content: String,
    pub database: String,
    pub command: String,
}

/// Mathematical value of a [`SqlCheckInfo`].
#[verifier::ext_equal]
pub struct SqlCheckInfoView {
    pub matching_content: Seq<char>,
    pub database: Seq<char>,
    pub command: Seq<char>,
}

impl DeepView for SqlCheckInfo {
    type V = SqlCheckInfoView;

    open spec fn deep_view(&self) -> SqlCheckInfoView {
        SqlCheckInfoView {
            matching_content: self.matching_content@,
            database: self.database@,
            command: self.command@,
        }
    }
}

impl SqlCheckInfo {
    /// An owned copy with the same value.
    pub fn duplicate(&self) -> (r: Self)
        ensures
            r == *self,
    {
        SqlCheckInfo {
            matching_content: self.matching_content.clone(),
            database: self.database.clone(),
            command: self.command.clone(),
        }
    }
}

/// Fields of one NFS check record.
#[derive(Debug, PartialEq, Eq, Clone)]
pub struct NfsCheckInfo {
    pub matching_content: String,
    pub remotefilepath: String,
    pub filecontents: String,
}

/// Mathematical value of an [`NfsCheckInfo`].
#[verifier::ext_equal]
pub struct NfsCheckInfoView {
    pub matching_content: Seq<char>,
    pub remotefilepath: Seq<char>,
    pub filecontents: Seq<char>,
}

impl DeepView for NfsCheckInfo {
    type V = NfsCheckInfoView;

    open spec fn deep_view(&self) -> NfsCheckInfoView {
        NfsCheckInfoView {
            matching_content: self.matching_content@,
            remotefilepath: self.remotefilepath@,
            filecontents: self.filecontents@,
        }
    }
}

impl NfsCheckInfo {
    /// An owned copy with the same value.
    pub fn duplicate(&self) -> (r: Self)
        ensures
            r == *self,
    {
        NfsCheckInfo {
            matching_content: self.matching_content.clone(),
            remotefilepath: self.remotefilepath.clone(),
            filecontents: self.filecontents.clone(),
        }
    }
}

/// Fields of one check record for the POP3 family.
#[derive(Debug, PartialEq, Eq, Clone)]
pub struct PopCheckInfo {
    pub matching_content: String,
    pub domain: String,
}

/// Mathematical value of a [`PopCheckInfo`].
#[verifier::ext_equal]
pub struct PopCheckInfoView {
    pub matching_content: Seq<char>,
    pub domain: Seq<char>,
}

impl DeepView for PopCheckInfo {
    type V = PopCheckInfoView;

    open spec fn deep_view(&self) -> PopCheckInfoView {
        PopCheckInfoView { matching_content: self.matching_content@, domain: self.domain@ }
    }
}

impl PopCheckInfo {
    /// An owned copy with the same value.
    pub fn duplicate(&self) -> (r: Self)
        ensures
            r == *self,
    {
        PopCheckInfo {
            matching_content: self.matching_content.clone(),
            domain: self.domain.clone(),
        }
    }
}

/// Fields of one SMB check record.
#[derive(Debug, PartialEq, Eq, Clone)]
pub struct SmbCheckInfo {
    pub matching_content: String,
    pub remote_name: String,
    pub share: String,
    pub file: String,
    pub hash: String,
}

/// Mathematical value of a [`SmbCheckInfo`].
#[verifier::ext_equal]
pub struct SmbCheckInfoView {
    pub matching_content: Seq<char>,
    pub remote_name: Seq<char>,
    pub share: Seq<char>,
    pub file: Seq<char>,
    pub hash: Seq<char>,
}

impl DeepView for SmbCheckInfo {
    type V = SmbCheckInfoView;

    open spec fn deep_view(&self) -> SmbCheckInfoView {
        SmbCheckInfoView {
            matching_content: self.matching_content@,
            remote_name: self.remote_name@,
            share: self.share@,
            file: self.file@,
            hash: self.hash@,
        }
    }
}

impl SmbCheckInfo {
    /// An owned copy with the same value.
    pub fn duplicate(&self) -> (r: Self)
        ensures
            r == *self,
    {
        SmbCheckInfo {
            matching_content: self.matching_content.clone(),
            remote_name: self.remote_name.clone(),
            share: self.share.clone(),
            file: self.file.clone(),
            hash: self.hash.clone(),
        }
    }
}

/// Fields of one check record for the SMTP family.
#[derive(Debug, PartialEq, Eq, Clone)]
pub struct SmtpCheckInfo {
    pub matching_content: String,
    pub touser: String,
    pub subject: String,
    pub body: String,
}

/// Mathematical value of a [`SmtpCheckInfo`].
#[verifier::ext_equal]
pub struct SmtpCheckInfoView {
    pub matching_content: Seq<char>,
    pub touser: Seq<char>,
    pub subject: Seq<char>,
    pub body: Seq<char>,
}

impl DeepView for SmtpCheckInfo {
    type V = SmtpCheckInfoView;

    open spec fn deep_view(&self) -> SmtpCheckInfoView {
        SmtpCheckInfoView {
            matching_content: self.matching_content@,
            touser: self.touser@,
            subject: self.subject@,
            body: self.body@,
        }
    }
}

impl SmtpCheckInfo {
    /// An owned copy with the same value.
    pub fn duplicate(&self) -> (r: Self)
        ensures
            r == *self,
    {
        SmtpCheckInfo {
            matching_content: self.matching_content.clone(),
            touser: self.touser.clone(),
            subject: self.subject.clone(),
            body: self.body.clone(),
        }
    }
}

/// Fields of one check record for command-execution kinds (SSH, WinRM).
#[derive(Debug, PartialEq, Eq, Clone)]
pub struct RemoteCommandCheckInfo {
    pub matching_content: String,
    pub commands: String,
}

/// Mathematical value of a [`RemoteCommandCheckInfo`].
#[verifier::ext_equal]
pub struct RemoteCommandCheckInfoView {
    pub matching_content: Seq<char>,
    pub commands: Seq<char>,
}

impl DeepView for RemoteCommandCheckInfo {
    type V = RemoteCommandCheckInfoView;

    open spec fn deep_view(&self) -> RemoteCommandCheckInfoView {
        RemoteCommandCheckInfoView {
            matching_content: self.matching_content@,
            commands: self.commands@,
        }
    }
}

impl RemoteCommandCheckInfo {
    /// An owned copy with the same value.
    pub fn duplicate(&self) -> (r: Self)
        ensures
            r == *self,
    {
        RemoteCommandCheckInfo {
            matching_content: self.matching_content.clone(),
            commands: self.commands.clone(),
        }
    }
}

/// One monitored service kind together with its check records. Kinds whose
/// probe needs per-record fields carry a list of records; ICMP, RDP and VNC
/// carry at most a single matcher string.
#[derive(Debug, PartialEq, Eq, Clone)]
pub enum ServiceDefinition {
    Dns { environment: Vec<DnsCheckInfo> },
    Docker { environment: Vec<DockerCheckInfo> },
    Elasticsearch { environment: Vec<ElasticsearchCheckInfo> },
    Ftp { environment: Vec<FtpCheckInfo> },
    Http { environment: Vec<HttpCheckInfo> },
    Https { environment: Vec<HttpCheckInfo> },
    Icmp { environment: Option<String> },
    Imap { environment: Vec<ImapCheckInfo> },
    Imaps { environment: Vec<ImapCheckInfo> },
    Ldap { environment: Vec<LdapCheckInfo> },
    Mssql { environment: Vec<SqlCheckInfo> },
    Mysql { environment: Vec<SqlCheckInfo> },
    Nfs { environment: Vec<NfsCheckInfo> },
    Pop3 { environment: Vec<PopCheckInfo> },
    Pop3s { environment: Vec<PopCheckInfo> },
    PostgreSql { environment: Vec<SqlCheckInfo> },
    Rdp { environment: Option<String> },
    Smb { environment: Vec<SmbCheckInfo> },
    Smtp { environment: Vec<SmtpCheckInfo> },
    Smtps { environment: Vec<SmtpCheckInfo> },
    Ssh { environment: Vec<RemoteCommandCheckInfo> },
    Vnc { environment: Option<String> },
    WinRm { environment: Vec<RemoteCommandCheckInfo> },
    Wordpress { environment: Vec<HttpCheckInfo> },
}

/// Mathematical value of a [`ServiceDefinition`].
#[verifier::ext_equal]
pub enum ServiceDefinitionView {
    Dns { environment: Seq<DnsCheckInfoView> },
    Docker { environment: Seq<DockerCheckInfoView> },
    Elasticsearch { environment: Seq<ElasticsearchCheckInfoView> },
    Ftp { environment: Seq<FtpCheckInfoView> },
    Http { environment: Seq<HttpCheckInfoView> },
    Https { environment: Seq<HttpCheckInfoView> },
    Icmp { environment: Option<Seq<char>> },
    Imap { environment: Seq<ImapCheckInfoView> },
    Imaps { environment: Seq<ImapCheckInfoView> },
    Ldap { environment: Seq<LdapCheckInfoView> },
    Mssql { environment: Seq<SqlCheckInfoView> },
    Mysql { environment: Seq<SqlCheckInfoView> },
    Nfs { environment: Seq<NfsCheckInfoView> },
    Pop3 { environment: Seq<PopCheckInfoView> },
    Pop3s { environment: Seq<PopCheckInfoView> },
    PostgreSql { environment: Seq<SqlCheckInfoView> },
    Rdp { environment: Option<Seq<char>> },
    Smb { environment: Seq<SmbCheckInfoView> },
    Smtp { environment: Seq<SmtpCheckInfoView> },
    Smtps { environment: Seq<SmtpCheckInfoView> },
    Ssh { environment: Seq<RemoteCommandCheckInfoView> },
    Vnc { environment: Option<Seq<char>> },
    WinRm { environment: Seq<RemoteCommandCheckInfoView> },
    Wordpress { environment: Seq<HttpCheckInfoView> },
}

impl DeepView for ServiceDefinition {
    type V = ServiceDefinitionView;

    open spec fn deep_view(&self) -> ServiceDefinitionView {
        match self {
            ServiceDefinition::Dns { environment } => ServiceDefinitionView::Dns { environment: environment.deep_view() },
            ServiceDefinition::Docker { environment } => ServiceDefinitionView::Docker { environment: environment.deep_view() },
            ServiceDefinition::Elasticsearch { environment } => ServiceDefinitionView::Elasticsearch { environment: environment.deep_view() },
            ServiceDefinition::Ftp { environment } => ServiceDefinitionView::Ftp { environment: environment.deep_view() },
            ServiceDefinition::Http { environment } => ServiceDefinitionView::Http { environment: environment.deep_view() },
            ServiceDefinition::Https { environment } => ServiceDefinitionView::Https { environment: environment.deep_view() },
            ServiceDefinition::Icmp { environment } => ServiceDefinitionView::Icmp { environment: environment.deep_view() },
            ServiceDefinition::Imap { environment } => ServiceDefinitionView::Imap { environment: environment.deep_view() },
            ServiceDefinition::Imaps { environment } => ServiceDefinitionView::Imaps { environment: environment.deep_view() },
            ServiceDefinition::Ldap { environment } => ServiceDefinitionView::Ldap { environment: environment.deep_view() },
            ServiceDefinition::Mssql { environment } => ServiceDefinitionView::Mssql { environment: environment.deep_view() },
            ServiceDefinition::Mysql { environment } => ServiceDefinitionView::Mysql { environment: environment.deep_view() },
            ServiceDefinition::Nfs { environment } => ServiceDefinitionView::Nfs { environment: environment.deep_view() },
            ServiceDefinition::Pop3 { environment } => ServiceDefinitionView::Pop3 { environment: environment.deep_view() },
            ServiceDefinition::Pop3s { environment } => ServiceDefinitionView::Pop3s { environment: environment.deep_view() },
            ServiceDefinition::PostgreSql { environment } => ServiceDefinitionView::PostgreSql { environment: environment.deep_view() },
            ServiceDefinition::Rdp { environment } => ServiceDefinitionView::Rdp { environment: environment.deep_view() },
            ServiceDefinition::Smb { environment } => ServiceDefinitionView::Smb { environment: environment.deep_view() },
            ServiceDefinition::Smtp { environment } => ServiceDefinitionView::Smtp { environment: environment.deep_view() },
            ServiceDefinition::Smtps { environment } => ServiceDefinitionView::Smtps { environment: environment.deep_view() },
            ServiceDefinition::Ssh { environment } => ServiceDefinitionView::Ssh { environment: environment.deep_view() },
            ServiceDefinition::Vnc { environment } => ServiceDefinitionView::Vnc { environment: environment.deep_view() },
            ServiceDefinition::WinRm { environment } => ServiceDefinitionView::WinRm { environment: environment.deep_view() },
            ServiceDefinition::Wordpress { environment } => ServiceDefinitionView::Wordpress { environment: environment.deep_view() },
        }
    }
}

/// Copies every DNS record of a list.
pub fn dup_dns_records(v: &Vec<DnsCheckInfo>) -> (r: Vec<DnsCheckInfo>)
    ensures
        r@ == v@,
{
    let mut r: Vec<DnsCheckInfo> = Vec::new();
    let mut i: usize = 0;
    while i < v.len()
        invariant
            i <= v.len(),
            r@ =~= v@.subrange(0, i as int),
        decreases v.len() - i,
    {
        r.push(v[i].duplicate());
        i += 1;
    }
    assert(r@ =~= v@);
    r
}

/// Copies every Docker record of a list.
pub fn dup_docker_records(v: &Vec<DockerCheckInfo>) -> (r: Vec<DockerCheckInfo>)
    ensures
        r@ == v@,
{
    let mut r: Vec<DockerCheckInfo> = Vec::new();
    let mut i: usize = 0;
    while i < v.len()
        invariant
            i <= v.len(),
            r@ =~= v@.subrange(0, i as int),
        decreases v.len() - i,
    {
        r.push(v[i].duplicate());
        i += 1;
    }
    assert(r@ =~= v@);
    r
}

/// Copies every Elasticsearch record of a list.
pub fn dup_elasticsearch_records(v: &Vec<ElasticsearchCheckInfo>) -> (r: Vec<ElasticsearchCheckInfo>)
    ensures
        r@ == v@,
{
    let mut r: Vec<ElasticsearchCheckInfo> = Vec::new();
    let mut i: usize = 0;
    while i < v.len()
        invariant
            i <= v.len(),
            r@ =~= v@.subrange(0, i as int),
        decreases v.len() - i,
    {
        r.push(v[i].duplicate());
        i += 1;
    }
    assert(r@ =~= v@);
    r
}

/// Copies every FTP record of a list.
pub fn dup_ftp_records(v: &Vec<FtpCheckInfo>) -> (r: Vec<FtpCheckInfo>)
    ensures
        r@ == v@,
{
    let mut r: Vec<FtpCheckInfo> = Vec::new();
    let mut i: usize = 0;
    while i < v.len()
        invariant
            i <= v.len(),
            r@ =~= v@.subrange(0, i as int),
        decreases v.len() - i,
    {
        r.push(v[i].duplicate());
        i += 1;
    }
    assert(r@ =~= v@);
    r
}

/// Copies every HTTP-family record of a list.
pub fn dup_http_records(v: &Vec<HttpCheckInfo>) -> (r: Vec<HttpCheckInfo>)
    ensures
        r@ == v@,
{
    let mut r: Vec<HttpCheckInfo> = Vec::new();
    let mut i: usize = 0;
    while i < v.len()
        invariant
            i <= v.len(),
            r@ =~= v@.subrange(0, i as int),
        decreases v.len() - i,
    {
        r.push(v[i].duplicate());
        i += 1;
    }
    assert(r@ =~= v@);
    r
}

/// Copies every IMAP-family record of a list.
pub fn dup_imap_records(v: &Vec<ImapCheckInfo>) -> (r: Vec<ImapCheckInfo>)
    ensures
        r@ == v@,
{
    let mut r: Vec<ImapCheckInfo> = Vec::new();
    let mut i: usize = 0;
    while i < v.len()
        invariant
            i <= v.len(),
            r@ =~= v@.subrange(0, i as int),
        decreases v.len() - i,
    {
        r.push(v[i].duplicate());
        i += 1;
    }
    assert(r@ =~= v@);
    r
}

/// Copies every LDAP record of a list.
pub fn dup_ldap_records(v: &Vec<LdapCheckInfo>) -> (r: Vec<LdapCheckInfo>)
    ensures
        r@ == v@,
{
    let mut r: Vec<LdapCheckInfo> = Vec::new();
    let mut i: usize = 0;
    while i < v.len()
        invariant
            i <= v.len(),
            r@ =~= v@.subrange(0, i as int),
        decreases v.len() - i,
    {
        r.push(v[i].duplicate());
        i += 1;
    }
    assert(r@ =~= v@);
    r
}

/// Copies every SQL-family record of a list.
pub fn dup_sql_records(v: &Vec<SqlCheckInfo>) -> (r: Vec<SqlCheckInfo>)
    ensures
        r@ == v@,
{
    let mut r: Vec<SqlCheckInfo> = Vec::new();
    let mut i: usize = 0;
    while i < v.len()
        invariant
            i <= v.len(),
            r@ =~= v@.subrange(0, i as int),
        decreases v.len() - i,
    {
        r.push(v[i].duplicate());
        i += 1;
    }
    assert(r@ =~= v@);
    r
}

/// Copies every NFS record of a list.
pub fn dup_nfs_records(v: &Vec<NfsCheckInfo>) -> (r: Vec<NfsCheckInfo>)
    ensures
        r@ == v@,
{
    let mut r: Vec<NfsCheckInfo> = Vec::new();
    let mut i: usize = 0;
    while i < v.len()
        invariant
            i <= v.len(),
            r@ =~= v@.subrange(0, i as int),
        decreases v.len() - i,
    {
        r.push(v[i].duplicate());
        i += 1;
    }
    assert(r@ =~= v@);
    r
}

/// Copies every POP3-family record of a list.
pub fn dup_pop_records(v: &Vec<PopCheckInfo>) -> (r: Vec<PopCheckInfo>)
    ensures
        r@ == v@,
{
    let mut r: Vec<PopCheckInfo> = Vec::new();
    let mut i: usize = 0;
    while i < v.len()
        invariant
            i <= v.len(),
            r@ =~= v@.subrange(0, i as int),
        decreases v.len() - i,
    {
        r.push(v[i].duplicate());
        i += 1;
    }
    assert(r@ =~= v@);
    r
}

/// Copies every SMB record of a list.
pub fn dup_smb_records(v: &Vec<SmbCheckInfo>) -> (r: Vec<SmbCheckInfo>)
    ensures
        r@ == v@,
{
    let mut r: Vec<SmbCheckInfo> = Vec::new();
    let mut i: usize = 0;
    while i < v.len()
        invariant
            i <= v.len(),
            r@ =~= v@.subrange(0, i as int),
        decreases v.len() - i,
    {
        r.push(v[i].duplicate());
        i += 1;
    }
    assert(r@ =~= v@);
    r
}

/// Copies every SMTP-family record of a list.
pub fn dup_smtp_records(v: &Vec<SmtpCheckInfo>) -> (r: Vec<SmtpCheckInfo>)
    ensures
        r@ == v@,
{
    let mut r: Vec<SmtpCheckInfo> = Vec::new();
    let mut i: usize = 0;
    while i < v.len()
        invariant
            i <= v.len(),
            r@ =~= v@.subrange(0, i as int),
        decreases v.len() - i,
    {
        r.push(v[i].duplicate());
        i += 1;
    }
    assert(r@ =~= v@);
    r
}

/// Copies every command-execution record of a list.
pub fn dup_remote_command_records(v: &Vec<RemoteCommandCheckInfo>) -> (r: Vec<RemoteCommandCheckInfo>)
    ensures
        r@ == v@,
{
    let mut r: Vec<RemoteCommandCheckInfo> = Vec::new();
    let mut i: usize = 0;
    while i < v.len()
        invariant
            i <= v.len(),
            r@ =~= v@.subrange(0, i as int),
        decreases v.len() - i,
    {
        r.push(v[i].duplicate());
        i += 1;
    }
    assert(r@ =~= v@);
    r
}

/// Copies an optional matcher string.
pub fn dup_matcher(v: &Option<String>) -> (r: Option<String>)
    ensures
        r == *v,
{
    match v {
        Some(s) => Some(s.clone()),
        None => None,
    }
}

impl ServiceDefinition {
    /// An owned copy with the same value.
    pub fn duplicate(&self) -> (r: Self)
        ensures
            r.deep_view() == self.deep_view(),
    {
        match self {
            ServiceDefinition::Dns { environment } => ServiceDefinition::Dns { environment: dup_dns_records(environment) },
            ServiceDefinition::Docker { environment } => ServiceDefinition::Docker { environment: dup_docker_records(environment) },
            ServiceDefinition::Elasticsearch { environment } => ServiceDefinition::Elasticsearch { environment: dup_elasticsearch_records(environment) },
            ServiceDefinition::Ftp { environment } => ServiceDefinition::Ftp { environment: dup_ftp_records(environment) },
            ServiceDefinition::Http { environment } => ServiceDefinition::Http { environment: dup_http_records(environment) },
            ServiceDefinition::Https { environment } => ServiceDefinition::Https { environment: dup_http_records(environment) },
            ServiceDefinition::Icmp { environment } => ServiceDefinition::Icmp { environment: dup_matcher(environment) },
            ServiceDefinition::Imap { environment } => ServiceDefinition::Imap { environment: dup_imap_records(environment) },
            ServiceDefinition::Imaps { environment } => ServiceDefinition::Imaps { environment: dup_imap_records(environment) },
            ServiceDefinition::Ldap { environment } => ServiceDefinition::Ldap { environment: dup_ldap_records(environment) },
            ServiceDefinition::Mssql { environment } => ServiceDefinition::Mssql { environment: dup_sql_records(environment) },
            ServiceDefinition::Mysql { environment } => ServiceDefinition::Mysql { environment: dup_sql_records(environment) },
            ServiceDefinition::Nfs { environment } => ServiceDefinition::Nfs { environment: dup_nfs_records(environment) },
            ServiceDefinition::Pop3 { environment } => ServiceDefinition::Pop3 { environment: dup_pop_records(environment) },
            ServiceDefinition::Pop3s { environment } => ServiceDefinition::Pop3s { environment: dup_pop_records(environment) },
            ServiceDefinition::PostgreSql { environment } => ServiceDefinition::PostgreSql { environment: dup_sql_records(environment) },
            ServiceDefinition::Rdp { environment } => ServiceDefinition::Rdp { environment: dup_matcher(environment) },
            ServiceDefinition::Smb { environment } => ServiceDefinition::Smb { environment: dup_smb_records(environment) },
            ServiceDefinition::Smtp { environment } => ServiceDefinition::Smtp { environment: dup_smtp_records(environment) },
            ServiceDefinition::Smtps { environment } => ServiceDefinition::Smtps { environment: dup_smtp_records(environment) },
            ServiceDefinition::Ssh { environment } => ServiceDefinition::Ssh { environment: dup_remote_command_records(environment) },
            ServiceDefinition::Vnc { environment } => ServiceDefinition::Vnc { environment: dup_matcher(environment) },
            ServiceDefinition::WinRm { environment } => ServiceDefinition::WinRm { environment: dup_remote_command_records(environment) },
            ServiceDefinition::Wordpress { environment } => ServiceDefinition::Wordpress { environment: dup_http_records(environment) },
        }
    }
}

/// What validating one user against the credential rule yields: the user
/// itself, or the rejection recorded with the given context.
pub open spec fn validate_user_spec(u: UserView, place: Seq<char>) -> Result<UserView, ConversionErrorView> {
    if u.username.len() == 0 || u.password.len() == 0 {
        Err(ConversionErrorView::EmptyUsernameOrPassword(place, u.username))
    } else {
        Ok(u)
    }
}

/// What validating a list of users against the credential rule yields, from
/// `i` on: the users unchanged, or the first rejection, recorded with the
/// given context.
pub open spec fn validate_users_spec(users: Seq<UserView>, place: Seq<char>, i: int) -> Result<
    Seq<UserView>,
    ConversionErrorView,
>
    decreases users.len() - i,
{
    if i < 0 || i >= users.len() {
        Ok(Seq::empty())
    } else {
        match validate_user_spec(users[i], place) {
            Err(e) => Err(e),
            Ok(u) => match validate_users_spec(users, place, i + 1) {
                Err(e) => Err(e),
                Ok(rest) => Ok(seq![u] + rest),
            },
        }
    }
}

impl User {
    /// Checks the credential rule: both the username and the password must be
    /// non-empty. `where_` names the enclosing team or service for the
    /// diagnostic.
    pub fn validate(self, where_: String) -> (r: Result<User, ConversionError>)
        ensures
            r matches Ok(u) ==> u == self,
            r matches Ok(u) ==> validate_user_spec(self.deep_view(), where_@) == Ok::<UserView, ConversionErrorView>(self.deep_view()),
            r matches Err(e) ==> validate_user_spec(self.deep_view(), where_@) == Err::<UserView, ConversionErrorView>(e.deep_view()),
            r is Ok <==> validate_user_spec(self.deep_view(), where_@) is Ok,
    {
        if self.username.as_str().is_empty() || self.password.as_str().is_empty() {
            return Err(ConversionError::EmptyUsernameOrPassword(where_, self.username));
        }

        Ok(self)
    }

    /// An owned copy with the same value.
    pub fn duplicate(&self) -> (r: User)
        ensures
            r == *self,
    {
        User { username: self.username.clone(), password: self.password.clone() }
    }
}

/// Copies every user of a list.
pub fn dup_users(v: &Vec<User>) -> (r: Vec<User>)
    ensures
        r@ == v@,
{
    let mut r: Vec<User> = Vec::new();
    let mut i: usize = 0;
    while i < v.len()
        invariant
            i <= v.len(),
            r@ =~= v@.subrange(0, i as int),
        decreases v.len() - i,
    {
        r.push(v[i].duplicate());
        i += 1;
    }
    assert(r@ =~= v@);
    r
}

/// Copies an optional list of per-service accounts.
pub fn dup_accounts(v: &Option<Vec<User>>) -> (r: Option<Vec<User>>)
    ensures
        r.deep_view() == v.deep_view(),
{
    match v {
        Some(users) => Some(dup_users(users)),
        None => None,
    }
}

/// One service as drafted in the editor: identity, scoring weight, optional
/// dedicated accounts, and the kind-specific check definition.
#[derive(Debug, PartialEq, Eq, Clone)]
pub struct ServiceEditor {
    pub name: String,
    pub port: u16,
    pub points: u16,
    pub definition: ServiceDefinition,
    pub accounts: Option<Vec<User>>,
}

/// Mathematical value of a [`ServiceEditor`].
#[verifier::ext_equal]
pub struct ServiceEditorView {
    pub name: Seq<char>,
    pub port: u16,
    pub points: u16,
    pub definition: ServiceDefinitionView,
    pub accounts: Option<Seq<UserView>>,
}

impl DeepView for ServiceEditor {
    type V = ServiceEditorView;

    open spec fn deep_view(&self) -> ServiceEditorView {
        ServiceEditorView {
            name: self.name@,
            port: self.port,
            points: self.points,
            definition: self.definition.deep_view(),
            accounts: self.accounts.deep_view(),
        }
    }
}

impl ServiceEditor {
    /// An owned copy with the same value.
    pub fn duplicate(&self) -> (r: Self)
        ensures
            r.deep_view() == self.deep_view(),
    {
        ServiceEditor {
            name: self.name.clone(),
            port: self.port,
            points: self.points,
            definition: self.definition.duplicate(),
            accounts: dup_accounts(&self.accounts),
        }
    }
}

/// How a machine's address template and a blue team's identifier are turned
/// into a concrete host address.
#[derive(Debug, PartialEq, Eq, Clone)]
pub enum IpGeneratorScheme {
    /// The template is already a full literal address; only sound with a
    /// single blue team.
    OneTeam,
    /// Every placeholder letter of the template is replaced by the decimal
    /// digits of the team identifier.
    ReplaceXWithId,
    /// Every placeholder letter is replaced by the decimal digits of
    /// `multiplier * id + offset`, computed in wrapping eight-bit arithmetic.
    ReplaceXWithIdTimesMultiplierPlusOffset { multiplier: u8 },
}

impl DeepView for IpGeneratorScheme {
    type V = IpGeneratorScheme;

    open spec fn deep_view(&self) -> IpGeneratorScheme {
        *self
    }
}

impl IpGeneratorScheme {
    /// An owned copy with the same value.
    pub fn duplicate(&self) -> (r: Self)
        ensures
            r == *self,
    {
        match self {
            IpGeneratorScheme::OneTeam => IpGeneratorScheme::OneTeam,
            IpGeneratorScheme::ReplaceXWithId => IpGeneratorScheme::ReplaceXWithId,
            IpGeneratorScheme::ReplaceXWithIdTimesMultiplierPlusOffset { multiplier } => {
                IpGeneratorScheme::ReplaceXWithIdTimesMultiplierPlusOffset { multiplier: *multiplier }
            },
        }
    }
}

/// A red or white team as drafted in the editor.
#[derive(Debug, PartialEq, Eq, Clone)]
pub struct RedWhiteTeamEditor {
    pub name: String,
    pub users: Vec<User>,
    pub white_team: bool,
}

/// Mathematical value of a [`RedWhiteTeamEditor`].
#[verifier::ext_equal]
pub struct RedWhiteTeamEditorView {
    pub name: Seq<char>,
    pub users: Seq<UserView>,
    pub white_team: bool,
}

impl DeepView for RedWhiteTeamEditor {
    type V = RedWhiteTeamEditorView;

    open spec fn deep_view(&self) -> RedWhiteTeamEditorView {
        RedWhiteTeamEditorView {
            name: self.name@,
            users: self.users.deep_view(),
            white_team: self.white_team,
        }
    }
}

impl RedWhiteTeamEditor {
    /// An owned copy with the same value.
    pub fn duplicate(&self) -> (r: Self)
        ensures
            r.deep_view() == self.deep_view(),
    {
        RedWhiteTeamEditor {
            name: self.name.clone(),
            users: dup_users(&self.users),
            white_team: self.white_team,
        }
    }
}

/// A blue team as drafted in the editor. The identifier may still be zero or
/// duplicated while editing; conversion rejects both.
#[derive(Debug, PartialEq, Eq, Clone)]
pub struct BlueTeamEditor {
    pub id: u8,
    pub name: String,
    pub users: Vec<User>,
}

/// Mathematical value of a [`BlueTeamEditor`].
#[verifier::ext_equal]
pub struct BlueTeamEditorView {
    pub id: u8,
    pub name: Seq<char>,
    pub users: Seq<UserView>,
}

impl DeepView for BlueTeamEditor {
    type V = BlueTeamEditorView;

    open spec fn deep_view(&self) -> BlueTeamEditorView {
        BlueTeamEditorView { id: self.id, name: self.name@, users: self.users.deep_view() }
    }
}

impl BlueTeamEditor {
    /// An owned copy with the same value.
    pub fn duplicate(&self) -> (r: Self)
        ensures
            r.deep_view() == self.deep_view(),
    {
        BlueTeamEditor { id: self.id, name: self.name.clone(), users: dup_users(&self.users) }
    }
}

/// A machine as drafted in the editor: its services, its address template and
/// its optional address offset.
#[derive(Debug, PartialEq, Eq, Clone)]
pub struct MachineEditor {
    pub name: String,
    pub services: Vec<ServiceEditor>,
    pub ip_template: String,
    pub ip_offset: Option<u8>,
}

/// Mathematical value of a [`MachineEditor`].
#[verifier::ext_equal]
pub struct MachineEditorView {
    pub name: Seq<char>,
    pub services: Seq<ServiceEditorView>,
    pub ip_template: Seq<char>,
    pub ip_offset: Option<u8>,
}

impl DeepView for MachineEditor {
    type V = MachineEditorView;

    open spec fn deep_view(&self) -> MachineEditorView {
        MachineEditorView {
            name: self.name@,
            services: self.services.deep_view(),
            ip_template: self.ip_template@,
            ip_offset: self.ip_offset,
        }
    }
}

/// Copies every service draft of a list.
pub fn dup_services(v: &Vec<ServiceEditor>) -> (r: Vec<ServiceEditor>)
    ensures
        r.deep_view() == v.deep_view(),
{
    let mut r: Vec<ServiceEditor> = Vec::new();
    let mut i: usize = 0;
    while i < v.len()
        invariant
            i <= v.len(),
            r.deep_view() =~~= v.deep_view().subrange(0, i as int),
        decreases v.len() - i,
    {
        let ghost prev = r.deep_view();
        let d = v[i].duplicate();
        r.push(d);
        proof {
            assert(r@.len() == prev.len() + 1);
            assert forall|j: int| 0 <= j < r@.len() implies r.deep_view()[j]
                == v.deep_view().subrange(0, i + 1 as int)[j] by {
                if j < i as int {
                    assert(r.deep_view()[j] == prev[j]);
                } else {
                    assert(r.deep_view()[j] == r@[j].deep_view());
                }
            }
            assert(r.deep_view() =~= v.deep_view().subrange(0, i + 1 as int));
        }
        i += 1;
    }
    assert(r.deep_view() =~= v.deep_view());
    r
}

impl MachineEditor {
    /// An owned copy with the same value.
    pub fn duplicate(&self) -> (r: Self)
        ensures
            r.deep_view() == self.deep_view(),
    {
        MachineEditor {
            name: self.name.clone(),
            services: dup_services(&self.services),
            ip_template: self.ip_template.clone(),
            ip_offset: self.ip_offset,
        }
    }
}

/// The whole editor document: the mutable, human-authored configuration that
/// conversion validates and resolves.
#[derive(Debug, PartialEq, Eq, Clone)]
pub struct ConfigurationEditor {
    pub red_white_teams: Vec<RedWhiteTeamEditor>,
    pub blue_teams: Vec<BlueTeamEditor>,
    pub machines: Vec<MachineEditor>,
    pub ip_generator: IpGeneratorScheme,
}

/// Mathematical value of a [`ConfigurationEditor`].
#[verifier::ext_equal]
pub struct ConfigurationEditorView {
    pub red_white_teams: Seq<RedWhiteTeamEditorView>,
    pub blue_teams: Seq<BlueTeamEditorView>,
    pub machines: Seq<MachineEditorView>,
    pub ip_generator: IpGeneratorScheme,
}

impl DeepView for ConfigurationEditor {
    type V = ConfigurationEditorView;

    open spec fn deep_view(&self) -> ConfigurationEditorView {
        ConfigurationEditorView {
            red_white_teams: self.red_white_teams.deep_view(),
            blue_teams: self.blue_teams.deep_view(),
            machines: self.machines.deep_view(),
            ip_generator: self.ip_generator,
        }
    }
}

/// Copies every red or white team draft of a list.
pub fn dup_red_white_teams(v: &Vec<RedWhiteTeamEditor>) -> (r: Vec<RedWhiteTeamEditor>)
    ensures
        r.deep_view() == v.deep_view(),
{
    let mut r: Vec<RedWhiteTeamEditor> = Vec::new();
    let mut i: usize = 0;
    while i < v.len()
        invariant
            i <= v.len(),
            r.deep_view() =~~= v.deep_view().subrange(0, i as int),
        decreases v.len() - i,
    {
        let ghost prev = r.deep_view();
        let d = v[i].duplicate();
        r.push(d);
        proof {
            assert(r@.len() == prev.len() + 1);
            assert forall|j: int| 0 <= j < r@.len() implies r.deep_view()[j]
                == v.deep_view().subrange(0, i + 1 as int)[j] by {
                if j < i as int {
                    assert(r.deep_view()[j] == prev[j]);
                } else {
                    assert(r.deep_view()[j] == r@[j].deep_view());
                }
            }
            assert(r.deep_view() =~= v.deep_view().subrange(0, i + 1 as int));
        }
        i += 1;
    }
    assert(r.deep_view() =~= v.deep_view());
    r
}

/// Copies every blue team draft of a list.
pub fn dup_blue_teams(v: &Vec<BlueTeamEditor>) -> (r: Vec<BlueTeamEditor>)
    ensures
        r.deep_view() == v.deep_view(),
{
    let mut r: Vec<BlueTeamEditor> = Vec::new();
    let mut i: usize = 0;
    while i < v.len()
        invariant
            i <= v.len(),
            r.deep_view() =~~= v.deep_view().subrange(0, i as int),
        decreases v.len() - i,
    {
        let ghost prev = r.deep_view();
        let d = v[i].duplicate();
        r.push(d);
        proof {
            assert(r@.len() == prev.len() + 1);
            assert forall|j: int| 0 <= j < r@.len() implies r.deep_view()[j]
                == v.deep_view().subrange(0, i + 1 as int)[j] by {
                if j < i as int {
                    assert(r.deep_view()[j] == prev[j]);
                } else {
                    assert(r.deep_view()[j] == r@[j].deep_view());
                }
            }
            assert(r.deep_view() =~= v.deep_view().subrange(0, i + 1 as int));
        }
        i += 1;
    }
    assert(r.deep_view() =~= v.deep_view());
    r
}

/// Copies every machine draft of a list.
pub fn dup_machines(v: &Vec<MachineEditor>) -> (r: Vec<MachineEditor>)
    ensures
        r.deep_view() == v.deep_view(),
{
    let mut r: Vec<MachineEditor> = Vec::new();
    let mut i: usize = 0;
    while i < v.len()
        invariant
            i <= v.len(),
            r.deep_view() =~~= v.deep_view().subrange(0, i as int),
        decreases v.len() - i,
    {
        let ghost prev = r.deep_view();
        let d = v[i].duplicate();
        r.push(d);
        proof {
            assert(r@.len() == prev.len() + 1);
            assert forall|j: int| 0 <= j < r@.len() implies r.deep_view()[j]
                == v.deep_view().subrange(0, i + 1 as int)[j] by {
                if j < i as int {
                    assert(r.deep_view()[j] == prev[j]);
                } else {
                    assert(r.deep_view()[j] == r@[j].deep_view());
                }
            }
            assert(r.deep_view() =~= v.deep_view().subrange(0, i + 1 as int));
        }
        i += 1;
    }
    assert(r.deep_view() =~= v.deep_view());
    r
}

impl ConfigurationEditor {
    /// An owned copy with the same value.
    pub fn duplicate(&self) -> (r: Self)
        ensures
            r.deep_view() == self.deep_view(),
    {
        ConfigurationEditor {
            red_white_teams: dup_red_white_teams(&self.red_white_teams),
            blue_teams: dup_blue_teams(&self.blue_teams),
            machines: dup_machines(&self.machines),
            ip_generator: self.ip_generator.duplicate(),
        }
    }
}

/// The colour of a team.
#[derive(Debug, PartialEq, Eq, Clone, Copy)]
pub enum TeamColor {
    White,
    Red,
    Blue,
}

/// One property handed to the scoring engine's prober with an environment.
#[derive(Debug, PartialEq, Eq, Clone)]
pub struct EnvironmentProperties {
    pub name: String,
    pub value: String,
}

/// Mathematical value of an [`EnvironmentProperties`].
#[verifier::ext_equal]
pub struct EnvironmentPropertiesView {
    pub name: Seq<char>,
    pub value: Seq<char>,
}

impl DeepView for EnvironmentProperties {
    type V = EnvironmentPropertiesView;

    open spec fn deep_view(&self) -> EnvironmentPropertiesView {
        EnvironmentPropertiesView { name: self.name@, value: self.value@ }
    }
}

/// A derived, validated check record ready for the scoring engine's prober.
#[derive(Debug, PartialEq, Eq, Clone)]
pub struct Environment {
    pub matching_content: String,
    pub properties: Vec<EnvironmentProperties>,
}

/// Mathematical value of an [`Environment`].
#[verifier::ext_equal]
pub struct EnvironmentView {
    pub matching_content: Seq<char>,
    pub properties: Seq<EnvironmentPropertiesView>,
}

impl DeepView for Environment {
    type V = EnvironmentView;

    open spec fn deep_view(&self) -> EnvironmentView {
        EnvironmentView {
            matching_content: self.matching_content@,
            properties: self.properties.deep_view(),
        }
    }
}

/// One fully resolved service of the final document.
#[derive(Debug, PartialEq, Eq, Clone)]
pub struct ServiceConfig {
    pub name: String,
    pub check_name: String,
    pub host: String,
    pub port: u16,
    pub points: u16,
    pub accounts: Option<Vec<User>>,
    pub environments: Vec<Environment>,
}

/// Mathematical value of a [`ServiceConfig`].
#[verifier::ext_equal]
pub struct ServiceConfigView {
    pub name: Seq<char>,
    pub check_name: Seq<char>,
    pub host: Seq<char>,
    pub port: u16,
    pub points: u16,
    pub accounts: Option<Seq<UserView>>,
    pub environments: Seq<EnvironmentView>,
}

impl DeepView for ServiceConfig {
    type V = ServiceConfigView;

    open spec fn deep_view(&self) -> ServiceConfigView {
        ServiceConfigView {
            name: self.name@,
            check_name: self.check_name@,
            host: self.host@,
            port: self.port,
            points: self.points,
            accounts: self.accounts.deep_view(),
            environments: self.environments.deep_view(),
        }
    }
}

/// One team of the final document, tagged with its colour. Blue teams carry
/// their resolved services.
#[derive(Debug, PartialEq, Eq, Clone)]
pub enum TeamConfig {
    Red { name: String, users: Vec<User> },
    White { name: String, users: Vec<User> },
    Blue { name: String, users: Vec<User>, services: Vec<ServiceConfig> },
}

/// Mathematical value of a [`TeamConfig`].
#[verifier::ext_equal]
pub enum TeamConfigView {
    Red { name: Seq<char>, users: Seq<UserView> },
    White { name: Seq<char>, users: Seq<UserView> },
    Blue { name: Seq<char>, users: Seq<UserView>, services: Seq<ServiceConfigView> },
}

impl DeepView for TeamConfig {
    type V = TeamConfigView;

    open spec fn deep_view(&self) -> TeamConfigView {
        match self {
            TeamConfig::Red { name, users } => TeamConfigView::Red {
                name: name@,
                users: users.deep_view(),
            },
            TeamConfig::White { name, users } => TeamConfigView::White {
                name: name@,
                users: users.deep_view(),
            },
            TeamConfig::Blue { name, users, services } => TeamConfigView::Blue {
                name: name@,
                users: users.deep_view(),
                services: services.deep_view(),
            },
        }
    }
}

/// The fully resolved document consumed downstream by the scoring engine.
#[derive(Debug, PartialEq, Eq, Clone)]
pub struct FinalConfiguration {
    pub teams: Vec<TeamConfig>,
}

/// Mathematical value of a [`FinalConfiguration`].
#[verifier::ext_equal]
pub struct FinalConfigurationView {
    pub teams: Seq<TeamConfigView>,
}

impl DeepView for FinalConfiguration {
    type V = FinalConfigurationView;

    open spec fn deep_view(&self) -> FinalConfigurationView {
        FinalConfigurationView { teams: self.teams.deep_view() }
    }
}

/// An editor document bundled with an already resolved team list.
#[derive(Debug, PartialEq, Eq, Clone)]
pub struct Configuration {
    pub editor_info: ConfigurationEditor,
    pub teams: Vec<TeamConfig>,
}

/// Mathematical value of a [`Configuration`].
#[verifier::ext_equal]
pub struct ConfigurationView {
    pub editor_info: ConfigurationEditorView,
    pub teams: Seq<TeamConfigView>,
}

impl DeepView for Configuration {
    type V = ConfigurationView;

    open spec fn deep_view(&self) -> ConfigurationView {
        ConfigurationView {
            editor_info: self.editor_info.deep_view(),
            teams: self.teams.deep_view(),
        }
    }
}

} // verus!
