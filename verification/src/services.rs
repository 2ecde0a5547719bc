//! Per-kind service definition validation and derivation of the environments
//! handed to the scoring engine's prober.
//!
//! Every check-record-bearing kind reduces each of its records to one
//! [`CheckRecord`]: the matching content, the list of violated rules (in rule
//! order), and the derived property list (in field order). One shared routine
//! then either emits one [`Environment`] per record or rejects the whole
//! service with the joined violation messages of its first invalid record.

use vstd::prelude::*;

use crate::model::{
    ConversionError, ConversionErrorView, DnsCheckInfo, DnsCheckInfoView, ElasticsearchCheckInfo,
    ElasticsearchCheckInfoView, Environment, EnvironmentProperties, EnvironmentPropertiesView,
    EnvironmentView, FtpCheckInfo, FtpCheckInfoView, HttpCheckInfo, HttpCheckInfoView,
    ImapCheckInfo, ImapCheckInfoView, LdapCheckInfo, LdapCheckInfoView, NfsCheckInfo,
    NfsCheckInfoView, PopCheckInfo, PopCheckInfoView, RemoteCommandCheckInfo,
    RemoteCommandCheckInfoView, ServiceDefinition, ServiceDefinitionView, SmbCheckInfo,
    SmbCheckInfoView, SmtpCheckInfo, SmtpCheckInfoView, SqlCheckInfo, SqlCheckInfoView,
};
use crate::text::{comma_join, join_comma, seq_contains_char, str_contains_char};

verus! {

/// One check record reduced to the common shape every kind shares: its
/// matching content, the messages of the rules it breaks, and the properties
/// it contributes on success.
pub struct CheckRecord {
    pub matching_content: String,
    pub violations: Vec<String>,
    pub properties: Vec<EnvironmentProperties>,
}

/// Mathematical value of a [`CheckRecord`].
#[verifier::ext_equal]
pub struct CheckRecordView {
    pub matching_content: Seq<char>,
    pub violations: Seq<Seq<char>>,
    pub properties: Seq<EnvironmentPropertiesView>,
}

impl DeepView for CheckRecord {
    type V = CheckRecordView;

    open spec fn deep_view(&self) -> CheckRecordView {
        CheckRecordView {
            matching_content: self.matching_content@,
            violations: self.violations.deep_view(),
            properties: self.properties.deep_view(),
        }
    }
}

/// The message, as a singleton list, if the value is empty; nothing otherwise.
pub open spec fn empty_rule(value: Seq<char>, msg: Seq<char>) -> Seq<Seq<char>> {
    if value.len() == 0 {
        seq![msg]
    } else {
        seq![]
    }
}

/// The environment a valid check record turns into.
pub open spec fn env_of_record(r: CheckRecordView) -> EnvironmentView {
    EnvironmentView { matching_content: r.matching_content, properties: r.properties }
}

/// The position of the first record that breaks a rule, from `i` on.
pub open spec fn first_invalid_record(recs: Seq<CheckRecordView>, i: int) -> Option<int>
    decreases recs.len() - i,
{
    if i < 0 || i >= recs.len() {
        None
    } else if recs[i].violations.len() > 0 {
        Some(i)
    } else {
        first_invalid_record(recs, i + 1)
    }
}

/// What deriving environments from reduced records yields: one environment
/// per record, or the rejection naming the machine, the service and the
/// joined messages of the first invalid record.
pub open spec fn environments_of_records_spec(
    recs: Seq<CheckRecordView>,
    machine: Seq<char>,
    service: Seq<char>,
) -> Result<Seq<EnvironmentView>, ConversionErrorView> {
    match first_invalid_record(recs, 0) {
        Some(i) => Err(
            ConversionErrorView::ServiceNotFullyConfigured(
                machine,
                service,
                comma_join(recs[i].violations),
            ),
        ),
        None => Ok(Seq::new(recs.len(), |j: int| env_of_record(recs[j]))),
    }
}

/// Maps [`Result`] values over environments to their mathematical value.
pub open spec fn env_result_view(r: Result<Vec<Environment>, ConversionError>) -> Result<
    Seq<EnvironmentView>,
    ConversionErrorView,
> {
    match r {
        Ok(v) => Ok(v.deep_view()),
        Err(e) => Err(e.deep_view()),
    }
}

/// Derives the environments from reduced records, failing on the first record
/// that breaks a rule.
fn environments_of_records(recs: &Vec<CheckRecord>, machine: &str, service: &str) -> (r: Result<
    Vec<Environment>,
    ConversionError,
>)
    ensures
        env_result_view(r) == environments_of_records_spec(recs.deep_view(), machine@, service@),
{
    let ghost recsv = recs.deep_view();
    let mut out: Vec<Environment> = Vec::new();
    let mut i: usize = 0;
    while i < recs.len()
        invariant
            i <= recs.len(),
            recsv == recs.deep_view(),
            first_invalid_record(recsv, 0) == first_invalid_record(recsv, i as int),
            out.deep_view().len() == i,
            forall|j: int| 0 <= j < i ==> out.deep_view()[j] == env_of_record(recsv[j]),
        decreases recs.len() - i,
    {
        let rec = &recs[i];
        if rec.violations.len() > 0 {
            assert(first_invalid_record(recsv, i as int) == Some(i as int));
            return Err(
                ConversionError::ServiceNotFullyConfigured(
                    machine.to_owned(),
                    service.to_owned(),
                    join_comma(&rec.violations),
                ),
            );
        }
        let ghost prev = out.deep_view();
        out.push(
            Environment {
                matching_content: rec.matching_content.clone(),
                properties: dup_properties(&rec.properties),
            },
        );
        proof {
            assert forall|j: int| 0 <= j < i + 1 implies out.deep_view()[j] == env_of_record(
                recsv[j],
            ) by {
                if j < i as int {
                    assert(out.deep_view()[j] == prev[j]);
                } else {
                    assert(out.deep_view()[j] == out@[j].deep_view());
                }
            }
        }
        i += 1;
    }
    proof {
        assert(out.deep_view() =~~= Seq::new(recsv.len(), |j: int| env_of_record(recsv[j])));
    }
    Ok(out)
}

/// Copies every property of a list.
pub fn dup_properties(v: &Vec<EnvironmentProperties>) -> (r: Vec<EnvironmentProperties>)
    ensures
        r.deep_view() == v.deep_view(),
{
    let mut r: Vec<EnvironmentProperties> = Vec::new();
    let mut i: usize = 0;
    while i < v.len()
        invariant
            i <= v.len(),
            r@ =~= v@.subrange(0, i as int),
        decreases v.len() - i,
    {
        r.push(
            EnvironmentProperties { name: v[i].name.clone(), value: v[i].value.clone() },
        );
        i += 1;
    }
    assert(r@ =~= v@);
    r
}

/// The reduced shape of one DNS record: its rule outcomes and properties.
pub open spec fn dns_check_record(r: DnsCheckInfoView) -> CheckRecordView {
    CheckRecordView {
        matching_content: r.matching_content,
        violations: empty_rule(r.matching_content, "Service match cannot be empty"@)
            + empty_rule(r.qtype, "DNS query type cannot be empty"@)
            + empty_rule(r.domain, "Domain queried cannot be empty"@),
        properties: seq![
            EnvironmentPropertiesView { name: "qtype"@, value: r.qtype },
            EnvironmentPropertiesView { name: "domain"@, value: r.domain },
        ],
    }
}

/// Reduces one DNS record.
fn dns_record(rec: &DnsCheckInfo) -> (r: CheckRecord)
    ensures
        r.deep_view() == dns_check_record(rec.deep_view()),
{
    let mut violations: Vec<String> = Vec::new();
    if rec.matching_content.as_str().is_empty() {
        violations.push(String::from_str("Service match cannot be empty"));
    }
    if rec.qtype.as_str().is_empty() {
        violations.push(String::from_str("DNS query type cannot be empty"));
    }
    if rec.domain.as_str().is_empty() {
        violations.push(String::from_str("Domain queried cannot be empty"));
    }
    let mut properties: Vec<EnvironmentProperties> = Vec::new();
    properties.push(EnvironmentProperties { name: String::from_str("qtype"), value: rec.qtype.clone() });
    properties.push(EnvironmentProperties { name: String::from_str("domain"), value: rec.domain.clone() });
    let out = CheckRecord {
        matching_content: rec.matching_content.clone(),
        violations,
        properties,
    };
    proof {
        assert(out.deep_view().violations =~~= dns_check_record(rec.deep_view()).violations);
        assert(out.deep_view().properties =~~= dns_check_record(rec.deep_view()).properties);
    }
    out
}

/// What deriving environments from DNS records yields.
pub open spec fn dns_environments_spec(
    rs: Seq<DnsCheckInfoView>,
    machine: Seq<char>,
    service: Seq<char>,
) -> Result<Seq<EnvironmentView>, ConversionErrorView> {
    environments_of_records_spec(
        rs.map_values(|r: DnsCheckInfoView| dns_check_record(r)),
        machine,
        service,
    )
}

/// Derives the environments of a DNS service.
fn dns_environments(rs: &Vec<DnsCheckInfo>, machine: &str, service: &str) -> (r: Result<
    Vec<Environment>,
    ConversionError,
>)
    ensures
        env_result_view(r) == dns_environments_spec(rs.deep_view(), machine@, service@),
{
    let mut recs: Vec<CheckRecord> = Vec::new();
    let mut i: usize = 0;
    while i < rs.len()
        invariant
            i <= rs.len(),
            recs.deep_view().len() == i,
            forall|j: int|
                0 <= j < i ==> recs.deep_view()[j] == dns_check_record(rs.deep_view()[j]),
        decreases rs.len() - i,
    {
        let ghost prev = recs.deep_view();
        recs.push(dns_record(&rs[i]));
        proof {
            assert forall|j: int|
                0 <= j < i + 1 implies recs.deep_view()[j] == dns_check_record(
                rs.deep_view()[j],
            ) by {
                if j < i as int {
                    assert(recs.deep_view()[j] == prev[j]);
                } else {
                    assert(recs.deep_view()[j] == recs@[j].deep_view());
                }
            }
        }
        i += 1;
    }
    proof {
        assert(recs.deep_view() =~~= rs.deep_view().map_values(
            |r: DnsCheckInfoView| dns_check_record(r),
        ));
    }
    environments_of_records(&recs, machine, service)
}

/// The reduced shape of one Elasticsearch record: its rule outcomes and properties.
pub open spec fn elasticsearch_check_record(r: ElasticsearchCheckInfoView) -> CheckRecordView {
    CheckRecordView {
        matching_content: r.matching_content,
        violations: empty_rule(r.matching_content, "Service match cannot be empty"@)
            + empty_rule(r.index, "Index cannot be empty"@)
            + empty_rule(r.doc_type, "Document type cannot be empty"@),
        properties: seq![
            EnvironmentPropertiesView { name: "index"@, value: r.index },
            EnvironmentPropertiesView { name: "doc_type"@, value: r.doc_type },
        ],
    }
}

/// Reduces one Elasticsearch record.
fn elasticsearch_record(rec: &ElasticsearchCheckInfo) -> (r: CheckRecord)
    ensures
        r.deep_view() == elasticsearch_check_record(rec.deep_view()),
{
    let mut violations: Vec<String> = Vec::new();
    if rec.matching_content.as_str().is_empty() {
        violations.push(String::from_str("Service match cannot be empty"));
    }
    if rec.index.as_str().is_empty() {
        violations.push(String::from_str("Index cannot be empty"));
    }
    if rec.doc_type.as_str().is_empty() {
        violations.push(String::from_str("Document type cannot be empty"));
    }
    let mut properties: Vec<EnvironmentProperties> = Vec::new();
    properties.push(EnvironmentProperties { name: String::from_str("index"), value: rec.index.clone() });
    properties.push(EnvironmentProperties { name: String::from_str("doc_type"), value: rec.doc_type.clone() });
    let out = CheckRecord {
        matching_content: rec.matching_content.clone(),
        violations,
        properties,
    };
    proof {
        assert(out.deep_view().violations =~~= elasticsearch_check_record(rec.deep_view()).violations);
        assert(out.deep_view().properties =~~= elasticsearch_check_record(rec.deep_view()).properties);
    }
    out
}

/// What deriving environments from Elasticsearch records yields.
pub open spec fn elasticsearch_environments_spec(
    rs: Seq<ElasticsearchCheckInfoView>,
    machine: Seq<char>,
    service: Seq<char>,
) -> Result<Seq<EnvironmentView>, ConversionErrorView> {
    environments_of_records_spec(
        rs.map_values(|r: ElasticsearchCheckInfoView| elasticsearch_check_record(r)),
        machine,
        service,
    )
}

/// Derives the environments of a Elasticsearch service.
fn elasticsearch_environments(rs: &Vec<ElasticsearchCheckInfo>, machine: &str, service: &str) -> (r: Result<
    Vec<Environment>,
    ConversionError,
>)
    ensures
        env_result_view(r) == elasticsearch_environments_spec(rs.deep_view(), machine@, service@),
{
    let mut recs: Vec<CheckRecord> = Vec::new();
    let mut i: usize = 0;
    while i < rs.len()
        invariant
            i <= rs.len(),
            recs.deep_view().len() == i,
            forall|j: int|
                0 <= j < i ==> recs.deep_view()[j] == elasticsearch_check_record(rs.deep_view()[j]),
        decreases rs.len() - i,
    {
        let ghost prev = recs.deep_view();
        recs.push(elasticsearch_record(&rs[i]));
        proof {
            assert forall|j: int|
                0 <= j < i + 1 implies recs.deep_view()[j] == elasticsearch_check_record(
                rs.deep_view()[j],
            ) by {
                if j < i as int {
                    assert(recs.deep_view()[j] == prev[j]);
                } else {
                    assert(recs.deep_view()[j] == recs@[j].deep_view());
                }
            }
        }
        i += 1;
    }
    proof {
        assert(recs.deep_view() =~~= rs.deep_view().map_values(
            |r: ElasticsearchCheckInfoView| elasticsearch_check_record(r),
        ));
    }
    environments_of_records(&recs, machine, service)
}

/// The reduced shape of one FTP record: its rule outcomes and properties.
pub open spec fn ftp_check_record(r: FtpCheckInfoView) -> CheckRecordView {
    CheckRecordView {
        matching_content: r.matching_content,
        violations: empty_rule(r.matching_content, "Service match cannot be empty"@)
            + empty_rule(r.filecontents, "File contents cannot be empty"@)
            + empty_rule(r.remotefilepath, "Remote file path cannot be empty"@),
        properties: seq![
            EnvironmentPropertiesView { name: "filecontents"@, value: r.filecontents },
            EnvironmentPropertiesView { name: "remotefilepath"@, value: r.remotefilepath },
        ],
    }
}

/// Reduces one FTP record.
fn ftp_record(rec: &FtpCheckInfo) -> (r: CheckRecord)
    ensures
        r.deep_view() == ftp_check_record(rec.deep_view()),
{
    let mut violations: Vec<String> = Vec::new();
    if rec.matching_content.as_str().is_empty() {
        violations.push(String::from_str("Service match cannot be empty"));
    }
    if rec.filecontents.as_str().is_empty() {
        violations.push(String::from_str("File contents cannot be empty"));
    }
    if rec.remotefilepath.as_str().is_empty() {
        violations.push(String::from_str("Remote file path cannot be empty"));
    }
    let mut properties: Vec<EnvironmentProperties> = Vec::new();
    properties.push(EnvironmentProperties { name: String::from_str("filecontents"), value: rec.filecontents.clone() });
    properties.push(EnvironmentProperties { name: String::from_str("remotefilepath"), value: rec.remotefilepath.clone() });
    let out = CheckRecord {
        matching_content: rec.matching_content.clone(),
        violations,
        properties,
    };
    proof {
        assert(out.deep_view().violations =~~= ftp_check_record(rec.deep_view()).violations);
        assert(out.deep_view().properties =~~= ftp_check_record(rec.deep_view()).properties);
    }
    out
}

/// What deriving environments from FTP records yields.
pub open spec fn ftp_environments_spec(
    rs: Seq<FtpCheckInfoView>,
    machine: Seq<char>,
    service: Seq<char>,
) -> Result<Seq<EnvironmentView>, ConversionErrorView> {
    environments_of_records_spec(
        rs.map_values(|r: FtpCheckInfoView| ftp_check_record(r)),
        machine,
        service,
    )
}

/// Derives the environments of a FTP service.
fn ftp_environments(rs: &Vec<FtpCheckInfo>, machine: &str, service: &str) -> (r: Result<
    Vec<Environment>,
    ConversionError,
>)
    ensures
        env_result_view(r) == ftp_environments_spec(rs.deep_view(), machine@, service@),
{
    let mut recs: Vec<CheckRecord> = Vec::new();
    let mut i: usize = 0;
    while i < rs.len()
        invariant
            i <= rs.len(),
            recs.deep_view().len() == i,
            forall|j: int|
                0 <= j < i ==> recs.deep_view()[j] == ftp_check_record(rs.deep_view()[j]),
        decreases rs.len() - i,
    {
        let ghost prev = recs.deep_view();
        recs.push(ftp_record(&rs[i]));
        proof {
            assert forall|j: int|
                0 <= j < i + 1 implies recs.deep_view()[j] == ftp_check_record(
                rs.deep_view()[j],
            ) by {
                if j < i as int {
                    assert(recs.deep_view()[j] == prev[j]);
                } else {
                    assert(recs.deep_view()[j] == recs@[j].deep_view());
                }
            }
        }
        i += 1;
    }
    proof {
        assert(recs.deep_view() =~~= rs.deep_view().map_values(
            |r: FtpCheckInfoView| ftp_check_record(r),
        ));
    }
    environments_of_records(&recs, machine, service)
}

/// The reduced shape of one HTTP-family record: its rule outcomes and properties.
pub open spec fn http_check_record(r: HttpCheckInfoView) -> CheckRecordView {
    CheckRecordView {
        matching_content: r.matching_content,
        violations: empty_rule(r.matching_content, "Service match cannot be empty"@)
            + empty_rule(r.useragent, "User agent cannot be empty"@)
            + empty_rule(r.vhost, "Virtual host cannot be empty"@)
            + empty_rule(r.uri, "URI cannot be empty"@),
        properties: seq![
            EnvironmentPropertiesView { name: "useragent"@, value: r.useragent },
            EnvironmentPropertiesView { name: "vhost"@, value: r.vhost },
            EnvironmentPropertiesView { name: "uri"@, value: r.uri },
        ],
    }
}

/// Reduces one HTTP-family record.
fn http_record(rec: &HttpCheckInfo) -> (r: CheckRecord)
    ensures
        r.deep_view() == http_check_record(rec.deep_view()),
{
    let mut violations: Vec<String> = Vec::new();
    if rec.matching_content.as_str().is_empty() {
        violations.push(String::from_str("Service match cannot be empty"));
    }
    if rec.useragent.as_str().is_empty() {
        violations.push(String::from_str("User agent cannot be empty"));
    }
    if rec.vhost.as_str().is_empty() {
        violations.push(String::from_str("Virtual host cannot be empty"));
    }
    if rec.uri.as_str().is_empty() {
        violations.push(String::from_str("URI cannot be empty"));
    }
    let mut properties: Vec<EnvironmentProperties> = Vec::new();
    properties.push(EnvironmentProperties { name: String::from_str("useragent"), value: rec.useragent.clone() });
    properties.push(EnvironmentProperties { name: String::from_str("vhost"), value: rec.vhost.clone() });
    properties.push(EnvironmentProperties { name: String::from_str("uri"), value: rec.uri.clone() });
    let out = CheckRecord {
        matching_content: rec.matching_content.clone(),
        violations,
        properties,
    };
    proof {
        assert(out.deep_view().violations =~~= http_check_record(rec.deep_view()).violations);
        assert(out.deep_view().properties =~~= http_check_record(rec.deep_view()).properties);
    }
    out
}

/// What deriving environments from HTTP-family records yields.
pub open spec fn http_environments_spec(
    rs: Seq<HttpCheckInfoView>,
    machine: Seq<char>,
    service: Seq<char>,
) -> Result<Seq<EnvironmentView>, ConversionErrorView> {
    environments_of_records_spec(
        rs.map_values(|r: HttpCheckInfoView| http_check_record(r)),
        machine,
        service,
    )
}

/// Derives the environments of a HTTP-family service.
fn http_environments(rs: &Vec<HttpCheckInfo>, machine: &str, service: &str) -> (r: Result<
    Vec<Environment>,
    ConversionError,
>)
    ensures
        env_result_view(r) == http_environments_spec(rs.deep_view(), machine@, service@),
{
    let mut recs: Vec<CheckRecord> = Vec::new();
    let mut i: usize = 0;
    while i < rs.len()
        invariant
            i <= rs.len(),
            recs.deep_view().len() == i,
            forall|j: int|
                0 <= j < i ==> recs.deep_view()[j] == http_check_record(rs.deep_view()[j]),
        decreases rs.len() - i,
    {
        let ghost prev = recs.deep_view();
        recs.push(http_record(&rs[i]));
        proof {
            assert forall|j: int|
                0 <= j < i + 1 implies recs.deep_view()[j] == http_check_record(
                rs.deep_view()[j],
            ) by {
                if j < i as int {
                    assert(recs.deep_view()[j] == prev[j]);
                } else {
                    assert(recs.deep_view()[j] == recs@[j].deep_view());
                }
            }
        }
        i += 1;
    }
    proof {
        assert(recs.deep_view() =~~= rs.deep_view().map_values(
            |r: HttpCheckInfoView| http_check_record(r),
        ));
    }
    environments_of_records(&recs, machine, service)
}

/// The reduced shape of one IMAP-family record: its rule outcomes and properties.
pub open spec fn imap_check_record(r: ImapCheckInfoView) -> CheckRecordView {
    CheckRecordView {
        matching_content: r.matching_content,
        violations: empty_rule(r.matching_content, "Service match cannot be empty"@)
            + empty_rule(r.domain, "IMAP domain cannot be empty"@),
        properties: seq![
            EnvironmentPropertiesView { name: "domain"@, value: r.domain },
        ],
    }
}

/// Reduces one IMAP-family record.
fn imap_record(rec: &ImapCheckInfo) -> (r: CheckRecord)
    ensures
        r.deep_view() == imap_check_record(rec.deep_view()),
{
    let mut violations: Vec<String> = Vec::new();
    if rec.matching_content.as_str().is_empty() {
        violations.push(String::from_str("Service match cannot be empty"));
    }
    if rec.domain.as_str().is_empty() {
        violations.push(String::from_str("IMAP domain cannot be empty"));
    }
    let mut properties: Vec<EnvironmentProperties> = Vec::new();
    properties.push(EnvironmentProperties { name: String::from_str("domain"), value: rec.domain.clone() });
    let out = CheckRecord {
        matching_content: rec.matching_content.clone(),
        violations,
        properties,
    };
    proof {
        assert(out.deep_view().violations =~~= imap_check_record(rec.deep_view()).violations);
        assert(out.deep_view().properties =~~= imap_check_record(rec.deep_view()).properties);
    }
    out
}

/// What deriving environments from IMAP-family records yields.
pub open spec fn imap_environments_spec(
    rs: Seq<ImapCheckInfoView>,
    machine: Seq<char>,
    service: Seq<char>,
) -> Result<Seq<EnvironmentView>, ConversionErrorView> {
    environments_of_records_spec(
        rs.map_values(|r: ImapCheckInfoView| imap_check_record(r)),
        machine,
        service,
    )
}

/// Derives the environments of a IMAP-family service.
fn imap_environments(rs: &Vec<ImapCheckInfo>, machine: &str, service: &str) -> (r: Result<
    Vec<Environment>,
    ConversionError,
>)
    ensures
        env_result_view(r) == imap_environments_spec(rs.deep_view(), machine@, service@),
{
    let mut recs: Vec<CheckRecord> = Vec::new();
    let mut i: usize = 0;
    while i < rs.len()
        invariant
            i <= rs.len(),
            recs.deep_view().len() == i,
            forall|j: int|
                0 <= j < i ==> recs.deep_view()[j] == imap_check_record(rs.deep_view()[j]),
        decreases rs.len() - i,
    {
        let ghost prev = recs.deep_view();
        recs.push(imap_record(&rs[i]));
        proof {
            assert forall|j: int|
                0 <= j < i + 1 implies recs.deep_view()[j] == imap_check_record(
                rs.deep_view()[j],
            ) by {
                if j < i as int {
                    assert(recs.deep_view()[j] == prev[j]);
                } else {
                    assert(recs.deep_view()[j] == recs@[j].deep_view());
                }
            }
        }
        i += 1;
    }
    proof {
        assert(recs.deep_view() =~~= rs.deep_view().map_values(
            |r: ImapCheckInfoView| imap_check_record(r),
        ));
    }
    environments_of_records(&recs, machine, service)
}

/// The reduced shape of one LDAP record: its rule outcomes and properties.
pub open spec fn ldap_check_record(r: LdapCheckInfoView) -> CheckRecordView {
    CheckRecordView {
        matching_content: r.matching_content,
        violations: empty_rule(r.matching_content, "Service match cannot be empty"@)
            + empty_rule(r.domain, "LDAP domain cannot be empty"@)
            + empty_rule(r.base_dn, "Base DN cannot be empty"@),
        properties: seq![
            EnvironmentPropertiesView { name: "domain"@, value: r.domain },
            EnvironmentPropertiesView { name: "base_dn"@, value: r.base_dn },
        ],
    }
}

/// Reduces one LDAP record.
fn ldap_record(rec: &LdapCheckInfo) -> (r: CheckRecord)
    ensures
        r.deep_view() == ldap_check_record(rec.deep_view()),
{
    let mut violations: Vec<String> = Vec::new();
    if rec.matching_content.as_str().is_empty() {
        violations.push(String::from_str("Service match cannot be empty"));
    }
    if rec.domain.as_str().is_empty() {
        violations.push(String::from_str("LDAP domain cannot be empty"));
    }
    if rec.base_dn.as_str().is_empty() {
        violations.push(String::from_str("Base DN cannot be empty"));
    }
    let mut properties: Vec<EnvironmentProperties> = Vec::new();
    properties.push(EnvironmentProperties { name: String::from_str("domain"), value: rec.domain.clone() });
    properties.push(EnvironmentProperties { name: String::from_str("base_dn"), value: rec.base_dn.clone() });
    let out = CheckRecord {
        matching_content: rec.matching_content.clone(),
        violations,
        properties,
    };
    proof {
        assert(out.deep_view().violations =~~= ldap_check_record(rec.deep_view()).violations);
        assert(out.deep_view().properties =~~= ldap_check_record(rec.deep_view()).properties);
    }
    out
}

/// What deriving environments from LDAP records yields.
pub open spec fn ldap_environments_spec(
    rs: Seq<LdapCheckInfoView>,
    machine: Seq<char>,
    service: Seq<char>,
) -> Result<Seq<EnvironmentView>, ConversionErrorView> {
    environments_of_records_spec(
        rs.map_values(|r: LdapCheckInfoView| ldap_check_record(r)),
        machine,
        service,
    )
}

/// Derives the environments of a LDAP service.
fn ldap_environments(rs: &Vec<LdapCheckInfo>, machine: &str, service: &str) -> (r: Result<
    Vec<Environment>,
    ConversionError,
>)
    ensures
        env_result_view(r) == ldap_environments_spec(rs.deep_view(), machine@, service@),
{
    let mut recs: Vec<CheckRecord> = Vec::new();
    let mut i: usize = 0;
    while i < rs.len()
        invariant
            i <= rs.len(),
            recs.deep_view().len() == i,
            forall|j: int|
                0 <= j < i ==> recs.deep_view()[j] == ldap_check_record(rs.deep_view()[j]),
        decreases rs.len() - i,
    {
        let ghost prev = recs.deep_view();
        recs.push(ldap_record(&rs[i]));
        proof {
            assert forall|j: int|
                0 <= j < i + 1 implies recs.deep_view()[j] == ldap_check_record(
                rs.deep_view()[j],
            ) by {
                if j < i as int {
                    assert(recs.deep_view()[j] == prev[j]);
                } else {
                    assert(recs.deep_view()[j] == recs@[j].deep_view());
                }
            }
        }
        i += 1;
    }
    proof {
        assert(recs.deep_view() =~~= rs.deep_view().map_values(
            |r: LdapCheckInfoView| ldap_check_record(r),
        ));
    }
    environments_of_records(&recs, machine, service)
}

/// The reduced shape of one SQL-family record: its rule outcomes and properties.
pub open spec fn sql_check_record(r: SqlCheckInfoView) -> CheckRecordView {
    CheckRecordView {
        matching_content: r.matching_content,
        violations: empty_rule(r.matching_content, "Service match cannot be empty"@)
            + empty_rule(r.database, "Database cannot be empty"@)
            + empty_rule(r.command, "Command to execute cannot be empty"@),
        properties: seq![
            EnvironmentPropertiesView { name: "database"@, value: r.database },
            EnvironmentPropertiesView { name: "command"@, value: r.command },
        ],
    }
}

/// Reduces one SQL-family record.
fn sql_record(rec: &SqlCheckInfo) -> (r: CheckRecord)
    ensures
        r.deep_view() == sql_check_record(rec.deep_view()),
{
    let mut violations: Vec<String> = Vec::new();
    if rec.matching_content.as_str().is_empty() {
        violations.push(String::from_str("Service match cannot be empty"));
    }
    if rec.database.as_str().is_empty() {
        violations.push(String::from_str("Database cannot be empty"));
    }
    if rec.command.as_str().is_empty() {
        violations.push(String::from_str("Command to execute cannot be empty"));
    }
    let mut properties: Vec<EnvironmentProperties> = Vec::new();
    properties.push(EnvironmentProperties { name: String::from_str("database"), value: rec.database.clone() });
    properties.push(EnvironmentProperties { name: String::from_str("command"), value: rec.command.clone() });
    let out = CheckRecord {
        matching_content: rec.matching_content.clone(),
        violations,
        properties,
    };
    proof {
        assert(out.deep_view().violations =~~= sql_check_record(rec.deep_view()).violations);
        assert(out.deep_view().properties =~~= sql_check_record(rec.deep_view()).properties);
    }
    out
}

/// What deriving environments from SQL-family records yields.
pub open spec fn sql_environments_spec(
    rs: Seq<SqlCheckInfoView>,
    machine: Seq<char>,
    service: Seq<char>,
) -> Result<Seq<EnvironmentView>, ConversionErrorView> {
    environments_of_records_spec(
        rs.map_values(|r: SqlCheckInfoView| sql_check_record(r)),
        machine,
        service,
    )
}

/// Derives the environments of a SQL-family service.
fn sql_environments(rs: &Vec<SqlCheckInfo>, machine: &str, service: &str) -> (r: Result<
    Vec<Environment>,
    ConversionError,
>)
    ensures
        env_result_view(r) == sql_environments_spec(rs.deep_view(), machine@, service@),
{
    let mut recs: Vec<CheckRecord> = Vec::new();
    let mut i: usize = 0;
    while i < rs.len()
        invariant
            i <= rs.len(),
            recs.deep_view().len() == i,
            forall|j: int|
                0 <= j < i ==> recs.deep_view()[j] == sql_check_record(rs.deep_view()[j]),
        decreases rs.len() - i,
    {
        let ghost prev = recs.deep_view();
        recs.push(sql_record(&rs[i]));
        proof {
            assert forall|j: int|
                0 <= j < i + 1 implies recs.deep_view()[j] == sql_check_record(
                rs.deep_view()[j],
            ) by {
                if j < i as int {
                    assert(recs.deep_view()[j] == prev[j]);
                } else {
                    assert(recs.deep_view()[j] == recs@[j].deep_view());
                }
            }
        }
        i += 1;
    }
    proof {
        assert(recs.deep_view() =~~= rs.deep_view().map_values(
            |r: SqlCheckInfoView| sql_check_record(r),
        ));
    }
    environments_of_records(&recs, machine, service)
}

/// The reduced shape of one NFS record: its rule outcomes and properties.
pub open spec fn nfs_check_record(r: NfsCheckInfoView) -> CheckRecordView {
    CheckRecordView {
        matching_content: r.matching_content,
        violations: empty_rule(r.matching_content, "Service match cannot be empty"@)
            + empty_rule(r.remotefilepath, "Remote file path cannot be empty"@)
            + empty_rule(r.filecontents, "File contents cannot be empty"@),
        properties: seq![
            EnvironmentPropertiesView { name: "remotefilepath"@, value: r.remotefilepath },
            EnvironmentPropertiesView { name: "filecontents"@, value: r.filecontents },
        ],
    }
}

/// Reduces one NFS record.
fn nfs_record(rec: &NfsCheckInfo) -> (r: CheckRecord)
    ensures
        r.deep_view() == nfs_check_record(rec.deep_view()),
{
    let mut violations: Vec<String> = Vec::new();
    if rec.matching_content.as_str().is_empty() {
        violations.push(String::from_str("Service match cannot be empty"));
    }
    if rec.remotefilepath.as_str().is_empty() {
        violations.push(String::from_str("Remote file path cannot be empty"));
    }
    if rec.filecontents.as_str().is_empty() {
        violations.push(String::from_str("File contents cannot be empty"));
    }
    let mut properties: Vec<EnvironmentProperties> = Vec::new();
    properties.push(EnvironmentProperties { name: String::from_str("remotefilepath"), value: rec.remotefilepath.clone() });
    properties.push(EnvironmentProperties { name: String::from_str("filecontents"), value: rec.filecontents.clone() });
    let out = CheckRecord {
        matching_content: rec.matching_content.clone(),
        violations,
        properties,
    };
    proof {
        assert(out.deep_view().violations =~~= nfs_check_record(rec.deep_view()).violations);
        assert(out.deep_view().properties =~~= nfs_check_record(rec.deep_view()).properties);
    }
    out
}

/// What deriving environments from NFS records yields.
pub open spec fn nfs_environments_spec(
    rs: Seq<NfsCheckInfoView>,
    machine: Seq<char>,
    service: Seq<char>,
) -> Result<Seq<EnvironmentView>, ConversionErrorView> {
    environments_of_records_spec(
        rs.map_values(|r: NfsCheckInfoView| nfs_check_record(r)),
        machine,
        service,
    )
}

/// Derives the environments of a NFS service.
fn nfs_environments(rs: &Vec<NfsCheckInfo>, machine: &str, service: &str) -> (r: Result<
    Vec<Environment>,
    ConversionError,
>)
    ensures
        env_result_view(r) == nfs_environments_spec(rs.deep_view(), machine@, service@),
{
    let mut recs: Vec<CheckRecord> = Vec::new();
    let mut i: usize = 0;
    while i < rs.len()
        invariant
            i <= rs.len(),
            recs.deep_view().len() == i,
            forall|j: int|
                0 <= j < i ==> recs.deep_view()[j] == nfs_check_record(rs.deep_view()[j]),
        decreases rs.len() - i,
    {
        let ghost prev = recs.deep_view();
        recs.push(nfs_record(&rs[i]));
        proof {
            assert forall|j: int|
                0 <= j < i + 1 implies recs.deep_view()[j] == nfs_check_record(
                rs.deep_view()[j],
            ) by {
                if j < i as int {
                    assert(recs.deep_view()[j] == prev[j]);
                } else {
                    assert(recs.deep_view()[j] == recs@[j].deep_view());
                }
            }
        }
        i += 1;
    }
    proof {
        assert(recs.deep_view() =~~= rs.deep_view().map_values(
            |r: NfsCheckInfoView| nfs_check_record(r),
        ));
    }
    environments_of_records(&recs, machine, service)
}

/// The reduced shape of one POP3-family record: its rule outcomes and properties.
pub open spec fn pop_check_record(r: PopCheckInfoView) -> CheckRecordView {
    CheckRecordView {
        matching_content: r.matching_content,
        violations: empty_rule(r.matching_content, "Service match cannot be empty"@)
            + empty_rule(r.domain, "Domain cannot be empty"@),
        properties: seq![
            EnvironmentPropertiesView { name: "domain"@, value: r.domain },
        ],
    }
}

/// Reduces one POP3-family record.
fn pop_record(rec: &PopCheckInfo) -> (r: CheckRecord)
    ensures
        r.deep_view() == pop_check_record(rec.deep_view()),
{
    let mut violations: Vec<String> = Vec::new();
    if rec.matching_content.as_str().is_empty() {
        violations.push(String::from_str("Service match cannot be empty"));
    }
    if rec.domain.as_str().is_empty() {
        violations.push(String::from_str("Domain cannot be empty"));
    }
    let mut properties: Vec<EnvironmentProperties> = Vec::new();
    properties.push(EnvironmentProperties { name: String::from_str("domain"), value: rec.domain.clone() });
    let out = CheckRecord {
        matching_content: rec.matching_content.clone(),
        violations,
        properties,
    };
    proof {
        assert(out.deep_view().violations =~~= pop_check_record(rec.deep_view()).violations);
        assert(out.deep_view().properties =~~= pop_check_record(rec.deep_view()).properties);
    }
    out
}

/// What deriving environments from POP3-family records yields.
pub open spec fn pop_environments_spec(
    rs: Seq<PopCheckInfoView>,
    machine: Seq<char>,
    service: Seq<char>,
) -> Result<Seq<EnvironmentView>, ConversionErrorView> {
    environments_of_records_spec(
        rs.map_values(|r: PopCheckInfoView| pop_check_record(r)),
        machine,
        service,
    )
}

/// Derives the environments of a POP3-family service.
fn pop_environments(rs: &Vec<PopCheckInfo>, machine: &str, service: &str) -> (r: Result<
    Vec<Environment>,
    ConversionError,
>)
    ensures
        env_result_view(r) == pop_environments_spec(rs.deep_view(), machine@, service@),
{
    let mut recs: Vec<CheckRecord> = Vec::new();
    let mut i: usize = 0;
    while i < rs.len()
        invariant
            i <= rs.len(),
            recs.deep_view().len() == i,
            forall|j: int|
                0 <= j < i ==> recs.deep_view()[j] == pop_check_record(rs.deep_view()[j]),
        decreases rs.len() - i,
    {
        let ghost prev = recs.deep_view();
        recs.push(pop_record(&rs[i]));
        proof {
            assert forall|j: int|
                0 <= j < i + 1 implies recs.deep_view()[j] == pop_check_record(
                rs.deep_view()[j],
            ) by {
                if j < i as int {
                    assert(recs.deep_view()[j] == prev[j]);
                } else {
                    assert(recs.deep_view()[j] == recs@[j].deep_view());
                }
            }
        }
        i += 1;
    }
    proof {
        assert(recs.deep_view() =~~= rs.deep_view().map_values(
            |r: PopCheckInfoView| pop_check_record(r),
        ));
    }
    environments_of_records(&recs, machine, service)
}

/// The reduced shape of one SMB record: its rule outcomes and properties.
pub open spec fn smb_check_record(r: SmbCheckInfoView) -> CheckRecordView {
    CheckRecordView {
        matching_content: r.matching_content,
        violations: empty_rule(r.matching_content, "Service match cannot be empty"@)
            + empty_rule(r.remote_name, "Remote name cannot be empty"@)
            + empty_rule(r.share, "Share name cannot be empty"@)
            + empty_rule(r.file, "File name cannot be empty"@)
            + empty_rule(r.hash, "File hash cannot be empty"@)
            + (if r.hash.len() != 64 { seq!["File hash must be 64 characters"@] } else { seq![] }),
        properties: seq![
            EnvironmentPropertiesView { name: "remote_name"@, value: r.remote_name },
            EnvironmentPropertiesView { name: "share"@, value: r.share },
            EnvironmentPropertiesView { name: "file"@, value: r.file },
            EnvironmentPropertiesView { name: "hash"@, value: r.hash },
        ],
    }
}

/// Reduces one SMB record.
fn smb_record(rec: &SmbCheckInfo) -> (r: CheckRecord)
    ensures
        r.deep_view() == smb_check_record(rec.deep_view()),
{
    let mut violations: Vec<String> = Vec::new();
    if rec.matching_content.as_str().is_empty() {
        violations.push(String::from_str("Service match cannot be empty"));
    }
    if rec.remote_name.as_str().is_empty() {
        violations.push(String::from_str("Remote name cannot be empty"));
    }
    if rec.share.as_str().is_empty() {
        violations.push(String::from_str("Share name cannot be empty"));
    }
    if rec.file.as_str().is_empty() {
        violations.push(String::from_str("File name cannot be empty"));
    }
    if rec.hash.as_str().is_empty() {
        violations.push(String::from_str("File hash cannot be empty"));
    }
    if rec.hash.as_str().unicode_len() != 64 {
        violations.push(String::from_str("File hash must be 64 characters"));
    }
    let mut properties: Vec<EnvironmentProperties> = Vec::new();
    properties.push(EnvironmentProperties { name: String::from_str("remote_name"), value: rec.remote_name.clone() });
    properties.push(EnvironmentProperties { name: String::from_str("share"), value: rec.share.clone() });
    properties.push(EnvironmentProperties { name: String::from_str("file"), value: rec.file.clone() });
    properties.push(EnvironmentProperties { name: String::from_str("hash"), value: rec.hash.clone() });
    let out = CheckRecord {
        matching_content: rec.matching_content.clone(),
        violations,
        properties,
    };
    proof {
        assert(out.deep_view().violations =~~= smb_check_record(rec.deep_view()).violations);
        assert(out.deep_view().properties =~~= smb_check_record(rec.deep_view()).properties);
    }
    out
}

/// What deriving environments from SMB records yields.
pub open spec fn smb_environments_spec(
    rs: Seq<SmbCheckInfoView>,
    machine: Seq<char>,
    service: Seq<char>,
) -> Result<Seq<EnvironmentView>, ConversionErrorView> {
    environments_of_records_spec(
        rs.map_values(|r: SmbCheckInfoView| smb_check_record(r)),
        machine,
        service,
    )
}

/// Derives the environments of a SMB service.
fn smb_environments(rs: &Vec<SmbCheckInfo>, machine: &str, service: &str) -> (r: Result<
    Vec<Environment>,
    ConversionError,
>)
    ensures
        env_result_view(r) == smb_environments_spec(rs.deep_view(), machine@, service@),
{
    let mut recs: Vec<CheckRecord> = Vec::new();
    let mut i: usize = 0;
    while i < rs.len()
        invariant
            i <= rs.len(),
            recs.deep_view().len() == i,
            forall|j: int|
                0 <= j < i ==> recs.deep_view()[j] == smb_check_record(rs.deep_view()[j]),
        decreases rs.len() - i,
    {
        let ghost prev = recs.deep_view();
        recs.push(smb_record(&rs[i]));
        proof {
            assert forall|j: int|
                0 <= j < i + 1 implies recs.deep_view()[j] == smb_check_record(
                rs.deep_view()[j],
            ) by {
                if j < i as int {
                    assert(recs.deep_view()[j] == prev[j]);
                } else {
                    assert(recs.deep_view()[j] == recs@[j].deep_view());
                }
            }
        }
        i += 1;
    }
    proof {
        assert(recs.deep_view() =~~= rs.deep_view().map_values(
            |r: SmbCheckInfoView| smb_check_record(r),
        ));
    }
    environments_of_records(&recs, machine, service)
}

/// The reduced shape of one SMTP-family record: its rule outcomes and properties.
pub open spec fn smtp_check_record(r: SmtpCheckInfoView) -> CheckRecordView {
    CheckRecordView {
        matching_content: r.matching_content,
        violations: empty_rule(r.matching_content, "Service match cannot be empty"@)
            + empty_rule(r.touser, "'To' destination email cannot be empty"@)
            + (if !seq_contains_char(r.touser, '@') { seq!["Email must contain an '@' symbol"@] } else { seq![] }),
        properties: seq![
            EnvironmentPropertiesView { name: "touser"@, value: r.touser },
        ],
    }
}

/// Reduces one SMTP-family record.
fn smtp_record(rec: &SmtpCheckInfo) -> (r: CheckRecord)
    ensures
        r.deep_view() == smtp_check_record(rec.deep_view()),
{
    let mut violations: Vec<String> = Vec::new();
    if rec.matching_content.as_str().is_empty() {
        violations.push(String::from_str("Service match cannot be empty"));
    }
    if rec.touser.as_str().is_empty() {
        violations.push(String::from_str("'To' destination email cannot be empty"));
    }
    if !str_contains_char(rec.touser.as_str(), '@') {
        violations.push(String::from_str("Email must contain an '@' symbol"));
    }
    let mut properties: Vec<EnvironmentProperties> = Vec::new();
    properties.push(EnvironmentProperties { name: String::from_str("touser"), value: rec.touser.clone() });
    let out = CheckRecord {
        matching_content: rec.matching_content.clone(),
        violations,
        properties,
    };
    proof {
        assert(out.deep_view().violations =~~= smtp_check_record(rec.deep_view()).violations);
        assert(out.deep_view().properties =~~= smtp_check_record(rec.deep_view()).properties);
    }
    out
}

/// What deriving environments from SMTP-family records yields.
pub open spec fn smtp_environments_spec(
    rs: Seq<SmtpCheckInfoView>,
    machine: Seq<char>,
    service: Seq<char>,
) -> Result<Seq<EnvironmentView>, ConversionErrorView> {
    environments_of_records_spec(
        rs.map_values(|r: SmtpCheckInfoView| smtp_check_record(r)),
        machine,
        service,
    )
}

/// Derives the environments of a SMTP-family service.
fn smtp_environments(rs: &Vec<SmtpCheckInfo>, machine: &str, service: &str) -> (r: Result<
    Vec<Environment>,
    ConversionError,
>)
    ensures
        env_result_view(r) == smtp_environments_spec(rs.deep_view(), machine@, service@),
{
    let mut recs: Vec<CheckRecord> = Vec::new();
    let mut i: usize = 0;
    while i < rs.len()
        invariant
            i <= rs.len(),
            recs.deep_view().len() == i,
            forall|j: int|
                0 <= j < i ==> recs.deep_view()[j] == smtp_check_record(rs.deep_view()[j]),
        decreases rs.len() - i,
    {
        let ghost prev = recs.deep_view();
        recs.push(smtp_record(&rs[i]));
        proof {
            assert forall|j: int|
                0 <= j < i + 1 implies recs.deep_view()[j] == smtp_check_record(
                rs.deep_view()[j],
            ) by {
                if j < i as int {
                    assert(recs.deep_view()[j] == prev[j]);
                } else {
                    assert(recs.deep_view()[j] == recs@[j].deep_view());
                }
            }
        }
        i += 1;
    }
    proof {
        assert(recs.deep_view() =~~= rs.deep_view().map_values(
            |r: SmtpCheckInfoView| smtp_check_record(r),
        ));
    }
    environments_of_records(&recs, machine, service)
}

/// The reduced shape of one command-execution record: its rule outcomes and properties.
pub open spec fn remote_command_check_record(r: RemoteCommandCheckInfoView) -> CheckRecordView {
    CheckRecordView {
        matching_content: r.matching_content,
        violations: empty_rule(r.matching_content, "Service match cannot be empty"@)
            + empty_rule(r.commands, "Commands cannot be empty"@),
        properties: seq![
            EnvironmentPropertiesView { name: "commands"@, value: r.commands },
        ],
    }
}

/// Reduces one command-execution record.
fn remote_command_record(rec: &RemoteCommandCheckInfo) -> (r: CheckRecord)
    ensures
        r.deep_view() == remote_command_check_record(rec.deep_view()),
{
    let mut violations: Vec<String> = Vec::new();
    if rec.matching_content.as_str().is_empty() {
        violations.push(String::from_str("Service match cannot be empty"));
    }
    if rec.commands.as_str().is_empty() {
        violations.push(String::from_str("Commands cannot be empty"));
    }
    let mut properties: Vec<EnvironmentProperties> = Vec::new();
    properties.push(EnvironmentProperties { name: String::from_str("commands"), value: rec.commands.clone() });
    let out = CheckRecord {
        matching_content: rec.matching_content.clone(),
        violations,
        properties,
    };
    proof {
        assert(out.deep_view().violations =~~= remote_command_check_record(rec.deep_view()).violations);
        assert(out.deep_view().properties =~~= remote_command_check_record(rec.deep_view()).properties);
    }
    out
}

/// What deriving environments from command-execution records yields.
pub open spec fn remote_command_environments_spec(
    rs: Seq<RemoteCommandCheckInfoView>,
    machine: Seq<char>,
    service: Seq<char>,
) -> Result<Seq<EnvironmentView>, ConversionErrorView> {
    environments_of_records_spec(
        rs.map_values(|r: RemoteCommandCheckInfoView| remote_command_check_record(r)),
        machine,
        service,
    )
}

/// Derives the environments of a command-execution service.
fn remote_command_environments(rs: &Vec<RemoteCommandCheckInfo>, machine: &str, service: &str) -> (r: Result<
    Vec<Environment>,
    ConversionError,
>)
    ensures
        env_result_view(r) == remote_command_environments_spec(rs.deep_view(), machine@, service@),
{
    let mut recs: Vec<CheckRecord> = Vec::new();
    let mut i: usize = 0;
    while i < rs.len()
        invariant
            i <= rs.len(),
            recs.deep_view().len() == i,
            forall|j: int|
                0 <= j < i ==> recs.deep_view()[j] == remote_command_check_record(rs.deep_view()[j]),
        decreases rs.len() - i,
    {
        let ghost prev = recs.deep_view();
        recs.push(remote_command_record(&rs[i]));
        proof {
            assert forall|j: int|
                0 <= j < i + 1 implies recs.deep_view()[j] == remote_command_check_record(
                rs.deep_view()[j],
            ) by {
                if j < i as int {
                    assert(recs.deep_view()[j] == prev[j]);
                } else {
                    assert(recs.deep_view()[j] == recs@[j].deep_view());
                }
            }
        }
        i += 1;
    }
    proof {
        assert(recs.deep_view() =~~= rs.deep_view().map_values(
            |r: RemoteCommandCheckInfoView| remote_command_check_record(r),
        ));
    }
    environments_of_records(&recs, machine, service)
}

/// The single environment of a matcher-only kind: the supplied matcher, or
/// the kind's fixed default, with no properties.
pub open spec fn singleton_environment(matcher: Option<Seq<char>>, default: Seq<char>) -> Seq<
    EnvironmentView,
> {
    match matcher {
        Some(m) => seq![EnvironmentView { matching_content: m, properties: seq![] }],
        None => seq![EnvironmentView { matching_content: default, properties: seq![] }],
    }
}

/// Builds the single environment of a matcher-only kind.
fn singleton_env_vec(matcher: &Option<String>, default: &str) -> (r: Vec<Environment>)
    ensures
        r.deep_view() == singleton_environment(matcher.deep_view(), default@),
{
    let mc = match matcher {
        Some(m) => m.clone(),
        None => default.to_owned(),
    };
    let mut v: Vec<Environment> = Vec::new();
    v.push(Environment { matching_content: mc, properties: Vec::new() });
    proof {
        assert(v.deep_view() =~~= singleton_environment(matcher.deep_view(), default@));
    }
    v
}

/// What deriving the environments of a service definition yields, for every
/// kind: per-record validation for the record-bearing kinds, the fixed or
/// supplied matcher for ICMP, RDP and VNC, and nothing for Docker.
pub open spec fn environments_spec(
    d: ServiceDefinitionView,
    machine: Seq<char>,
    service: Seq<char>,
) -> Result<Seq<EnvironmentView>, ConversionErrorView> {
    match d {
        ServiceDefinitionView::Dns { environment } => dns_environments_spec(
            environment,
            machine,
            service,
        ),
        ServiceDefinitionView::Docker { .. } => Ok(Seq::empty()),
        ServiceDefinitionView::Elasticsearch { environment } => elasticsearch_environments_spec(
            environment,
            machine,
            service,
        ),
        ServiceDefinitionView::Ftp { environment } => ftp_environments_spec(
            environment,
            machine,
            service,
        ),
        ServiceDefinitionView::Http { environment } => http_environments_spec(
            environment,
            machine,
            service,
        ),
        ServiceDefinitionView::Https { environment } => http_environments_spec(
            environment,
            machine,
            service,
        ),
        ServiceDefinitionView::Icmp { environment } => Ok(
            singleton_environment(environment, "1 packets transmitted, 1 received"@),
        ),
        ServiceDefinitionView::Imap { environment } => imap_environments_spec(
            environment,
            machine,
            service,
        ),
        ServiceDefinitionView::Imaps { environment } => imap_environments_spec(
            environment,
            machine,
            service,
        ),
        ServiceDefinitionView::Ldap { environment } => ldap_environments_spec(
            environment,
            machine,
            service,
        ),
        ServiceDefinitionView::Mssql { environment } => sql_environments_spec(
            environment,
            machine,
            service,
        ),
        ServiceDefinitionView::Mysql { environment } => sql_environments_spec(
            environment,
            machine,
            service,
        ),
        ServiceDefinitionView::Nfs { environment } => nfs_environments_spec(
            environment,
            machine,
            service,
        ),
        ServiceDefinitionView::Pop3 { environment } => pop_environments_spec(
            environment,
            machine,
            service,
        ),
        ServiceDefinitionView::Pop3s { environment } => pop_environments_spec(
            environment,
            machine,
            service,
        ),
        ServiceDefinitionView::PostgreSql { environment } => sql_environments_spec(
            environment,
            machine,
            service,
        ),
        ServiceDefinitionView::Rdp { environment } => Ok(
            singleton_environment(environment, "SUCCESS$"@),
        ),
        ServiceDefinitionView::Smb { environment } => smb_environments_spec(
            environment,
            machine,
            service,
        ),
        ServiceDefinitionView::Smtp { environment } => smtp_environments_spec(
            environment,
            machine,
            service,
        ),
        ServiceDefinitionView::Smtps { environment } => smtp_environments_spec(
            environment,
            machine,
            service,
        ),
        ServiceDefinitionView::Ssh { environment } => remote_command_environments_spec(
            environment,
            machine,
            service,
        ),
        ServiceDefinitionView::Vnc { environment } => Ok(
            singleton_environment(environment, "ACCOUNT FOUND"@),
        ),
        ServiceDefinitionView::WinRm { environment } => remote_command_environments_spec(
            environment,
            machine,
            service,
        ),
        ServiceDefinitionView::Wordpress { environment } => http_environments_spec(
            environment,
            machine,
            service,
        ),
    }
}

/// The fixed name of each kind's check routine in the scoring engine.
pub open spec fn check_name_spec(d: ServiceDefinitionView) -> Seq<char> {
    match d {
        ServiceDefinitionView::Dns { .. } => "DNSCheck"@,
        ServiceDefinitionView::Docker { .. } => "DockerCheck"@,
        ServiceDefinitionView::Elasticsearch { .. } => "ElasticsearchCheck"@,
        ServiceDefinitionView::Ftp { .. } => "FTPCheck"@,
        ServiceDefinitionView::Http { .. } => "HTTPCheck"@,
        ServiceDefinitionView::Https { .. } => "HTTPSCheck"@,
        ServiceDefinitionView::Icmp { .. } => "ICMPCheck"@,
        ServiceDefinitionView::Imap { .. } => "IMAPCheck"@,
        ServiceDefinitionView::Imaps { .. } => "IMAPSCheck"@,
        ServiceDefinitionView::Ldap { .. } => "LDAPCheck"@,
        ServiceDefinitionView::Mssql { .. } => "MSSQLCheck"@,
        ServiceDefinitionView::Mysql { .. } => "MYSQLCheck"@,
        ServiceDefinitionView::Nfs { .. } => "NFSCheck"@,
        ServiceDefinitionView::Pop3 { .. } => "POP3Check"@,
        ServiceDefinitionView::Pop3s { .. } => "POP3SCheck"@,
        ServiceDefinitionView::PostgreSql { .. } => "PostgreSQLCheck"@,
        ServiceDefinitionView::Rdp { .. } => "RDPCheck"@,
        ServiceDefinitionView::Smb { .. } => "SMBCheck"@,
        ServiceDefinitionView::Smtp { .. } => "SMTPCheck"@,
        ServiceDefinitionView::Smtps { .. } => "SMTPSCheck"@,
        ServiceDefinitionView::Ssh { .. } => "SSHCheck"@,
        ServiceDefinitionView::Vnc { .. } => "VNCCheck"@,
        ServiceDefinitionView::WinRm { .. } => "WinRMCheck"@,
        ServiceDefinitionView::Wordpress { .. } => "WordpressCheck"@,
    }
}

impl ServiceDefinition {
    /// Validates every check record of this definition and derives the
    /// environments handed to the prober; any violated rule rejects the whole
    /// service, so no partial environment list is ever produced.
    pub fn environments(&self, mname: &str, sname: &str) -> (r: Result<
        Vec<Environment>,
        ConversionError,
    >)
        ensures
            env_result_view(r) == environments_spec(self.deep_view(), mname@, sname@),
    {
        match self {
            ServiceDefinition::Dns { environment } => dns_environments(environment, mname, sname),
            ServiceDefinition::Docker { .. } => {
                let r: Vec<Environment> = Vec::new();
                proof {
                    assert(r.deep_view() =~~= Seq::<EnvironmentView>::empty());
                }
                Ok(r)
            },
            ServiceDefinition::Elasticsearch { environment } => elasticsearch_environments(environment, mname, sname),
            ServiceDefinition::Ftp { environment } => ftp_environments(environment, mname, sname),
            ServiceDefinition::Http { environment } => http_environments(environment, mname, sname),
            ServiceDefinition::Https { environment } => http_environments(environment, mname, sname),
            ServiceDefinition::Icmp { environment } => Ok(
                singleton_env_vec(environment, "1 packets transmitted, 1 received"),
            ),
            ServiceDefinition::Imap { environment } => imap_environments(environment, mname, sname),
            ServiceDefinition::Imaps { environment } => imap_environments(environment, mname, sname),
            ServiceDefinition::Ldap { environment } => ldap_environments(environment, mname, sname),
            ServiceDefinition::Mssql { environment } => sql_environments(environment, mname, sname),
            ServiceDefinition::Mysql { environment } => sql_environments(environment, mname, sname),
            ServiceDefinition::Nfs { environment } => nfs_environments(environment, mname, sname),
            ServiceDefinition::Pop3 { environment } => pop_environments(environment, mname, sname),
            ServiceDefinition::Pop3s { environment } => pop_environments(environment, mname, sname),
            ServiceDefinition::PostgreSql { environment } => sql_environments(environment, mname, sname),
            ServiceDefinition::Rdp { environment } => Ok(
                singleton_env_vec(environment, "SUCCESS$"),
            ),
            ServiceDefinition::Smb { environment } => smb_environments(environment, mname, sname),
            ServiceDefinition::Smtp { environment } => smtp_environments(environment, mname, sname),
            ServiceDefinition::Smtps { environment } => smtp_environments(environment, mname, sname),
            ServiceDefinition::Ssh { environment } => remote_command_environments(environment, mname, sname),
            ServiceDefinition::Vnc { environment } => Ok(
                singleton_env_vec(environment, "ACCOUNT FOUND"),
            ),
            ServiceDefinition::WinRm { environment } => remote_command_environments(environment, mname, sname),
            ServiceDefinition::Wordpress { environment } => http_environments(environment, mname, sname),
        }
    }

    /// The fixed name of this kind's check routine in the scoring engine.
    pub fn check_name(&self) -> (r: &'static str)
        ensures
            r@ == check_name_spec(self.deep_view()),
    {
        match self {
            ServiceDefinition::Dns { .. } => "DNSCheck",
            ServiceDefinition::Docker { .. } => "DockerCheck",
            ServiceDefinition::Elasticsearch { .. } => "ElasticsearchCheck",
            ServiceDefinition::Ftp { .. } => "FTPCheck",
            ServiceDefinition::Http { .. } => "HTTPCheck",
            ServiceDefinition::Https { .. } => "HTTPSCheck",
            ServiceDefinition::Icmp { .. } => "ICMPCheck",
            ServiceDefinition::Imap { .. } => "IMAPCheck",
            ServiceDefinition::Imaps { .. } => "IMAPSCheck",
            ServiceDefinition::Ldap { .. } => "LDAPCheck",
            ServiceDefinition::Mssql { .. } => "MSSQLCheck",
            ServiceDefinition::Mysql { .. } => "MYSQLCheck",
            ServiceDefinition::Nfs { .. } => "NFSCheck",
            ServiceDefinition::Pop3 { .. } => "POP3Check",
            ServiceDefinition::Pop3s { .. } => "POP3SCheck",
            ServiceDefinition::PostgreSql { .. } => "PostgreSQLCheck",
            ServiceDefinition::Rdp { .. } => "RDPCheck",
            ServiceDefinition::Smb { .. } => "SMBCheck",
            ServiceDefinition::Smtp { .. } => "SMTPCheck",
            ServiceDefinition::Smtps { .. } => "SMTPSCheck",
            ServiceDefinition::Ssh { .. } => "SSHCheck",
            ServiceDefinition::Vnc { .. } => "VNCCheck",
            ServiceDefinition::WinRm { .. } => "WinRMCheck",
            ServiceDefinition::Wordpress { .. } => "WordpressCheck",
        }
    }
}

} // verus!
