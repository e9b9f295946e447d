//! Container reports and container descriptions.

use vstd::prelude::*;
use bollard::models::ContainerStateStatusEnum;
use crate::messages::{ContainerStatResponse, ContainerResourceStatsResponse, ResourceStats};
use crate::docker::DockerError;

verus! {

/// The state a container is in, as Docker names it; `Empty` is a state that
/// Docker left unnamed.
#[derive(Debug, Clone, Copy, PartialEq, Eq)]
pub enum ContainerStatus {
    Empty,
    Created,
    Running,
    Paused,
    Restarting,
    Removing,
    Exited,
    Dead,
}

/// The name under which a status is reported.
pub open spec fn status_text(status: ContainerStatus) -> Seq<char> {
    match status {
        ContainerStatus::Empty => Seq::empty(),
        ContainerStatus::Created => "created"@,
        ContainerStatus::Running => "running"@,
        ContainerStatus::Paused => "paused"@,
        ContainerStatus::Restarting => "restarting"@,
        ContainerStatus::Removing => "removing"@,
        ContainerStatus::Exited => "exited"@,
        ContainerStatus::Dead => "dead"@,
    }
}

/// Distinct statuses are reported under distinct names, so a report's status
/// names the state the container was inspected in.
pub proof fn lemma_status_text_identifies(s1: ContainerStatus, s2: ContainerStatus)
    requires
        status_text(s1) == status_text(s2),
    ensures
        s1 == s2,
{
    reveal_strlit("created");
    reveal_strlit("running");
    reveal_strlit("paused");
    reveal_strlit("restarting");
    reveal_strlit("removing");
    reveal_strlit("exited");
    reveal_strlit("dead");
    if s1 != s2 {
        let t1 = status_text(s1);
        let t2 = status_text(s2);
        if t1.len() == t2.len() && t1.len() > 1 {
            assert(t1[0] != t2[0] || t1[1] != t2[1] || t1[2] != t2[2]);
        }
    }
}

/// Writes a status with `to_string`, through the `Display` impl of bollard's
/// `ContainerStateStatusEnum`: the status is mapped onto bollard's variant of the
/// same name, and bollard-stubs writes `EMPTY` as the empty string and every
/// other variant as its name in lower case. The contract claims that table.
#[verifier::external_body]
fn status_display(status: ContainerStatus) -> (text: String)
    ensures
        text@ == status_text(status),
{
    let docker_status = match status {
        ContainerStatus::Empty => ContainerStateStatusEnum::EMPTY,
        ContainerStatus::Created => ContainerStateStatusEnum::CREATED,
        ContainerStatus::Running => ContainerStateStatusEnum::RUNNING,
        ContainerStatus::Paused => ContainerStateStatusEnum::PAUSED,
        ContainerStatus::Restarting => ContainerStateStatusEnum::RESTARTING,
        ContainerStatus::Removing => ContainerStateStatusEnum::REMOVING,
        ContainerStatus::Exited => ContainerStateStatusEnum::EXITED,
        ContainerStatus::Dead => ContainerStateStatusEnum::DEAD,
    };
    docker_status.to_string()
}

/// The state part of an inspection.
#[derive(Debug, Clone, Copy, PartialEq, Eq)]
pub struct ContainerState {
    pub status: Option<ContainerStatus>,
}

/// What Docker answered to the inspection of a container; a field it left out
/// is `None`.
#[derive(Debug, Clone, PartialEq, Eq)]
pub struct ContainerInspection {
    pub id: Option<String>,
    pub name: Option<String>,
    pub image: Option<String>,
    pub created: Option<String>,
    pub state: Option<ContainerState>,
}

/// The text reported for a field: its value, or `Unknown` where there is none.
pub open spec fn text_or_unknown(field: Option<String>) -> Seq<char> {
    match field {
        Some(s) => s@,
        None => "Unknown"@,
    }
}

/// The status reported for an inspection whose state is present: its status,
/// or the unnamed one where Docker gave none.
pub open spec fn reported_status(state: ContainerState) -> ContainerStatus {
    match state.status {
        Some(s) => s,
        None => ContainerStatus::Empty,
    }
}

/// `report` is the report of a container that was inspected as `inspection`.
pub open spec fn reports_inspection(inspection: ContainerInspection, report: ContainerStatResponse) -> bool {
    &&& report.container_id@ == text_or_unknown(inspection.id)
    &&& report.name@ == text_or_unknown(inspection.name)
    &&& report.image@ == text_or_unknown(inspection.image)
    &&& report.created@ == text_or_unknown(inspection.created)
    &&& report.status@ == status_text(reported_status(inspection.state.unwrap()))
}

fn or_unknown(field: Option<String>) -> (text: String)
    ensures
        text@ == text_or_unknown(field),
        field matches Some(s) ==> text@ == s@,
        field is None ==> text@ == "Unknown"@,
{
    match field {
        Some(s) => s,
        None => "Unknown".to_string(),
    }
}

/// Builds the report of a container from its inspection: `None` stands for an
/// inspection that failed, which is the error `StatsUnavailable`. A field that
/// Docker left out reads `Unknown`; the status is written by its name. The state
/// of a successful inspection must be present.
pub fn get_container_stats(inspection: Option<ContainerInspection>) -> (res: Result<ContainerStatResponse, DockerError>)
    requires
        inspection matches Some(i) ==> i.state is Some,
    ensures
        res is Ok <==> inspection is Some,
        res matches Ok(report) ==> reports_inspection(inspection.unwrap(), report),
        res matches Err(e) ==> e == DockerError::StatsUnavailable,
        inspection matches Some(i) ==> {
            let report = res->Ok_0;
            &&& i.id matches Some(v) ==> report.container_id@ == v@
            &&& i.id is None ==> report.container_id@ == "Unknown"@
            &&& i.name matches Some(v) ==> report.name@ == v@
            &&& i.name is None ==> report.name@ == "Unknown"@
            &&& i.image matches Some(v) ==> report.image@ == v@
            &&& i.image is None ==> report.image@ == "Unknown"@
            &&& i.created matches Some(v) ==> report.created@ == v@
            &&& i.created is None ==> report.created@ == "Unknown"@
            &&& i.state.unwrap().status matches Some(st) ==> report.status@ == status_text(st)
            &&& i.state.unwrap().status is None ==> report.status@.len() == 0
        },
{
    match inspection {
        None => Err(DockerError::StatsUnavailable),
        Some(i) => {
            let state = i.state.unwrap();
            let status = match state.status {
                Some(s) => s,
                None => ContainerStatus::Empty,
            };
            Ok(ContainerStatResponse {
                container_id: or_unknown(i.id),
                name: or_unknown(i.name),
                image: or_unknown(i.image),
                status: status_display(status),
                created: or_unknown(i.created),
            })
        },
    }
}

/// The network counters of a statistics sample.
#[derive(Debug, Clone, Copy, PartialEq, Eq)]
pub struct NetworkCounters {
    pub rx_bytes: u64,
    pub tx_bytes: u64,
}

/// One statistics sample of a container, as Docker streams it; a counter that
/// Docker left out is `None`.
#[derive(Debug, Clone, Copy, PartialEq, Eq)]
pub struct StatsSample {
    pub memory_usage: Option<u64>,
    pub memory_limit: Option<u64>,
    pub cpu_total_usage: u64,
    pub network: Option<NetworkCounters>,
}

/// A counter that may be missing, read as zero where it is.
pub open spec fn or_zero(counter: Option<u64>) -> u64 {
    match counter {
        Some(v) => v,
        None => 0,
    }
}

/// The resource counters reported for a sample.
pub open spec fn sample_resources(sample: StatsSample) -> ResourceStats {
    ResourceStats {
        memory_usage: or_zero(sample.memory_usage),
        memory_limit: or_zero(sample.memory_limit),
        cpu_usage: sample.cpu_total_usage,
        network_rx: match sample.network {
            Some(n) => n.rx_bytes,
            None => 0,
        },
        network_tx: match sample.network {
            Some(n) => n.tx_bytes,
            None => 0,
        },
    }
}

/// Builds the resource report of a container from the first sample of its
/// statistics stream: `None` stands for a stream that ended or failed before
/// its first sample, which is the error `StatsUnavailable`. Counters that
/// Docker left out read as zero.
pub fn get_container_resource_stats(first: Option<StatsSample>) -> (res: Result<ContainerResourceStatsResponse, DockerError>)
    ensures
        res is Ok <==> first is Some,
        res matches Ok(report) ==> report.resources == Some(sample_resources(first.unwrap())),
        res matches Err(e) ==> e == DockerError::StatsUnavailable,
        first matches Some(s) ==> {
            &&& res matches Ok(report)
            &&& res->Ok_0.resources matches Some(r)
            &&& r.cpu_usage == s.cpu_total_usage
            &&& s.memory_usage matches Some(m) ==> r.memory_usage == m
            &&& s.memory_usage is None ==> r.memory_usage == 0
            &&& s.memory_limit matches Some(m) ==> r.memory_limit == m
            &&& s.memory_limit is None ==> r.memory_limit == 0
            &&& s.network matches Some(n) ==> r.network_rx == n.rx_bytes && r.network_tx == n.tx_bytes
            &&& s.network is None ==> r.network_rx == 0 && r.network_tx == 0
        },
{
    match first {
        None => Err(DockerError::StatsUnavailable),
        Some(sample) => {
            let memory_usage = match sample.memory_usage {
                Some(v) => v,
                None => 0,
            };
            let memory_limit = match sample.memory_limit {
                Some(v) => v,
                None => 0,
            };
            let (network_rx, network_tx) = match sample.network {
                Some(n) => (n.rx_bytes, n.tx_bytes),
                None => (0, 0),
            };
            Ok(ContainerResourceStatsResponse {
                resources: Some(ResourceStats {
                    memory_usage,
                    memory_limit,
                    cpu_usage: sample.cpu_total_usage,
                    network_rx,
                    network_tx,
                }),
            })
        },
    }
}

/// The digit that writes a value below sixteen in lower-case hexadecimal.
pub open spec fn hex_digit(n: u128) -> char {
    if n < 10 {
        (48 + n) as char
    } else {
        (87 + n) as char
    }
}

/// The `k`-th four-bit group of a 128-bit value, counted from the most
/// significant end (`k` from 0 to 31).
pub open spec fn uuid_nibble(value: u128, k: int) -> u128 {
    (value >> ((124 - 4 * k) as u128)) & 0xf
}

/// The hyphenated lower-case form of a UUID: its 32 hexadecimal digits, most
/// significant first, in groups of 8, 4, 4, 4 and 12 joined by `-`.
pub open spec fn uuid_text(value: u128) -> Seq<char> {
    Seq::new(
        36,
        |p: int|
            if p == 8 || p == 13 || p == 18 || p == 23 {
                '-'
            } else {
                let k = if p < 8 {
                    p
                } else if p < 13 {
                    p - 1
                } else if p < 18 {
                    p - 2
                } else if p < 23 {
                    p - 3
                } else {
                    p - 4
                };
                hex_digit(uuid_nibble(value, k))
            },
    )
}

/// Two UUIDs with the same hyphenated form are the same UUID: the `octo-id`
/// label of a container names the UUID it was created with and no other.
pub proof fn lemma_uuid_text_identifies(a: u128, b: u128)
    requires
        uuid_text(a) == uuid_text(b),
    ensures
        a == b,
{
    assert forall|k: int| 0 <= k < 32 implies #[trigger] uuid_nibble(a, k) == uuid_nibble(b, k) by {
        let p = if k < 8 {
            k
        } else if k < 12 {
            k + 1
        } else if k < 16 {
            k + 2
        } else if k < 20 {
            k + 3
        } else {
            k + 4
        };
        assert(uuid_text(a)[p] == hex_digit(uuid_nibble(a, k)));
        assert(uuid_text(b)[p] == hex_digit(uuid_nibble(b, k)));
        lemma_nibble_below_sixteen(a, k);
        lemma_nibble_below_sixteen(b, k);
        lemma_hex_digit_code(uuid_nibble(a, k));
        lemma_hex_digit_code(uuid_nibble(b, k));
    }
    assert(uuid_nibble(a, 0) == uuid_nibble(b, 0));
    assert(uuid_nibble(a, 1) == uuid_nibble(b, 1));
    assert(uuid_nibble(a, 2) == uuid_nibble(b, 2));
    assert(uuid_nibble(a, 3) == uuid_nibble(b, 3));
    assert(uuid_nibble(a, 4) == uuid_nibble(b, 4));
    assert(uuid_nibble(a, 5) == uuid_nibble(b, 5));
    assert(uuid_nibble(a, 6) == uuid_nibble(b, 6));
    assert(uuid_nibble(a, 7) == uuid_nibble(b, 7));
    assert(uuid_nibble(a, 8) == uuid_nibble(b, 8));
    assert(uuid_nibble(a, 9) == uuid_nibble(b, 9));
    assert(uuid_nibble(a, 10) == uuid_nibble(b, 10));
    assert(uuid_nibble(a, 11) == uuid_nibble(b, 11));
    assert(uuid_nibble(a, 12) == uuid_nibble(b, 12));
    assert(uuid_nibble(a, 13) == uuid_nibble(b, 13));
    assert(uuid_nibble(a, 14) == uuid_nibble(b, 14));
    assert(uuid_nibble(a, 15) == uuid_nibble(b, 15));
    assert(uuid_nibble(a, 16) == uuid_nibble(b, 16));
    assert(uuid_nibble(a, 17) == uuid_nibble(b, 17));
    assert(uuid_nibble(a, 18) == uuid_nibble(b, 18));
    assert(uuid_nibble(a, 19) == uuid_nibble(b, 19));
    assert(uuid_nibble(a, 20) == uuid_nibble(b, 20));
    assert(uuid_nibble(a, 21) == uuid_nibble(b, 21));
    assert(uuid_nibble(a, 22) == uuid_nibble(b, 22));
    assert(uuid_nibble(a, 23) == uuid_nibble(b, 23));
    assert(uuid_nibble(a, 24) == uuid_nibble(b, 24));
    assert(uuid_nibble(a, 25) == uuid_nibble(b, 25));
    assert(uuid_nibble(a, 26) == uuid_nibble(b, 26));
    assert(uuid_nibble(a, 27) == uuid_nibble(b, 27));
    assert(uuid_nibble(a, 28) == uuid_nibble(b, 28));
    assert(uuid_nibble(a, 29) == uuid_nibble(b, 29));
    assert(uuid_nibble(a, 30) == uuid_nibble(b, 30));
    assert(uuid_nibble(a, 31) == uuid_nibble(b, 31));
    assert(a == b) by (bit_vector)
        requires
            (a >> 124u128) & 0xf == (b >> 124u128) & 0xf,
            (a >> 120u128) & 0xf == (b >> 120u128) & 0xf,
            (a >> 116u128) & 0xf == (b >> 116u128) & 0xf,
            (a >> 112u128) & 0xf == (b >> 112u128) & 0xf,
            (a >> 108u128) & 0xf == (b >> 108u128) & 0xf,
            (a >> 104u128) & 0xf == (b >> 104u128) & 0xf,
            (a >> 100u128) & 0xf == (b >> 100u128) & 0xf,
            (a >> 96u128) & 0xf == (b >> 96u128) & 0xf,
            (a >> 92u128) & 0xf == (b >> 92u128) & 0xf,
            (a >> 88u128) & 0xf == (b >> 88u128) & 0xf,
            (a >> 84u128) & 0xf == (b >> 84u128) & 0xf,
            (a >> 80u128) & 0xf == (b >> 80u128) & 0xf,
            (a >> 76u128) & 0xf == (b >> 76u128) & 0xf,
            (a >> 72u128) & 0xf == (b >> 72u128) & 0xf,
            (a >> 68u128) & 0xf == (b >> 68u128) & 0xf,
            (a >> 64u128) & 0xf == (b >> 64u128) & 0xf,
            (a >> 60u128) & 0xf == (b >> 60u128) & 0xf,
            (a >> 56u128) & 0xf == (b >> 56u128) & 0xf,
            (a >> 52u128) & 0xf == (b >> 52u128) & 0xf,
            (a >> 48u128) & 0xf == (b >> 48u128) & 0xf,
            (a >> 44u128) & 0xf == (b >> 44u128) & 0xf,
            (a >> 40u128) & 0xf == (b >> 40u128) & 0xf,
            (a >> 36u128) & 0xf == (b >> 36u128) & 0xf,
            (a >> 32u128) & 0xf == (b >> 32u128) & 0xf,
            (a >> 28u128) & 0xf == (b >> 28u128) & 0xf,
            (a >> 24u128) & 0xf == (b >> 24u128) & 0xf,
            (a >> 20u128) & 0xf == (b >> 20u128) & 0xf,
            (a >> 16u128) & 0xf == (b >> 16u128) & 0xf,
            (a >> 12u128) & 0xf == (b >> 12u128) & 0xf,
            (a >> 8u128) & 0xf == (b >> 8u128) & 0xf,
            (a >> 4u128) & 0xf == (b >> 4u128) & 0xf,
            (a >> 0u128) & 0xf == (b >> 0u128) & 0xf,
    ;
}

proof fn lemma_hex_digit_code(n: u128)
    requires
        n < 16,
    ensures
        hex_digit(n) as int == if n < 10 { 48 + n } else { 87 + n },
{
}

proof fn lemma_nibble_below_sixteen(value: u128, k: int)
    ensures
        uuid_nibble(value, k) < 16,
{
    let shifted = value >> ((124 - 4 * k) as u128);
    assert(shifted & 0xf < 16) by (bit_vector);
}

/// A value that uuid's `new_v4` can give: version 4 in bits 76 to 79 and the
/// variant bits `10` in bits 62 and 63.
pub open spec fn is_random_uuid(value: u128) -> bool {
    &&& (value >> 76u128) & 0xf == 4
    &&& (value >> 62u128) & 3 == 2
}

/// Writes `uuid::Uuid::from_u128(value)` with `to_string`, whose `Display` is the
/// lower-case hyphenated form of the UUID's bytes in big-endian order. The
/// contract claims that form.
#[verifier::external_body]
fn uuid_string(value: u128) -> (text: String)
    ensures
        text@ == uuid_text(value),
{
    uuid::Uuid::from_u128(value).to_string()
}

/// Draws a UUID with `uuid::Uuid::new_v4` and hands back its value
/// (`as_u128`). The value is random: the contract claims only the version and
/// variant bits, which `new_v4` sets by masking.
#[verifier::external_body]
fn random_uuid() -> (value: u128)
    ensures
        is_random_uuid(value),
{
    uuid::Uuid::new_v4().as_u128()
}

/// What a caller asks of a new container. `uuid` is the container's identity,
/// if the caller chose one.
#[derive(Debug, Clone, PartialEq, Eq)]
pub struct CreateContainer {
    pub name: String,
    pub image: String,
    pub uuid: Option<u128>,
    pub env: Option<Vec<String>>,
}

/// The description of a container handed to Docker: its name, its image, its
/// labels as key and value pairs, which standard streams are attached, and its
/// environment.
#[derive(Debug, Clone, PartialEq, Eq)]
pub struct ContainerCreation {
    pub name: String,
    pub image: String,
    pub labels: Vec<(String, String)>,
    pub attach_stderr: bool,
    pub attach_stdin: bool,
    pub attach_stdout: bool,
    pub env: Option<Vec<String>>,
}

/// `creation` describes the container that `opts` asks for, labelled with the
/// identity `id`: one label, `octo-id`, whose value is `id`; all three standard
/// streams attached; name, image and environment as asked.
pub open spec fn describes(opts: CreateContainer, id: Seq<char>, creation: ContainerCreation) -> bool {
    &&& creation.name@ == opts.name@
    &&& creation.image@ == opts.image@
    &&& creation.labels@.len() == 1
    &&& creation.labels@[0].0@ == "octo-id"@
    &&& creation.labels@[0].1@ == id
    &&& creation.attach_stderr
    &&& creation.attach_stdin
    &&& creation.attach_stdout
    &&& creation.env == opts.env
}

/// Describes the container that `opts` asks for, labelled with the identity `id`.
pub fn container_creation(opts: CreateContainer, id: String) -> (creation: ContainerCreation)
    ensures
        describes(opts, id@, creation),
        creation.name@ == opts.name@,
        creation.image@ == opts.image@,
        creation.env == opts.env,
        creation.labels@.len() == 1,
        creation.labels@[0].0@ == "octo-id"@,
        creation.labels@[0].1@ == id@,
        creation.attach_stderr && creation.attach_stdin && creation.attach_stdout,
{
    let mut labels: Vec<(String, String)> = Vec::new();
    labels.push(("octo-id".to_string(), id));
    ContainerCreation {
        name: opts.name,
        image: opts.image,
        labels,
        attach_stderr: true,
        attach_stdin: true,
        attach_stdout: true,
        env: opts.env,
    }
}

/// Describes the container that `opts` asks for. Its identity is the UUID that
/// the caller chose, written in hyphenated form; where the caller chose none,
/// a fresh random (version 4) UUID.
pub fn create_container(opts: CreateContainer) -> (creation: ContainerCreation)
    ensures
        opts.uuid matches Some(u) ==> describes(opts, uuid_text(u), creation),
        opts.uuid is None ==> exists|u: u128| is_random_uuid(u) && describes(opts, uuid_text(u), creation),
        creation.name@ == opts.name@,
        creation.image@ == opts.image@,
        creation.env == opts.env,
        creation.labels@.len() == 1,
        creation.labels@[0].0@ == "octo-id"@,
        opts.uuid matches Some(u) ==> creation.labels@[0].1@ == uuid_text(u),
        creation.attach_stderr && creation.attach_stdin && creation.attach_stdout,
{
    let value = match opts.uuid {
        Some(u) => u,
        None => random_uuid(),
    };
    let id = uuid_string(value);
    container_creation(opts, id)
}

/// A report copies what the inspection tells: a field Docker gave is reported
/// as given, a field it left out as `Unknown`, and the status by its name.
pub proof fn lemma_report_copies_inspection(inspection: ContainerInspection, report: ContainerStatResponse)
    requires
        inspection.state is Some,
        reports_inspection(inspection, report),
    ensures
        inspection.id matches Some(v) ==> report.container_id@ == v@,
        inspection.name matches Some(v) ==> report.name@ == v@,
        inspection.image matches Some(v) ==> report.image@ == v@,
        inspection.created matches Some(v) ==> report.created@ == v@,
        inspection.id is None ==> report.container_id@ == "Unknown"@,
        inspection.name is None ==> report.name@ == "Unknown"@,
        inspection.image is None ==> report.image@ == "Unknown"@,
        inspection.created is None ==> report.created@ == "Unknown"@,
        inspection.state.unwrap().status matches Some(st) ==> report.status@ == status_text(st),
        inspection.state.unwrap().status is None ==> report.status@.len() == 0,
{
}

/// The resource counters of a sample are the sample's own counters, with a
/// missing one read as zero; in particular the CPU figure is Docker's total,
/// whole.
pub proof fn lemma_resources_copy_sample(sample: StatsSample)
    ensures
        sample_resources(sample).cpu_usage == sample.cpu_total_usage,
        sample.memory_usage matches Some(m) ==> sample_resources(sample).memory_usage == m,
        sample.memory_usage is None ==> sample_resources(sample).memory_usage == 0,
        sample.memory_limit matches Some(m) ==> sample_resources(sample).memory_limit == m,
        sample.memory_limit is None ==> sample_resources(sample).memory_limit == 0,
        sample.network matches Some(n) ==> sample_resources(sample).network_rx == n.rx_bytes
            && sample_resources(sample).network_tx == n.tx_bytes,
        sample.network is None ==> sample_resources(sample).network_rx == 0
            && sample_resources(sample).network_tx == 0,
{
}

/// A described container is the one asked for: same name, image and whole
/// environment, one `octo-id` label carrying the identity, all streams attached.
pub proof fn lemma_description_is_the_request(opts: CreateContainer, id: Seq<char>, creation: ContainerCreation)
    requires
        describes(opts, id, creation),
    ensures
        creation.name@ == opts.name@,
        creation.image@ == opts.image@,
        creation.env == opts.env,
        creation.labels@.len() == 1,
        creation.labels@[0].0@ == "octo-id"@,
        creation.labels@[0].1@ == id,
        creation.attach_stderr && creation.attach_stdin && creation.attach_stdout,
{
}

} // verus!
