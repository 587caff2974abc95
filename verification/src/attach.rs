//! Which tracepoints each probe attaches to, and what follows from how an
//! attachment went: a tracepoint that the running kernel lacks is skipped,
//! a failure on one that it has is an error of that probe alone.

use crate::settings::{enabled, spec_enabled, Settings};
use vstd::prelude::*;
use vstd::string::*;

verus! {

/// One attachment: a compiled program and the tracepoint it belongs to.
#[derive(Clone, Copy, Debug, PartialEq, Eq)]
pub struct TracepointConfig<'a> {
    pub program_name: &'a str,
    pub category: &'a str,
    pub name: &'a str,
}

/// The built-in probes.
#[derive(Clone, Copy, Debug, PartialEq, Eq)]
pub enum ProbeKind {
    NetworkLatency,
    BlockIo,
    GpuOpen,
}

/// Probe for connection attempts.
#[derive(Clone, Copy, Debug, PartialEq, Eq)]
pub struct NetworkLatencyProbe;

/// Probe for start and completion of block requests.
#[derive(Clone, Copy, Debug, PartialEq, Eq)]
pub struct BlockIoProbe;

/// Probe for opens of GPU device files.
#[derive(Clone, Copy, Debug, PartialEq, Eq)]
pub struct GpuOpenProbe;

/// A unit that pairs tracepoints with a ring buffer.
pub trait Probe {
    spec fn spec_kind(&self) -> ProbeKind;

    fn kind(&self) -> (k: ProbeKind)
        ensures
            k == self.spec_kind(),
    ;
}

impl Probe for NetworkLatencyProbe {
    open spec fn spec_kind(&self) -> ProbeKind {
        ProbeKind::NetworkLatency
    }

    fn kind(&self) -> (k: ProbeKind) {
        ProbeKind::NetworkLatency
    }
}

impl Probe for BlockIoProbe {
    open spec fn spec_kind(&self) -> ProbeKind {
        ProbeKind::BlockIo
    }

    fn kind(&self) -> (k: ProbeKind) {
        ProbeKind::BlockIo
    }
}

impl Probe for GpuOpenProbe {
    open spec fn spec_kind(&self) -> ProbeKind {
        ProbeKind::GpuOpen
    }

    fn kind(&self) -> (k: ProbeKind) {
        ProbeKind::GpuOpen
    }
}

/// Program name, category and event of an attachment, as text.
pub open spec fn spec_tracepoint(t: TracepointConfig) -> (Seq<char>, Seq<char>, Seq<char>) {
    (t.program_name@, t.category@, t.name@)
}

impl ProbeKind {
    /// The attachments of a probe, in the order in which they are made.
    pub open spec fn spec_tracepoints(self) -> Seq<(Seq<char>, Seq<char>, Seq<char>)> {
        match self {
            ProbeKind::NetworkLatency => seq![
                ("honeybeepf"@, "syscalls"@, "sys_enter_connect"@),
            ],
            ProbeKind::BlockIo => seq![
                ("honeybeepf_block_io_start"@, "block"@, "block_io_start"@),
                ("honeybeepf_block_io_done"@, "block"@, "block_io_done"@),
            ],
            ProbeKind::GpuOpen => seq![
                ("honeybeepf_gpu_open_enter"@, "syscalls"@, "sys_enter_openat"@),
            ],
        }
    }

    /// The name of the ring buffer that the programs of a probe write to.
    pub open spec fn spec_map_name(self) -> Seq<char> {
        match self {
            ProbeKind::NetworkLatency => "NETWORK_EVENTS"@,
            ProbeKind::BlockIo => "BLOCK_IO_EVENTS"@,
            ProbeKind::GpuOpen => "GPU_OPEN_EVENTS"@,
        }
    }

    /// Lists the attachments of a probe.
    pub fn tracepoints(self) -> (list: Vec<TracepointConfig<'static>>)
        ensures
            list@.map_values(|t: TracepointConfig| spec_tracepoint(t)) == self.spec_tracepoints(),
    {
        let mut list: Vec<TracepointConfig<'static>> = Vec::new();
        match self {
            ProbeKind::NetworkLatency => {
                list.push(
                    TracepointConfig {
                        program_name: "honeybeepf",
                        category: "syscalls",
                        name: "sys_enter_connect",
                    },
                );
            },
            ProbeKind::BlockIo => {
                list.push(
                    TracepointConfig {
                        program_name: "honeybeepf_block_io_start",
                        category: "block",
                        name: "block_io_start",
                    },
                );
                list.push(
                    TracepointConfig {
                        program_name: "honeybeepf_block_io_done",
                        category: "block",
                        name: "block_io_done",
                    },
                );
            },
            ProbeKind::GpuOpen => {
                list.push(
                    TracepointConfig {
                        program_name: "honeybeepf_gpu_open_enter",
                        category: "syscalls",
                        name: "sys_enter_openat",
                    },
                );
            },
        }
        assert(list@.map_values(|t: TracepointConfig| spec_tracepoint(t))
            =~= self.spec_tracepoints());
        list
    }

    /// Names the ring buffer of a probe.
    pub fn map_name(self) -> (name: &'static str)
        ensures
            name@ == self.spec_map_name(),
    {
        match self {
            ProbeKind::NetworkLatency => "NETWORK_EVENTS",
            ProbeKind::BlockIo => "BLOCK_IO_EVENTS",
            ProbeKind::GpuOpen => "GPU_OPEN_EVENTS",
        }
    }
}

/// The probes that `settings` enable, in the order in which they are
/// attached: connections, block I/O, GPU opens.
pub open spec fn spec_attach_plan(settings: Settings) -> Seq<ProbeKind> {
    let network: Seq<ProbeKind> = if spec_enabled(settings.builtin_probes.network_latency) {
        seq![ProbeKind::NetworkLatency]
    } else {
        seq![]
    };
    let block: Seq<ProbeKind> = if spec_enabled(settings.builtin_probes.block_io) {
        seq![ProbeKind::BlockIo]
    } else {
        seq![]
    };
    let gpu: Seq<ProbeKind> = if spec_enabled(settings.builtin_probes.gpu_open) {
        seq![ProbeKind::GpuOpen]
    } else {
        seq![]
    };
    network + block + gpu
}

/// Lists the probes to attach.
pub fn attach_plan(settings: &Settings) -> (plan: Vec<ProbeKind>)
    ensures
        plan@ == spec_attach_plan(*settings),
{
    let mut plan: Vec<ProbeKind> = Vec::new();
    if enabled(settings.builtin_probes.network_latency) {
        plan.push(ProbeKind::NetworkLatency);
    }
    if enabled(settings.builtin_probes.block_io) {
        plan.push(ProbeKind::BlockIo);
    }
    if enabled(settings.builtin_probes.gpu_open) {
        plan.push(ProbeKind::GpuOpen);
    }
    assert(plan@ =~= spec_attach_plan(*settings));
    plan
}

/// Where the tracing filesystem may be mounted.
pub open spec fn spec_tracefs_mount(i: int) -> Seq<char> {
    if i == 0 {
        "/sys/kernel/tracing"@
    } else {
        "/sys/kernel/debug/tracing"@
    }
}

/// The directory of a tracepoint below a mount point of the tracing
/// filesystem.
pub open spec fn spec_tracepoint_path(mount: Seq<char>, category: Seq<char>, name: Seq<char>) -> Seq<
    char,
> {
    mount + "/events/"@ + category + "/"@ + name
}

/// Builds the directory of a tracepoint below a mount point.
pub fn tracepoint_path(mount: &str, category: &str, name: &str) -> (path: String)
    ensures
        path@ == spec_tracepoint_path(mount@, category@, name@),
{
    String::from_str(mount).concat("/events/").concat(category).concat("/").concat(name)
}

/// The two places to look for a tracepoint, in order.
pub fn tracepoint_paths(category: &str, name: &str) -> (paths: Vec<String>)
    ensures
        paths@.len() == 2,
        forall|i: int|
            0 <= i < 2 ==> (#[trigger] paths@[i])@ == spec_tracepoint_path(
                spec_tracefs_mount(i),
                category@,
                name@,
            ),
{
    let mut paths: Vec<String> = Vec::new();
    paths.push(tracepoint_path("/sys/kernel/tracing", category, name));
    paths.push(tracepoint_path("/sys/kernel/debug/tracing", category, name));
    paths
}

/// Whether a tracepoint exists, given for each place to look whether its
/// directory is there: one place is enough.
pub open spec fn spec_tracepoint_exists(found: Seq<bool>) -> bool {
    exists|i: int| 0 <= i < found.len() && found[i]
}

/// Decides whether a tracepoint exists from what each place to look gave.
pub fn tracepoint_exists(found: &[bool]) -> (present: bool)
    ensures
        present == spec_tracepoint_exists(found@),
{
    let mut i: usize = 0;
    while i < found.len()
        invariant
            i <= found@.len(),
            forall|j: int| 0 <= j < i ==> !found@[j],
        decreases found@.len() - i,
    {
        if found[i] {
            return true;
        }
        i = i + 1;
    }
    false
}

/// The step at which an attachment failed.
#[derive(Clone, Copy, Debug, PartialEq, Eq)]
pub enum AttachStep {
    /// The compiled image holds no program of that name.
    FindProgram,
    /// The program of that name is not a tracepoint program.
    ProgramType,
    /// The kernel refused to load the program.
    Load,
    /// The kernel refused to attach the loaded program.
    Attach,
}

/// An attachment that failed although its tracepoint exists.
#[derive(Clone, Copy, Debug, PartialEq, Eq)]
pub struct AttachError {
    pub step: AttachStep,
}

/// The result of one attachment: `Ok(false)` where the kernel lacks the
/// tracepoint and nothing was tried, `Ok(true)` where the program is
/// attached, and the error of the failed step otherwise.
pub open spec fn spec_attach_outcome(exists: bool, failure: Option<AttachStep>) -> Result<
    bool,
    AttachError,
> {
    if !exists {
        Ok(false)
    } else {
        match failure {
            None => Ok(true),
            Some(step) => Err(AttachError { step }),
        }
    }
}

/// Judges one attachment. `failure` is the step that failed, if one did; it
/// counts only where the tracepoint exists.
pub fn attach_outcome(exists: bool, failure: Option<AttachStep>) -> (r: Result<bool, AttachError>)
    ensures
        r == spec_attach_outcome(exists, failure),
{
    if !exists {
        return Ok(false);
    }
    match failure {
        None => Ok(true),
        Some(step) => Err(AttachError { step }),
    }
}

/// What became of a probe.
#[derive(Clone, Copy, Debug, PartialEq, Eq)]
pub enum ProbeStatus {
    /// Every one of its programs is attached; its ring buffer is consumed.
    Active,
    /// The kernel lacks one of its tracepoints; the probe is not attached
    /// and is left out.
    Skipped,
    /// An attachment failed; the probe is given up with this error.
    Failed(AttachError),
}

/// The first error among the results of attachments, if there is one.
pub open spec fn spec_first_error(outcomes: Seq<Result<bool, AttachError>>) -> Option<AttachError>
    decreases outcomes.len(),
{
    if outcomes.len() == 0 {
        None
    } else {
        match outcomes.first() {
            Err(e) => Some(e),
            Ok(_) => spec_first_error(outcomes.drop_first()),
        }
    }
}

/// The status of a probe whose attachments ended as `outcomes`: failed with
/// the first error if there is one; else skipped if it has no attachment or
/// the kernel lacks any of its tracepoints; else, with every program
/// attached, active.
pub open spec fn spec_probe_status(outcomes: Seq<Result<bool, AttachError>>) -> ProbeStatus {
    match spec_first_error(outcomes) {
        Some(e) => ProbeStatus::Failed(e),
        None => if outcomes.len() == 0 || exists|i: int|
            0 <= i < outcomes.len() && outcomes[i] == Ok::<bool, AttachError>(false) {
            ProbeStatus::Skipped
        } else {
            ProbeStatus::Active
        },
    }
}

/// Sums up the attachments of one probe. The status of a probe depends on
/// its own attachments alone.
pub fn probe_status(outcomes: &[Result<bool, AttachError>]) -> (status: ProbeStatus)
    ensures
        status == spec_probe_status(outcomes@),
{
    let mut absent = false;
    let mut i: usize = 0;
    assert(outcomes@.subrange(0, outcomes@.len() as int) =~= outcomes@);
    while i < outcomes.len()
        invariant
            i <= outcomes@.len(),
            spec_first_error(outcomes@) == spec_first_error(
                outcomes@.subrange(i as int, outcomes@.len() as int),
            ),
            forall|j: int| 0 <= j < i ==> outcomes@[j] is Ok,
            absent <==> exists|j: int|
                0 <= j < i && outcomes@[j] == Ok::<bool, AttachError>(false),
        decreases outcomes@.len() - i,
    {
        let ghost rest = outcomes@.subrange(i as int, outcomes@.len() as int);
        assert(rest.first() == outcomes@[i as int]);
        assert(rest.drop_first() =~= outcomes@.subrange(i + 1, outcomes@.len() as int));
        match outcomes[i] {
            Err(e) => {
                return ProbeStatus::Failed(e);
            },
            Ok(on) => {
                if !on {
                    absent = true;
                }
            },
        }
        i = i + 1;
    }
    if absent || outcomes.len() == 0 {
        ProbeStatus::Skipped
    } else {
        ProbeStatus::Active
    }
}

/// There is a first error exactly when some attachment ended in an error.
pub proof fn lemma_first_error_exists(outcomes: Seq<Result<bool, AttachError>>)
    ensures
        spec_first_error(outcomes) is None <==> forall|i: int|
            0 <= i < outcomes.len() ==> outcomes[i] is Ok,
    decreases outcomes.len(),
{
    if outcomes.len() > 0 {
        let rest = outcomes.drop_first();
        lemma_first_error_exists(rest);
        assert forall|i: int| 0 <= i < rest.len() implies rest[i] == outcomes[i + 1] by {}
        if outcomes[0] is Ok {
            if spec_first_error(rest) is None {
                assert forall|i: int| 0 <= i < outcomes.len() implies outcomes[i] is Ok by {
                    if i > 0 {
                        assert(rest[i - 1] == outcomes[i]);
                    }
                }
            } else {
                let k = choose|k: int| 0 <= k < rest.len() && !(rest[k] is Ok);
                assert(!(outcomes[k + 1] is Ok));
            }
        }
    }
}

/// A probe is active exactly when it has attachments and every one of them
/// ended with its program attached; one absent tracepoint is enough to
/// leave the probe out, and one error to fail it.
pub proof fn lemma_active_means_all_attached(outcomes: Seq<Result<bool, AttachError>>)
    ensures
        spec_probe_status(outcomes) is Active <==> outcomes.len() > 0 && forall|i: int|
            0 <= i < outcomes.len() ==> outcomes[i] == Ok::<bool, AttachError>(true),
        spec_probe_status(outcomes) is Failed <==> exists|i: int|
            0 <= i < outcomes.len() && outcomes[i] is Err,
{
    lemma_first_error_exists(outcomes);
    let all_attached = outcomes.len() > 0 && forall|i: int|
        0 <= i < outcomes.len() ==> outcomes[i] == Ok::<bool, AttachError>(true);
    if spec_probe_status(outcomes) is Active {
        assert forall|i: int| 0 <= i < outcomes.len() implies outcomes[i] == Ok::<
            bool,
            AttachError,
        >(true) by {
            assert(outcomes[i] is Ok);
            assert(outcomes[i] != Ok::<bool, AttachError>(false));
            match outcomes[i] {
                Ok(on) => {
                    assert(on);
                },
                Err(_) => {},
            }
        }
    }
    if all_attached {
        assert forall|i: int| 0 <= i < outcomes.len() implies outcomes[i] is Ok by {
            assert(outcomes[i] == Ok::<bool, AttachError>(true));
        }
    }
    if spec_first_error(outcomes) is Some {
        let k = choose|k: int| 0 <= k < outcomes.len() && !(outcomes[k] is Ok);
        assert(outcomes[k] is Err);
    }
}

/// The attachment to make next for a probe with `total` attachments of
/// which the first ones ended as `outcomes`: the one after them, and none
/// once all are made or one has failed. A tracepoint that the kernel lacks
/// does not stop the later ones.
pub open spec fn spec_next_attachment(outcomes: Seq<Result<bool, AttachError>>, total: nat) -> Option<
    nat,
> {
    if spec_first_error(outcomes) is None && outcomes.len() < total {
        Some(outcomes.len())
    } else {
        None
    }
}

/// Decides which attachment of a probe comes next.
pub fn next_attachment(outcomes: &[Result<bool, AttachError>], total: usize) -> (next: Option<
    usize,
>)
    ensures
        match spec_next_attachment(outcomes@, total as nat) {
            Some(i) => next == Some(i as usize),
            None => next is None,
        },
{
    match probe_status(outcomes) {
        ProbeStatus::Failed(_) => None,
        _ => if outcomes.len() < total {
            Some(outcomes.len())
        } else {
            None
        },
    }
}

/// What attaching ends with, given the status of each probe in the order
/// of the plan: the error of the first probe that failed, if one did. A
/// failed probe stops none of the others: every probe of the plan has a
/// status.
pub open spec fn spec_engine_outcome(statuses: Seq<ProbeStatus>) -> Option<AttachError>
    decreases statuses.len(),
{
    if statuses.len() == 0 {
        None
    } else {
        match statuses.first() {
            ProbeStatus::Failed(e) => Some(e),
            _ => spec_engine_outcome(statuses.drop_first()),
        }
    }
}

/// Picks the error that attaching ends with.
pub fn engine_outcome(statuses: &[ProbeStatus]) -> (r: Option<AttachError>)
    ensures
        r == spec_engine_outcome(statuses@),
{
    let mut i: usize = 0;
    assert(statuses@.subrange(0, statuses@.len() as int) =~= statuses@);
    while i < statuses.len()
        invariant
            i <= statuses@.len(),
            spec_engine_outcome(statuses@) == spec_engine_outcome(
                statuses@.subrange(i as int, statuses@.len() as int),
            ),
        decreases statuses@.len() - i,
    {
        let ghost rest = statuses@.subrange(i as int, statuses@.len() as int);
        assert(rest.first() == statuses@[i as int]);
        assert(rest.drop_first() =~= statuses@.subrange(i + 1, statuses@.len() as int));
        match statuses[i] {
            ProbeStatus::Failed(e) => {
                return Some(e);
            },
            _ => {},
        }
        i = i + 1;
    }
    None
}

/// Attaching ends without an error exactly when no probe failed, and with
/// an error it names a probe that failed and none before it did.
pub proof fn lemma_engine_outcome_is_first_failure(statuses: Seq<ProbeStatus>)
    ensures
        spec_engine_outcome(statuses) is None <==> forall|i: int|
            0 <= i < statuses.len() ==> !(statuses[i] is Failed),
        spec_engine_outcome(statuses) matches Some(e) ==> exists|i: int|
            0 <= i < statuses.len() && statuses[i] == ProbeStatus::Failed(e) && forall|j: int|
                0 <= j < i ==> !(statuses[j] is Failed),
    decreases statuses.len(),
{
    if statuses.len() > 0 {
        let rest = statuses.drop_first();
        lemma_engine_outcome_is_first_failure(rest);
        assert forall|i: int| 0 <= i < rest.len() implies rest[i] == statuses[i + 1] by {}
        match statuses.first() {
            ProbeStatus::Failed(e) => {
                assert(statuses[0] == ProbeStatus::Failed(e));
            },
            _ => {
                if spec_engine_outcome(rest) is Some {
                    let e = spec_engine_outcome(rest).unwrap();
                    let k = choose|k: int|
                        0 <= k < rest.len() && rest[k] == ProbeStatus::Failed(e) && forall|j: int|
                            0 <= j < k ==> !(rest[j] is Failed);
                    assert(statuses[k + 1] == ProbeStatus::Failed(e));
                    assert forall|j: int| 0 <= j < k + 1 implies !(statuses[j] is Failed) by {
                        if j > 0 {
                            assert(rest[j - 1] == statuses[j]);
                        }
                    }
                } else {
                    assert forall|i: int| 0 <= i < statuses.len() implies !(
                    statuses[i] is Failed) by {
                        if i > 0 {
                            assert(rest[i - 1] == statuses[i]);
                        }
                    }
                }
            },
        }
    }
}

/// Whether the ring buffer of a probe gets a consumer: only an active probe
/// does.
pub fn spawns_consumer(status: ProbeStatus) -> (spawn: bool)
    ensures
        spawn == (status is Active),
{
    match status {
        ProbeStatus::Active => true,
        _ => false,
    }
}

} // verus!
