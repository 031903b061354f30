//! The worker's build cycle as a state machine.
//!
//! One cycle runs sync, listing, an environment update, then for each
//! package a build, log compression and delivery with bounded retry. All
//! outside work — subprocesses, the tree walk, compression, the HTTP
//! submission — is performed by the driver around this module; every
//! decision between two such steps is taken here, in `step`, and the
//! driver only feeds each action's outcome back as the next event. A
//! cycle-fatal failure (sync, environment update) aborts the cycle, never
//! the process; a per-package failure (compression, delivery) skips that
//! package and never aborts the cycle.

use vstd::prelude::*;
use crate::collector::{accumulate_from, apply_part, empty_fields, spec_accumulate, spec_validate, FormPart};
use vstd::string::StringExecFns;

verus! {

/// Seconds the worker waits between two submission attempts.
pub const RETRY_DELAY_SECS: u64 = 10;

/// How many times a submission is attempted before the package is given
/// up on.
pub const MAX_SUBMIT_ATTEMPTS: u8 = 3;

/// Seconds the worker sleeps between two build cycles.
pub const CYCLE_SLEEP_SECS: u64 = 10;

/// The label put before the captured standard output.
pub open spec fn stdout_header() -> Seq<u8> {
    seq![0x53u8, 0x54, 0x44, 0x4f, 0x55, 0x54, 0x3a, 0x0a]
}

/// The label put before the captured standard error.
pub open spec fn stderr_header() -> Seq<u8> {
    seq![0x53u8, 0x54, 0x44, 0x45, 0x52, 0x52, 0x3a, 0x0a]
}

/// A build's log: the labeled standard output, then the labeled standard
/// error, in that order.
pub open spec fn spec_assemble(stdout: Seq<u8>, stderr: Seq<u8>) -> Seq<u8> {
    stdout_header() + stdout + stderr_header() + stderr
}

/// Append all of `src` to `dst`.
fn extend_bytes(dst: &mut Vec<u8>, src: &Vec<u8>)
    ensures
        final(dst)@ == old(dst)@ + src@,
{
    let n = src.len();
    for i in 0..n
        invariant
            n == src@.len(),
            dst@ == old(dst)@ + src@.subrange(0, i as int),
    {
        dst.push(src[i]);
        assert(dst@ =~= old(dst)@ + src@.subrange(0, i + 1));
    }
    assert(src@.subrange(0, n as int) =~= src@);
}

/// Capture a build's combined log: the standard output under its label,
/// then the standard error under its label.
pub fn assemble_log(stdout: &Vec<u8>, stderr: &Vec<u8>) -> (r: Vec<u8>)
    ensures
        r@ == spec_assemble(stdout@, stderr@),
{
    let mut r: Vec<u8> = Vec::new();
    r.push(0x53);
    r.push(0x54);
    r.push(0x44);
    r.push(0x4f);
    r.push(0x55);
    r.push(0x54);
    r.push(0x3a);
    r.push(0x0a);
    assert(r@ =~= stdout_header());
    extend_bytes(&mut r, stdout);
    let mut tail: Vec<u8> = Vec::new();
    tail.push(0x53);
    tail.push(0x54);
    tail.push(0x44);
    tail.push(0x45);
    tail.push(0x52);
    tail.push(0x52);
    tail.push(0x3a);
    tail.push(0x0a);
    assert(tail@ =~= stderr_header());
    extend_bytes(&mut tail, stderr);
    extend_bytes(&mut r, &tail);
    assert(r@ =~= spec_assemble(stdout@, stderr@));
    r
}

/// The text the worker puts in the `success` field.
pub open spec fn spec_success_label(success: bool) -> Seq<char> {
    if success {
        "true"@
    } else {
        "false"@
    }
}

/// The `success` field's text for a build outcome.
pub fn success_label(success: bool) -> (r: String)
    ensures
        r@ == spec_success_label(success),
{
    if success {
        String::from_str("true")
    } else {
        String::from_str("false")
    }
}

/// The form the worker submits for one package: the package name, the
/// worker's architecture, the build outcome as text, and the compressed
/// log as the single binary part.
pub fn submission_parts(pkg: &String, arch: &String, success: bool, payload: Vec<u8>) -> (r: Vec<
    FormPart,
>)
    ensures
        r@.len() == 4,
        (r@[0] matches FormPart::Package(p) && p@ == pkg@),
        (r@[1] matches FormPart::Arch(a) && a@ == arch@),
        (r@[2] matches FormPart::Success(s) && s@ == spec_success_label(success)),
        (r@[3] matches FormPart::Log(l) && l@ == payload@),
{
    let mut r: Vec<FormPart> = Vec::new();
    r.push(FormPart::Package(pkg.clone()));
    r.push(FormPart::Arch(arch.clone()));
    r.push(FormPart::Success(success_label(success)));
    r.push(FormPart::Log(payload));
    r
}

/// What the collector makes of a worker-formed submission: it accepts it,
/// and reads back exactly the worker's package, architecture, outcome and
/// payload. This ties the worker's outbound form to the collector's
/// validation, field for field.
pub proof fn lemma_worker_submission_accepted(
    parts: Seq<FormPart>,
    pkg: Seq<char>,
    arch: Seq<char>,
    success: bool,
    payload: Seq<u8>,
)
    requires
        parts.len() == 4,
        (parts[0] matches FormPart::Package(p) && p@ == pkg),
        (parts[1] matches FormPart::Arch(a) && a@ == arch),
        (parts[2] matches FormPart::Success(s) && s@ == spec_success_label(success)),
        (parts[3] matches FormPart::Log(l) && l@ == payload),
    ensures
        (spec_validate(spec_accumulate(parts)) matches Ok(s) && s.package == pkg && s.arch == arch
            && s.success == success && s.log == payload),
{
    reveal_strlit("true");
    reveal_strlit("false");
    let t1 = parts.drop_first();
    let t2 = t1.drop_first();
    let t3 = t2.drop_first();
    let t4 = t3.drop_first();
    assert(t1[0] == parts[1]);
    assert(t2[0] == parts[2]);
    assert(t3[0] == parts[3]);
    assert(t4.len() == 0);
    let f0 = empty_fields();
    let f1 = apply_part(f0, parts[0]);
    let f2 = apply_part(f1, t1[0]);
    let f3 = apply_part(f2, t2[0]);
    let f4 = apply_part(f3, t3[0]);
    assert(spec_accumulate(parts) == accumulate_from(f1, t1));
    assert(accumulate_from(f1, t1) == accumulate_from(f2, t2));
    assert(accumulate_from(f2, t2) == accumulate_from(f3, t3));
    assert(accumulate_from(f3, t3) == accumulate_from(f4, t4));
    assert(accumulate_from(f4, t4) == f4);
    assert(f4.log =~= payload);
    assert("true"@.len() == 4);
    assert("false"@.len() == 5);
    assert(spec_success_label(success) == "true"@ <==> success);
}

/// The worker's position in one build cycle, as contracts speak of it.
pub ghost enum StateModel {
    /// Synchronizing the source tree.
    Syncing,
    /// Enumerating the packages to build.
    Listing,
    /// Refreshing the build environment, the package list in hand.
    UpdatingEnv { pkgs: Seq<Seq<char>> },
    /// Building the package at `idx`.
    Building { pkgs: Seq<Seq<char>>, idx: int },
    /// Compressing the log of the package at `idx`, whose build outcome
    /// is `success`.
    Compressing { pkgs: Seq<Seq<char>>, idx: int, success: bool },
    /// Delivering the package at `idx`: `attempt` counts from 1.
    Submitting {
        pkgs: Seq<Seq<char>>,
        idx: int,
        success: bool,
        payload: Seq<u8>,
        attempt: int,
    },
    /// The cycle is over; `aborted` tells a cycle-fatal failure from a
    /// completed pass.
    Finished { aborted: bool },
}

/// What the driver must do next, as contracts speak of it.
pub ghost enum ActionModel {
    /// Run the tree synchronization.
    RunSync,
    /// Walk the tree and list the packages.
    ListTree,
    /// Refresh the build environment.
    RunUpdate,
    /// Build one package.
    RunBuild { pkg: Seq<char> },
    /// Compress one assembled log.
    CompressLog { log: Seq<u8> },
    /// Submit one package's outcome, after waiting `delay_secs`.
    Submit { pkg: Seq<char>, success: bool, payload: Seq<u8>, delay_secs: u64 },
    /// The cycle is over; sleep, then start the next.
    CycleOver { ok: bool },
}

/// What came back from the driver's last action, as contracts speak of
/// it.
pub ghost enum EventModel {
    SyncDone { ok: bool },
    Listed { pkgs: Seq<Seq<char>> },
    UpdateDone { ok: bool },
    BuildDone { success: bool, stdout: Seq<u8>, stderr: Seq<u8> },
    Compressed { payload: Option<Seq<u8>> },
    SubmitDone { ok: bool },
}

/// The worker's position in one build cycle.
pub enum CycleState {
    Syncing,
    Listing,
    UpdatingEnv { pkgs: Vec<String> },
    Building { pkgs: Vec<String>, idx: usize },
    Compressing { pkgs: Vec<String>, idx: usize, success: bool },
    Submitting { pkgs: Vec<String>, idx: usize, success: bool, payload: Vec<u8>, attempt: u8 },
    Finished { aborted: bool },
}

/// What the driver must do next.
pub enum WorkerAction {
    RunSync,
    ListTree,
    RunUpdate,
    RunBuild { pkg: String },
    CompressLog { log: Vec<u8> },
    Submit { pkg: String, success: bool, payload: Vec<u8>, delay_secs: u64 },
    CycleOver { ok: bool },
}

/// What came back from the driver's last action.
pub enum WorkerEvent {
    SyncDone { ok: bool },
    Listed { pkgs: Vec<String> },
    UpdateDone { ok: bool },
    BuildDone { success: bool, stdout: Vec<u8>, stderr: Vec<u8> },
    Compressed { payload: Option<Vec<u8>> },
    SubmitDone { ok: bool },
}

impl View for CycleState {
    type V = StateModel;

    open spec fn view(&self) -> StateModel {
        match self {
            CycleState::Syncing => StateModel::Syncing,
            CycleState::Listing => StateModel::Listing,
            CycleState::UpdatingEnv { pkgs } => StateModel::UpdatingEnv { pkgs: pkgs.deep_view() },
            CycleState::Building { pkgs, idx } => StateModel::Building {
                pkgs: pkgs.deep_view(),
                idx: *idx as int,
            },
            CycleState::Compressing { pkgs, idx, success } => StateModel::Compressing {
                pkgs: pkgs.deep_view(),
                idx: *idx as int,
                success: *success,
            },
            CycleState::Submitting { pkgs, idx, success, payload, attempt } => {
                StateModel::Submitting {
                    pkgs: pkgs.deep_view(),
                    idx: *idx as int,
                    success: *success,
                    payload: payload@,
                    attempt: *attempt as int,
                }
            },
            CycleState::Finished { aborted } => StateModel::Finished { aborted: *aborted },
        }
    }
}

impl View for WorkerAction {
    type V = ActionModel;

    open spec fn view(&self) -> ActionModel {
        match self {
            WorkerAction::RunSync => ActionModel::RunSync,
            WorkerAction::ListTree => ActionModel::ListTree,
            WorkerAction::RunUpdate => ActionModel::RunUpdate,
            WorkerAction::RunBuild { pkg } => ActionModel::RunBuild { pkg: pkg@ },
            WorkerAction::CompressLog { log } => ActionModel::CompressLog { log: log@ },
            WorkerAction::Submit { pkg, success, payload, delay_secs } => ActionModel::Submit {
                pkg: pkg@,
                success: *success,
                payload: payload@,
                delay_secs: *delay_secs,
            },
            WorkerAction::CycleOver { ok } => ActionModel::CycleOver { ok: *ok },
        }
    }
}

impl View for WorkerEvent {
    type V = EventModel;

    open spec fn view(&self) -> EventModel {
        match self {
            WorkerEvent::SyncDone { ok } => EventModel::SyncDone { ok: *ok },
            WorkerEvent::Listed { pkgs } => EventModel::Listed { pkgs: pkgs.deep_view() },
            WorkerEvent::UpdateDone { ok } => EventModel::UpdateDone { ok: *ok },
            WorkerEvent::BuildDone { success, stdout, stderr } => EventModel::BuildDone {
                success: *success,
                stdout: stdout@,
                stderr: stderr@,
            },
            WorkerEvent::Compressed { payload } => EventModel::Compressed {
                payload: match payload {
                    Some(p) => Some(p@),
                    None => None,
                },
            },
            WorkerEvent::SubmitDone { ok } => EventModel::SubmitDone { ok: *ok },
        }
    }
}

impl StateModel {
    /// What a reachable state keeps: indices in range, the attempt count
    /// between 1 and the cap.
    pub open spec fn wf(self) -> bool {
        match self {
            StateModel::Building { pkgs, idx } => 0 <= idx < pkgs.len(),
            StateModel::Compressing { pkgs, idx, .. } => 0 <= idx < pkgs.len(),
            StateModel::Submitting { pkgs, idx, attempt, .. } => 0 <= idx < pkgs.len() && 1
                <= attempt <= MAX_SUBMIT_ATTEMPTS as int,
            _ => true,
        }
    }
}

/// A cycle-fatal failure: the cycle is over, nothing more is built.
pub open spec fn spec_abort() -> (StateModel, ActionModel) {
    (StateModel::Finished { aborted: true }, ActionModel::CycleOver { ok: false })
}

/// Move past the package at `idx`: build the next one, or end the cycle
/// after the last.
pub open spec fn spec_next_package(pkgs: Seq<Seq<char>>, idx: int) -> (StateModel, ActionModel) {
    if idx + 1 < pkgs.len() {
        (
            StateModel::Building { pkgs, idx: idx + 1 },
            ActionModel::RunBuild { pkg: pkgs[idx + 1] },
        )
    } else {
        (StateModel::Finished { aborted: false }, ActionModel::CycleOver { ok: true })
    }
}

/// One decision of the cycle: from the position and the last action's
/// outcome to the next position and the next action. A failed sync or
/// environment update aborts the cycle; an empty listing ends it at once;
/// a failed compression skips the package; a failed submission is retried
/// after a fixed delay up to the attempt cap and then given up, the cycle
/// going on either way. An event that does not belong to the position
/// aborts the cycle.
pub open spec fn spec_step(s: StateModel, e: EventModel) -> (StateModel, ActionModel) {
    match (s, e) {
        (StateModel::Syncing, EventModel::SyncDone { ok }) => {
            if ok {
                (StateModel::Listing, ActionModel::ListTree)
            } else {
                spec_abort()
            }
        },
        (StateModel::Listing, EventModel::Listed { pkgs }) => {
            (StateModel::UpdatingEnv { pkgs }, ActionModel::RunUpdate)
        },
        (StateModel::UpdatingEnv { pkgs }, EventModel::UpdateDone { ok }) => {
            if !ok {
                spec_abort()
            } else if pkgs.len() == 0 {
                (StateModel::Finished { aborted: false }, ActionModel::CycleOver { ok: true })
            } else {
                (
                    StateModel::Building { pkgs, idx: 0 },
                    ActionModel::RunBuild { pkg: pkgs[0] },
                )
            }
        },
        (
            StateModel::Building { pkgs, idx },
            EventModel::BuildDone { success, stdout, stderr },
        ) => {
            (
                StateModel::Compressing { pkgs, idx, success },
                ActionModel::CompressLog { log: spec_assemble(stdout, stderr) },
            )
        },
        (
            StateModel::Compressing { pkgs, idx, success },
            EventModel::Compressed { payload },
        ) => {
            match payload {
                Some(p) => (
                    StateModel::Submitting { pkgs, idx, success, payload: p, attempt: 1 },
                    ActionModel::Submit { pkg: pkgs[idx], success, payload: p, delay_secs: 0 },
                ),
                None => spec_next_package(pkgs, idx),
            }
        },
        (
            StateModel::Submitting { pkgs, idx, success, payload, attempt },
            EventModel::SubmitDone { ok },
        ) => {
            if ok {
                spec_next_package(pkgs, idx)
            } else if attempt < MAX_SUBMIT_ATTEMPTS as int {
                (
                    StateModel::Submitting { pkgs, idx, success, payload, attempt: attempt + 1 },
                    ActionModel::Submit {
                        pkg: pkgs[idx],
                        success,
                        payload,
                        delay_secs: RETRY_DELAY_SECS,
                    },
                )
            } else {
                spec_next_package(pkgs, idx)
            }
        },
        _ => spec_abort(),
    }
}

/// Bounded retry with bounded delay: a failed attempt below the cap is
/// retried after the fixed delay, with the same package and payload; the
/// first success moves the worker past the package; and a failure at the
/// cap gives the package up and moves on, the cycle going on either way.
/// So an endpoint that fails twice and then succeeds sees exactly three
/// attempts, the fixed delay before each retry, and the package is
/// delivered; one that always fails sees exactly three attempts, after
/// which the worker proceeds to the next package.
pub proof fn lemma_submit_retry(pkgs: Seq<Seq<char>>, idx: int, success: bool, payload: Seq<u8>)
    requires
        0 <= idx < pkgs.len(),
    ensures
        ({
            let s1 = StateModel::Submitting { pkgs, idx, success, payload, attempt: 1 };
            let s2 = StateModel::Submitting { pkgs, idx, success, payload, attempt: 2 };
            let s3 = StateModel::Submitting { pkgs, idx, success, payload, attempt: 3 };
            let retry = ActionModel::Submit {
                pkg: pkgs[idx],
                success,
                payload,
                delay_secs: RETRY_DELAY_SECS,
            };
            let fail = EventModel::SubmitDone { ok: false };
            let delivered = EventModel::SubmitDone { ok: true };
            &&& spec_step(s1, fail) == (s2, retry)
            &&& spec_step(s2, fail) == (s3, retry)
            &&& spec_step(s3, fail) == spec_next_package(pkgs, idx)
            &&& spec_step(s1, delivered) == spec_next_package(pkgs, idx)
            &&& spec_step(s2, delivered) == spec_next_package(pkgs, idx)
            &&& spec_step(s3, delivered) == spec_next_package(pkgs, idx)
        }),
{
}

/// Per-package failures never abort the cycle: whatever outcome a
/// compression or a submission reports, the machine goes on building, or
/// retrying this package, or ends the cycle as a completed pass — never
/// as an aborted one. Only a failed sync or environment update aborts.
pub proof fn lemma_package_failures_never_abort(s: StateModel, e: EventModel)
    requires
        s.wf(),
        (s matches StateModel::Compressing { .. } && e matches EventModel::Compressed { .. }) || (
        s matches StateModel::Submitting { .. } && e matches EventModel::SubmitDone { .. }),
    ensures
        !(spec_step(s, e).0 matches StateModel::Finished { aborted: true }),
{
}

/// Where every cycle begins: synchronize the tree.
pub fn cycle_start() -> (r: (CycleState, WorkerAction))
    ensures
        r.0@ == StateModel::Syncing,
        r.1@ == ActionModel::RunSync,
        r.0@.wf(),
{
    (CycleState::Syncing, WorkerAction::RunSync)
}

/// Take one decision of the cycle. The driver performs the returned
/// action and feeds its outcome back as the next event; every transition
/// is exactly `spec_step`.
pub fn step(state: CycleState, event: WorkerEvent) -> (r: (CycleState, WorkerAction))
    requires
        state@.wf(),
    ensures
        (r.0@, r.1@) == spec_step(state@, event@),
        r.0@.wf(),
{
    match (state, event) {
        (CycleState::Syncing, WorkerEvent::SyncDone { ok }) => {
            if ok {
                (CycleState::Listing, WorkerAction::ListTree)
            } else {
                abort_cycle()
            }
        },
        (CycleState::Listing, WorkerEvent::Listed { pkgs }) => {
            (CycleState::UpdatingEnv { pkgs }, WorkerAction::RunUpdate)
        },
        (CycleState::UpdatingEnv { pkgs }, WorkerEvent::UpdateDone { ok }) => {
            if !ok {
                abort_cycle()
            } else if pkgs.len() == 0 {
                (CycleState::Finished { aborted: false }, WorkerAction::CycleOver { ok: true })
            } else {
                let pkg = pkgs[0].clone();
                (CycleState::Building { pkgs, idx: 0 }, WorkerAction::RunBuild { pkg })
            }
        },
        (
            CycleState::Building { pkgs, idx },
            WorkerEvent::BuildDone { success, stdout, stderr },
        ) => {
            let log = assemble_log(&stdout, &stderr);
            (
                CycleState::Compressing { pkgs, idx, success },
                WorkerAction::CompressLog { log },
            )
        },
        (
            CycleState::Compressing { pkgs, idx, success },
            WorkerEvent::Compressed { payload },
        ) => {
            match payload {
                Some(p) => {
                    let pkg = pkgs[idx].clone();
                    let p2 = clone_bytes(&p);
                    (
                        CycleState::Submitting { pkgs, idx, success, payload: p, attempt: 1 },
                        WorkerAction::Submit { pkg, success, payload: p2, delay_secs: 0 },
                    )
                },
                None => next_package(pkgs, idx),
            }
        },
        (
            CycleState::Submitting { pkgs, idx, success, payload, attempt },
            WorkerEvent::SubmitDone { ok },
        ) => {
            if ok {
                next_package(pkgs, idx)
            } else if attempt < MAX_SUBMIT_ATTEMPTS {
                let pkg = pkgs[idx].clone();
                let p2 = clone_bytes(&payload);
                (
                    CycleState::Submitting { pkgs, idx, success, payload, attempt: attempt + 1 },
                    WorkerAction::Submit {
                        pkg,
                        success,
                        payload: p2,
                        delay_secs: RETRY_DELAY_SECS,
                    },
                )
            } else {
                next_package(pkgs, idx)
            }
        },
        (_, _) => abort_cycle(),
    }
}

/// A cycle-fatal failure: the cycle is over, nothing more is built.
fn abort_cycle() -> (r: (CycleState, WorkerAction))
    ensures
        (r.0@, r.1@) == spec_abort(),
        r.0@.wf(),
{
    (CycleState::Finished { aborted: true }, WorkerAction::CycleOver { ok: false })
}

/// A copy of a byte payload.
fn clone_bytes(src: &Vec<u8>) -> (r: Vec<u8>)
    ensures
        r@ == src@,
{
    let r = src.clone();
    assert forall|i: int| 0 <= i < src@.len() implies r@[i] == src@[i] by {
        assert(cloned::<u8>(src@[i], r@[i]));
    }
    assert(r@ =~= src@);
    r
}

/// Move past the package at `idx`.
fn next_package(pkgs: Vec<String>, idx: usize) -> (r: (CycleState, WorkerAction))
    requires
        idx < pkgs.deep_view().len(),
    ensures
        (r.0@, r.1@) == spec_next_package(pkgs.deep_view(), idx as int),
        r.0@.wf(),
{
    proof {
        assert(pkgs.deep_view().len() == pkgs@.len());
    }
    let n = pkgs.len();
    if idx + 1 < n {
        let pkg = pkgs[idx + 1].clone();
        (CycleState::Building { pkgs, idx: idx + 1 }, WorkerAction::RunBuild { pkg })
    } else {
        (CycleState::Finished { aborted: false }, WorkerAction::CycleOver { ok: true })
    }
}

} // verus!
