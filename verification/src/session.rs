//! The course of one backup or restore: check that the PVC exists, start
//! the runner pod, move the data, then delete the pod whatever happened to
//! the data, and report the outcome of the data transfer. The caller
//! performs each `SessionAction` and reports back what happened.

use vstd::prelude::*;
use vstd::string::*;
use crate::error::MigrationError;
use crate::pvc::require_pvc;
use crate::runner_pod::{RunnerPodManifest, VolumeSource, is_runner_pod, law_runner_pod_runs_as_asked, runner_pod_manifest, runner_pod_name, runner_pod_name_text};
use crate::transfer::Direction;

verus! {

/// Where a session stands.
#[derive(Clone, Copy, Debug, PartialEq, Eq, Structural)]
pub enum SessionPhase {
    LookingUpPvc,
    CreatingPod,
    Transferring,
    DeletingPod,
    Finished,
}

/// What happened since the last action.
#[derive(Debug, PartialEq, Eq)]
pub enum SessionEvent {
    /// Whether the PVC exists, or why the lookup failed.
    PvcLookedUp(Result<bool, MigrationError>),
    /// The runner pod was created and is running, or why not.
    PodReady(Result<(), MigrationError>),
    /// How the data transfer ended.
    TransferDone(Result<(), MigrationError>),
    /// The attempt to delete the runner pod ended, one way or the other.
    PodDeleted(Result<(), MigrationError>),
}

/// What to do next.
#[derive(Debug, PartialEq, Eq)]
pub enum SessionAction {
    /// Create this pod and wait until it is running.
    CreatePod(RunnerPodManifest),
    /// Move the data through the runner pod.
    Transfer,
    /// Delete the runner pod; a failure is only worth a warning.
    DeletePod,
    /// Stop with this outcome.
    Finish(Result<(), MigrationError>),
}

/// One backup or restore of the PVC `pvc` in `namespace`, through the
/// runner pod `pod_name`, running as `uid`/`gid`.
#[derive(Debug, PartialEq, Eq)]
pub struct Session {
    pub direction: Direction,
    pub namespace: String,
    pub pvc: String,
    pub pod_name: String,
    pub uid: i64,
    pub gid: i64,
    pub phase: SessionPhase,
    /// The outcome of the transfer, kept while the pod is deleted.
    pub outcome: Option<Result<(), MigrationError>>,
}

/// A session that is deleting its pod remembers how the transfer ended.
pub open spec fn session_wf(s: Session) -> bool {
    s.phase == SessionPhase::DeletingPod ==> s.outcome is Some
}

/// The events that session `s` expects next.
pub open spec fn session_accepts(s: Session, ev: SessionEvent) -> bool {
    &&& session_wf(s)
    &&& match ev {
        SessionEvent::PvcLookedUp(_) => s.phase == SessionPhase::LookingUpPvc,
        SessionEvent::PodReady(_) => s.phase == SessionPhase::CreatingPod,
        SessionEvent::TransferDone(_) => s.phase == SessionPhase::Transferring,
        SessionEvent::PodDeleted(_) => s.phase == SessionPhase::DeletingPod,
    }
}

/// One step of a session: from `pre`, on `ev`, to `post`, doing `act`.
pub open spec fn session_step(
    pre: Session,
    ev: SessionEvent,
    post: Session,
    act: SessionAction,
) -> bool {
    &&& post.direction == pre.direction
    &&& post.namespace == pre.namespace
    &&& post.pvc == pre.pvc
    &&& post.pod_name == pre.pod_name
    &&& post.uid == pre.uid
    &&& post.gid == pre.gid
    &&& match ev {
        SessionEvent::PvcLookedUp(Ok(true)) => {
            &&& post.phase == SessionPhase::CreatingPod
            &&& post.outcome == pre.outcome
            &&& act matches SessionAction::CreatePod(m)
            &&& is_runner_pod(m, pre.pod_name@, pre.pvc@, pre.uid, pre.gid)
        },
        SessionEvent::PvcLookedUp(Ok(false)) => {
            &&& post.phase == SessionPhase::Finished
            &&& post.outcome == pre.outcome
            &&& act matches SessionAction::Finish(
                Err(MigrationError::PvcMissing { namespace, name }),
            )
            &&& namespace@ == pre.namespace@
            &&& name@ == pre.pvc@
        },
        SessionEvent::PvcLookedUp(Err(e)) => {
            &&& post.phase == SessionPhase::Finished
            &&& post.outcome == pre.outcome
            &&& act == SessionAction::Finish(Err(e))
        },
        SessionEvent::PodReady(Ok(())) => {
            &&& post.phase == SessionPhase::Transferring
            &&& post.outcome == pre.outcome
            &&& act == SessionAction::Transfer
        },
        SessionEvent::PodReady(Err(e)) => {
            &&& post.phase == SessionPhase::Finished
            &&& post.outcome == pre.outcome
            &&& act == SessionAction::Finish(Err(e))
        },
        SessionEvent::TransferDone(r) => {
            &&& post.phase == SessionPhase::DeletingPod
            &&& post.outcome == Some(r)
            &&& act == SessionAction::DeletePod
        },
        SessionEvent::PodDeleted(_) => {
            &&& post.phase == SessionPhase::Finished
            &&& post.outcome is None
            &&& pre.outcome matches Some(r)
            &&& act == SessionAction::Finish(r)
        },
    }
}

impl Session {
    /// A session that has not looked up the PVC yet; its runner pod is
    /// named `pvc-migrator-<direction>-<id>`.
    pub fn new(direction: Direction, namespace: &str, pvc: &str, uid: i64, gid: i64, id: &str) -> (s:
        Session)
        ensures
            s.direction == direction,
            s.namespace@ == namespace@,
            s.pvc@ == pvc@,
            s.pod_name@ == runner_pod_name_text(direction, id@),
            s.uid == uid,
            s.gid == gid,
            s.phase == SessionPhase::LookingUpPvc,
            s.outcome is None,
            session_wf(s),
    {
        Session {
            direction,
            namespace: String::from_str(namespace),
            pvc: String::from_str(pvc),
            pod_name: runner_pod_name(direction, id),
            uid,
            gid,
            phase: SessionPhase::LookingUpPvc,
            outcome: None,
        }
    }

    /// Takes in what happened and says what to do next.
    pub fn step(&mut self, ev: SessionEvent) -> (act: SessionAction)
        requires
            session_accepts(*old(self), ev),
        ensures
            session_step(*old(self), ev, *final(self), act),
            session_wf(*final(self)),
    {
        match ev {
            SessionEvent::PvcLookedUp(Ok(found)) => {
                match require_pvc(found, self.namespace.as_str(), self.pvc.as_str()) {
                    Ok(()) => {
                        self.phase = SessionPhase::CreatingPod;
                        SessionAction::CreatePod(
                            runner_pod_manifest(
                                self.pod_name.as_str(),
                                self.pvc.as_str(),
                                self.uid,
                                self.gid,
                            ),
                        )
                    },
                    Err(e) => {
                        self.phase = SessionPhase::Finished;
                        SessionAction::Finish(Err(e))
                    },
                }
            },
            SessionEvent::PvcLookedUp(Err(e)) => {
                self.phase = SessionPhase::Finished;
                SessionAction::Finish(Err(e))
            },
            SessionEvent::PodReady(Ok(())) => {
                self.phase = SessionPhase::Transferring;
                SessionAction::Transfer
            },
            SessionEvent::PodReady(Err(e)) => {
                self.phase = SessionPhase::Finished;
                SessionAction::Finish(Err(e))
            },
            SessionEvent::TransferDone(r) => {
                self.phase = SessionPhase::DeletingPod;
                self.outcome = Some(r);
                SessionAction::DeletePod
            },
            SessionEvent::PodDeleted(_) => {
                self.phase = SessionPhase::Finished;
                let outcome = self.outcome.take();
                match outcome {
                    Some(r) => SessionAction::Finish(r),
                    None => SessionAction::Finish(Ok(())),
                }
            },
        }
    }
}

/// Law: without an existing PVC no pod is created: a missing PVC, or a
/// failed lookup, ends the session at once.
pub proof fn law_no_pod_without_pvc(
    pre: Session,
    r: Result<bool, MigrationError>,
    post: Session,
    act: SessionAction,
)
    requires
        session_step(pre, SessionEvent::PvcLookedUp(r), post, act),
        r != Ok::<bool, MigrationError>(true),
    ensures
        act is Finish,
        act->Finish_0 is Err,
        post.phase == SessionPhase::Finished,
{
}

/// Law: a pod that could not be started ends the session with the reason,
/// and nothing is transferred or deleted.
pub proof fn law_failed_start_ends_session(
    pre: Session,
    e: MigrationError,
    post: Session,
    act: SessionAction,
)
    requires
        session_step(pre, SessionEvent::PodReady(Err(e)), post, act),
    ensures
        act == SessionAction::Finish(Err(e)),
        post.phase == SessionPhase::Finished,
{
}

/// Law: once the runner pod is running, the data is transferred, the pod is
/// deleted after the transfer whatever its outcome, and the session ends
/// with the outcome of the transfer, whatever the deletion did: cleanup never
/// masks the real error, nor turns a success into a failure.
pub proof fn law_pod_always_deleted(
    s0: Session,
    s1: Session,
    s2: Session,
    s3: Session,
    a1: SessionAction,
    a2: SessionAction,
    a3: SessionAction,
    transfer: Result<(), MigrationError>,
    deletion: Result<(), MigrationError>,
)
    requires
        session_step(s0, SessionEvent::PodReady(Ok(())), s1, a1),
        session_step(s1, SessionEvent::TransferDone(transfer), s2, a2),
        session_step(s2, SessionEvent::PodDeleted(deletion), s3, a3),
    ensures
        a1 == SessionAction::Transfer,
        a2 == SessionAction::DeletePod,
        a3 == SessionAction::Finish(transfer),
        s3.phase == SessionPhase::Finished,
        s3.pod_name == s0.pod_name,
{
}

/// Law: a pod is created only once the PVC has been found, and deleted only
/// after the transfer through it has ended, so the session never deletes a
/// pod that it did not start.
pub proof fn law_pod_created_and_deleted_in_order(
    pre: Session,
    ev: SessionEvent,
    post: Session,
    act: SessionAction,
)
    requires
        session_accepts(pre, ev),
        session_step(pre, ev, post, act),
    ensures
        act is CreatePod ==> pre.phase == SessionPhase::LookingUpPvc && ev == SessionEvent::PvcLookedUp(
            Ok(true),
        ),
        act is DeletePod ==> pre.phase == SessionPhase::Transferring && ev is TransferDone,
{
}

/// Law: whatever the direction, a PVC that exists lets the session go on: it
/// asks for the runner pod named for the session, mounting the session's PVC
/// and running as exactly the session's uid and gid (gid also as fsGroup).
pub proof fn law_found_pvc_starts_pod(pre: Session, post: Session, act: SessionAction)
    requires
        pre.phase == SessionPhase::LookingUpPvc,
        session_step(pre, SessionEvent::PvcLookedUp(Ok(true)), post, act),
    ensures
        post.phase == SessionPhase::CreatingPod,
        act is CreatePod,
        act matches SessionAction::CreatePod(m) ==> {
            &&& m.name@ == pre.pod_name@
            &&& m.security.run_as_user == pre.uid
            &&& m.security.run_as_group == pre.gid
            &&& m.security.fs_group == pre.gid
            &&& m.volumes@.len() == 2
            &&& m.volumes@[0].source matches VolumeSource::PersistentVolumeClaim { claim_name }
            &&& claim_name@ == pre.pvc@
        },
{
    if let SessionAction::CreatePod(m) = act {
        law_runner_pod_runs_as_asked(m, pre.pod_name@, pre.pvc@, pre.uid, pre.gid);
    }
}

} // verus!
