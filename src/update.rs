//! The forced self-update: download a binary and its detached signature,
//! verify, and install by one atomic rename.
use vstd::prelude::*;
use crate::flow::{
    action_touches, finish, no_paths, one_path, two_paths, ActionModel, EventModel, FlowAction,
    FlowError, FlowEvent,
};
use crate::signature::{verification_outcome, verify_binary_signature_with_key};

verus! {

/// Where the update flow stands.
#[derive(Debug, Clone, Copy, PartialEq, Eq, Structural)]
pub enum UpdateStage {
    AwaitBinary,
    AwaitBinaryWritten,
    AwaitSignature,
    AwaitSignatureWritten,
    AwaitPermission,
    AwaitRename,
    Finished,
}

/// The update flow, over plain values.
pub struct UpdateModel {
    pub stage: UpdateStage,
    pub url: Seq<char>,
    pub staging_binary: Seq<char>,
    pub staging_signature: Seq<char>,
    pub installed: Seq<char>,
    pub anchor: Seq<u8>,
    pub binary: Seq<u8>,
    pub signature: Seq<u8>,
}

/// The flow as it begins, before the binary is downloaded.
pub open spec fn update_begin(
    url: Seq<char>,
    staging_binary: Seq<char>,
    staging_signature: Seq<char>,
    installed: Seq<char>,
    anchor: Seq<u8>,
) -> UpdateModel {
    UpdateModel {
        stage: UpdateStage::AwaitBinary,
        url,
        staging_binary,
        staging_signature,
        installed,
        anchor,
        binary: Seq::empty(),
        signature: Seq::empty(),
    }
}

pub open spec fn with_stage(s: UpdateModel, stage: UpdateStage) -> UpdateModel {
    UpdateModel { stage, ..s }
}

/// Both staging files.
pub open spec fn staged(s: UpdateModel) -> Seq<Seq<char>> {
    seq![s.staging_binary, s.staging_signature]
}

/// End the flow with `err`, removing both staging files.
pub open spec fn abort_both(s: UpdateModel, err: FlowError) -> (UpdateModel, ActionModel) {
    (with_stage(s, UpdateStage::Finished), ActionModel::Finish(staged(s), Err(err)))
}

/// One step of the update flow: the next state and the action it asks for.
pub open spec fn update_next(s: UpdateModel, e: EventModel) -> (UpdateModel, ActionModel) {
    match (s.stage, e) {
        (UpdateStage::AwaitBinary, EventModel::Fetched(Ok(b))) => (
            UpdateModel { stage: UpdateStage::AwaitBinaryWritten, binary: b, ..s },
            ActionModel::WriteFile(s.staging_binary, b),
        ),
        (UpdateStage::AwaitBinary, EventModel::Fetched(Err(f))) => (
            with_stage(s, UpdateStage::Finished),
            ActionModel::Finish(Seq::empty(), Err(FlowError::Network(f))),
        ),
        (UpdateStage::AwaitBinaryWritten, EventModel::Done(true)) => (
            with_stage(s, UpdateStage::AwaitSignature),
            ActionModel::Fetch(s.url + ".sig"@),
        ),
        (UpdateStage::AwaitBinaryWritten, EventModel::Done(false)) => (
            with_stage(s, UpdateStage::Finished),
            ActionModel::Finish(seq![s.staging_binary], Err(FlowError::Install)),
        ),
        (UpdateStage::AwaitSignature, EventModel::Fetched(Ok(sig))) => (
            UpdateModel { stage: UpdateStage::AwaitSignatureWritten, signature: sig, ..s },
            ActionModel::WriteFile(s.staging_signature, sig),
        ),
        (UpdateStage::AwaitSignature, EventModel::Fetched(Err(f))) => (
            with_stage(s, UpdateStage::Finished),
            ActionModel::Finish(seq![s.staging_binary], Err(FlowError::Network(f))),
        ),
        (UpdateStage::AwaitSignatureWritten, EventModel::Done(true)) => {
            match verification_outcome(s.binary, s.signature, s.anchor) {
                Ok(()) => (
                    with_stage(s, UpdateStage::AwaitPermission),
                    ActionModel::SetExecutable(s.staging_binary),
                ),
                Err(v) => abort_both(s, FlowError::Verification(v)),
            }
        },
        (UpdateStage::AwaitSignatureWritten, EventModel::Done(false)) => abort_both(
            s,
            FlowError::Install,
        ),
        (UpdateStage::AwaitPermission, EventModel::Done(true)) => (
            with_stage(s, UpdateStage::AwaitRename),
            ActionModel::Rename(s.staging_binary, s.installed),
        ),
        (UpdateStage::AwaitPermission, EventModel::Done(false)) => abort_both(s, FlowError::Install),
        (UpdateStage::AwaitRename, EventModel::Done(true)) => (
            with_stage(s, UpdateStage::Finished),
            ActionModel::Finish(seq![s.staging_signature], Ok(())),
        ),
        (UpdateStage::AwaitRename, EventModel::Done(false)) => abort_both(s, FlowError::Install),
        (UpdateStage::Finished, _) => (s, ActionModel::Finish(Seq::empty(), Err(FlowError::OutOfOrder))),
        _ => abort_both(s, FlowError::OutOfOrder),
    }
}

/// Where the update flow keeps and puts files.
pub struct UpdatePaths {
    /// The staging file for the downloaded binary.
    pub staging_binary: String,
    /// The staging file for the downloaded signature.
    pub staging_signature: String,
    /// The installed launcher binary.
    pub installed: String,
}

/// The state of one forced update.
pub struct UpdateFlow {
    stage: UpdateStage,
    url: String,
    paths: UpdatePaths,
    anchor: [u8; 32],
    binary: Vec<u8>,
    signature: Vec<u8>,
}

impl View for UpdateFlow {
    type V = UpdateModel;

    closed spec fn view(&self) -> UpdateModel {
        UpdateModel {
            stage: self.stage,
            url: self.url@,
            staging_binary: self.paths.staging_binary@,
            staging_signature: self.paths.staging_signature@,
            installed: self.paths.installed@,
            anchor: self.anchor@,
            binary: self.binary@,
            signature: self.signature@,
        }
    }
}

impl UpdateFlow {
    /// Starts an update from the binary at `download_url`, to be verified
    /// under `anchor`; the first action downloads the binary.
    pub fn new(download_url: String, paths: UpdatePaths, anchor: [u8; 32]) -> (r: (
        UpdateFlow,
        FlowAction,
    ))
        ensures
            r.0@ == update_begin(
                download_url@,
                paths.staging_binary@,
                paths.staging_signature@,
                paths.installed@,
                anchor@,
            ),
            r.1@ == ActionModel::Fetch(download_url@),
    {
        let action = FlowAction::Fetch { url: download_url.clone() };
        let flow = UpdateFlow {
            stage: UpdateStage::AwaitBinary,
            url: download_url,
            paths,
            anchor,
            binary: Vec::new(),
            signature: Vec::new(),
        };
        assert(flow@.binary =~= Seq::<u8>::empty());
        assert(flow@.signature =~= Seq::<u8>::empty());
        (flow, action)
    }

    /// The stage the flow has reached.
    pub fn stage(&self) -> (r: UpdateStage)
        ensures
            r == self@.stage,
    {
        self.stage
    }

    fn abort_both(&mut self, err: FlowError) -> (a: FlowAction)
        ensures
            (final(self)@, a@) == abort_both(old(self)@, err),
    {
        self.stage = UpdateStage::Finished;
        finish(two_paths(&self.paths.staging_binary, &self.paths.staging_signature), Err(err))
    }

    /// Takes the outcome of the last action and returns the next one.
    pub fn step(&mut self, event: FlowEvent) -> (a: FlowAction)
        ensures
            (final(self)@, a@) == update_next(old(self)@, event@),
    {
        match (self.stage, event) {
            (UpdateStage::AwaitBinary, FlowEvent::Fetched(Ok(b))) => {
                let contents = vstd::slice::slice_to_vec(b.as_slice());
                self.binary = b;
                self.stage = UpdateStage::AwaitBinaryWritten;
                FlowAction::WriteFile { path: self.paths.staging_binary.clone(), contents }
            },
            (UpdateStage::AwaitBinary, FlowEvent::Fetched(Err(f))) => {
                self.stage = UpdateStage::Finished;
                finish(no_paths(), Err(FlowError::Network(f)))
            },
            (UpdateStage::AwaitBinaryWritten, FlowEvent::Done(true)) => {
                self.stage = UpdateStage::AwaitSignature;
                let mut url = self.url.clone();
                url.append(".sig");
                FlowAction::Fetch { url }
            },
            (UpdateStage::AwaitBinaryWritten, FlowEvent::Done(false)) => {
                self.stage = UpdateStage::Finished;
                finish(one_path(&self.paths.staging_binary), Err(FlowError::Install))
            },
            (UpdateStage::AwaitSignature, FlowEvent::Fetched(Ok(sig))) => {
                let contents = vstd::slice::slice_to_vec(sig.as_slice());
                self.signature = sig;
                self.stage = UpdateStage::AwaitSignatureWritten;
                FlowAction::WriteFile { path: self.paths.staging_signature.clone(), contents }
            },
            (UpdateStage::AwaitSignature, FlowEvent::Fetched(Err(f))) => {
                self.stage = UpdateStage::Finished;
                finish(one_path(&self.paths.staging_binary), Err(FlowError::Network(f)))
            },
            (UpdateStage::AwaitSignatureWritten, FlowEvent::Done(true)) => {
                match verify_binary_signature_with_key(
                    self.binary.as_slice(),
                    self.signature.as_slice(),
                    &self.anchor,
                ) {
                    Ok(()) => {
                        self.stage = UpdateStage::AwaitPermission;
                        FlowAction::SetExecutable { path: self.paths.staging_binary.clone() }
                    },
                    Err(v) => self.abort_both(FlowError::Verification(v)),
                }
            },
            (UpdateStage::AwaitSignatureWritten, FlowEvent::Done(false)) => {
                self.abort_both(FlowError::Install)
            },
            (UpdateStage::AwaitPermission, FlowEvent::Done(true)) => {
                self.stage = UpdateStage::AwaitRename;
                FlowAction::Rename {
                    from: self.paths.staging_binary.clone(),
                    to: self.paths.installed.clone(),
                }
            },
            (UpdateStage::AwaitPermission, FlowEvent::Done(false)) => {
                self.abort_both(FlowError::Install)
            },
            (UpdateStage::AwaitRename, FlowEvent::Done(true)) => {
                self.stage = UpdateStage::Finished;
                finish(one_path(&self.paths.staging_signature), Ok(()))
            },
            (UpdateStage::AwaitRename, FlowEvent::Done(false)) => {
                self.abort_both(FlowError::Install)
            },
            (UpdateStage::Finished, _) => finish(no_paths(), Err(FlowError::OutOfOrder)),
            _ => self.abort_both(FlowError::OutOfOrder),
        }
    }
}

/// A well-formed flow: its three files are distinct, and once past
/// verification it holds a binary whose signature verified.
pub open spec fn update_wf(s: UpdateModel) -> bool {
    &&& s.staging_binary != s.installed
    &&& s.staging_signature != s.installed
    &&& s.staging_binary != s.staging_signature
    &&& (s.stage == UpdateStage::AwaitPermission || s.stage == UpdateStage::AwaitRename)
        ==> verification_outcome(s.binary, s.signature, s.anchor) is Ok
}

/// A flow begins well-formed when its three files are distinct.
pub proof fn lemma_update_begin_wf(
    url: Seq<char>,
    staging_binary: Seq<char>,
    staging_signature: Seq<char>,
    installed: Seq<char>,
    anchor: Seq<u8>,
)
    requires
        staging_binary != installed,
        staging_signature != installed,
        staging_binary != staging_signature,
    ensures
        update_wf(update_begin(url, staging_binary, staging_signature, installed, anchor)),
{
}

/// Every step keeps a flow well-formed.
pub proof fn lemma_update_step_wf(s: UpdateModel, e: EventModel)
    requires
        update_wf(s),
    ensures
        update_wf(update_next(s, e).0),
{
}

/// The installed binary is replaced only by renaming the staged binary onto
/// it, and only once the staged binary's signature has verified under the
/// trust anchor.
pub proof fn lemma_rename_only_after_verification(s: UpdateModel, e: EventModel)
    requires
        update_wf(s),
        update_next(s, e).1 is Rename,
    ensures
        update_next(s, e).1 == ActionModel::Rename(s.staging_binary, s.installed),
        verification_outcome(s.binary, s.signature, s.anchor) is Ok,
{
}

/// No action but that rename writes, modifies or removes the installed
/// binary: it is never written in place, so it holds either the old binary
/// or the complete new one, wherever the flow is interrupted.
pub proof fn lemma_installed_only_renamed_onto(s: UpdateModel, e: EventModel)
    requires
        update_wf(s),
        action_touches(update_next(s, e).1, s.installed),
    ensures
        update_next(s, e).1 == ActionModel::Rename(s.staging_binary, s.installed),
        verification_outcome(s.binary, s.signature, s.anchor) is Ok,
{
}

/// A signature that does not verify ends the flow: both staging files are
/// removed, the error is reported, and the installed binary is left alone.
pub proof fn lemma_failed_verification_aborts(s: UpdateModel)
    requires
        update_wf(s),
        s.stage == UpdateStage::AwaitSignatureWritten,
        verification_outcome(s.binary, s.signature, s.anchor) is Err,
    ensures
        ({
            let (t, a) = update_next(s, EventModel::Done(true));
            &&& t.stage == UpdateStage::Finished
            &&& a == ActionModel::Finish(
                seq![s.staging_binary, s.staging_signature],
                Err(FlowError::Verification(
                    verification_outcome(s.binary, s.signature, s.anchor)->Err_0,
                )),
            )
            &&& !action_touches(a, s.installed)
        }),
{
    let a = update_next(s, EventModel::Done(true)).1;
    assert(!seq![s.staging_binary, s.staging_signature].contains(s.installed)) by {
        let q = seq![s.staging_binary, s.staging_signature];
        if q.contains(s.installed) {
            let k = choose|k: int| 0 <= k < q.len() && q[k] == s.installed;
            assert(k == 0 || k == 1);
        }
    }
}

} // verus!
