//! Provisioning the helper tool: download its archive, extract its binary,
//! and install it by one atomic rename.
use vstd::prelude::*;
use crate::archive::{extract_named, extraction, helper_tool_name};
use crate::flow::{
    action_touches, finish, no_paths, one_path, ActionModel, EventModel, FlowAction, FlowError,
    FlowEvent,
};
use crate::release::{arch_name, arch_str, Arch};
use crate::text::concat3;

verus! {

/// Where the download URL of the helper tool's archive for `arch` is.
pub open spec fn uv_archive_url_of(arch: Arch) -> Seq<char> {
    "https://github.com/astral-sh/uv/releases/latest/download/uv-"@ + arch_name(arch)
        + "-unknown-linux-musl.tar.gz"@
}

/// The download URL of the helper tool's latest archive for `arch`.
pub fn uv_archive_url(arch: Arch) -> (r: String)
    ensures
        r@ == uv_archive_url_of(arch),
{
    concat3(
        "https://github.com/astral-sh/uv/releases/latest/download/uv-",
        arch_str(arch),
        "-unknown-linux-musl.tar.gz",
    )
}

/// Where the provisioning flow stands.
#[derive(Debug, Clone, Copy, PartialEq, Eq, Structural)]
pub enum ProvisionStage {
    AwaitArchive,
    AwaitWritten,
    AwaitPermission,
    AwaitRename,
    Finished,
}

/// The provisioning flow, over plain values.
pub struct ProvisionModel {
    pub stage: ProvisionStage,
    pub staging: Seq<char>,
    pub installed: Seq<char>,
}

pub open spec fn provision_begin(staging: Seq<char>, installed: Seq<char>) -> ProvisionModel {
    ProvisionModel { stage: ProvisionStage::AwaitArchive, staging, installed }
}

pub open spec fn at_stage(s: ProvisionModel, stage: ProvisionStage) -> ProvisionModel {
    ProvisionModel { stage, ..s }
}

/// End the flow with `err`, removing the staging file.
pub open spec fn abort_staged(s: ProvisionModel, err: FlowError) -> (ProvisionModel, ActionModel) {
    (at_stage(s, ProvisionStage::Finished), ActionModel::Finish(seq![s.staging], Err(err)))
}

/// One step of the provisioning flow: the next state and the action it asks for.
pub open spec fn provision_next(s: ProvisionModel, e: EventModel) -> (ProvisionModel, ActionModel) {
    match (s.stage, e) {
        (ProvisionStage::AwaitArchive, EventModel::Fetched(Ok(data))) => {
            match extraction(data, helper_tool_name()) {
                Ok(c) => (
                    at_stage(s, ProvisionStage::AwaitWritten),
                    ActionModel::WriteFile(s.staging, c),
                ),
                Err(x) => (
                    at_stage(s, ProvisionStage::Finished),
                    ActionModel::Finish(Seq::empty(), Err(FlowError::Archive(x))),
                ),
            }
        },
        (ProvisionStage::AwaitArchive, EventModel::Fetched(Err(f))) => (
            at_stage(s, ProvisionStage::Finished),
            ActionModel::Finish(Seq::empty(), Err(FlowError::Network(f))),
        ),
        (ProvisionStage::AwaitWritten, EventModel::Done(true)) => (
            at_stage(s, ProvisionStage::AwaitPermission),
            ActionModel::SetExecutable(s.staging),
        ),
        (ProvisionStage::AwaitPermission, EventModel::Done(true)) => (
            at_stage(s, ProvisionStage::AwaitRename),
            ActionModel::Rename(s.staging, s.installed),
        ),
        (ProvisionStage::AwaitRename, EventModel::Done(true)) => (
            at_stage(s, ProvisionStage::Finished),
            ActionModel::Finish(Seq::empty(), Ok(())),
        ),
        (ProvisionStage::AwaitWritten, EventModel::Done(false)) => abort_staged(s, FlowError::Install),
        (ProvisionStage::AwaitPermission, EventModel::Done(false)) => abort_staged(
            s,
            FlowError::Install,
        ),
        (ProvisionStage::AwaitRename, EventModel::Done(false)) => abort_staged(s, FlowError::Install),
        (ProvisionStage::Finished, _) => (
            s,
            ActionModel::Finish(Seq::empty(), Err(FlowError::OutOfOrder)),
        ),
        (ProvisionStage::AwaitArchive, _) => (
            at_stage(s, ProvisionStage::Finished),
            ActionModel::Finish(Seq::empty(), Err(FlowError::OutOfOrder)),
        ),
        _ => abort_staged(s, FlowError::OutOfOrder),
    }
}

/// The state of one provisioning of the helper tool.
pub struct ProvisionFlow {
    stage: ProvisionStage,
    staging: String,
    installed: String,
}

impl View for ProvisionFlow {
    type V = ProvisionModel;

    closed spec fn view(&self) -> ProvisionModel {
        ProvisionModel { stage: self.stage, staging: self.staging@, installed: self.installed@ }
    }
}

impl ProvisionFlow {
    /// Starts provisioning from the archive at `archive_url`: the tool is
    /// staged at `staging` and installed at `installed`. The first action
    /// downloads the archive.
    pub fn new(archive_url: String, staging: String, installed: String) -> (r: (
        ProvisionFlow,
        FlowAction,
    ))
        ensures
            r.0@ == provision_begin(staging@, installed@),
            r.1@ == ActionModel::Fetch(archive_url@),
    {
        (
            ProvisionFlow { stage: ProvisionStage::AwaitArchive, staging, installed },
            FlowAction::Fetch { url: archive_url },
        )
    }

    /// The stage the flow has reached.
    pub fn stage(&self) -> (r: ProvisionStage)
        ensures
            r == self@.stage,
    {
        self.stage
    }

    fn abort_staged(&mut self, err: FlowError) -> (a: FlowAction)
        ensures
            (final(self)@, a@) == abort_staged(old(self)@, err),
    {
        self.stage = ProvisionStage::Finished;
        finish(one_path(&self.staging), Err(err))
    }

    /// Takes the outcome of the last action and returns the next one.
    pub fn step(&mut self, event: FlowEvent) -> (a: FlowAction)
        ensures
            (final(self)@, a@) == provision_next(old(self)@, event@),
    {
        match (self.stage, event) {
            (ProvisionStage::AwaitArchive, FlowEvent::Fetched(Ok(data))) => {
                let name: Vec<u8> = vec![117u8, 118u8];
                assert(name@ =~= helper_tool_name());
                match extract_named(data.as_slice(), name.as_slice()) {
                    Ok(contents) => {
                        self.stage = ProvisionStage::AwaitWritten;
                        FlowAction::WriteFile { path: self.staging.clone(), contents }
                    },
                    Err(x) => {
                        self.stage = ProvisionStage::Finished;
                        finish(no_paths(), Err(FlowError::Archive(x)))
                    },
                }
            },
            (ProvisionStage::AwaitArchive, FlowEvent::Fetched(Err(f))) => {
                self.stage = ProvisionStage::Finished;
                finish(no_paths(), Err(FlowError::Network(f)))
            },
            (ProvisionStage::AwaitWritten, FlowEvent::Done(true)) => {
                self.stage = ProvisionStage::AwaitPermission;
                FlowAction::SetExecutable { path: self.staging.clone() }
            },
            (ProvisionStage::AwaitPermission, FlowEvent::Done(true)) => {
                self.stage = ProvisionStage::AwaitRename;
                FlowAction::Rename { from: self.staging.clone(), to: self.installed.clone() }
            },
            (ProvisionStage::AwaitRename, FlowEvent::Done(true)) => {
                self.stage = ProvisionStage::Finished;
                finish(no_paths(), Ok(()))
            },
            (ProvisionStage::AwaitWritten, FlowEvent::Done(false)) => {
                self.abort_staged(FlowError::Install)
            },
            (ProvisionStage::AwaitPermission, FlowEvent::Done(false)) => {
                self.abort_staged(FlowError::Install)
            },
            (ProvisionStage::AwaitRename, FlowEvent::Done(false)) => {
                self.abort_staged(FlowError::Install)
            },
            (ProvisionStage::Finished, _) => finish(no_paths(), Err(FlowError::OutOfOrder)),
            (ProvisionStage::AwaitArchive, _) => {
                self.stage = ProvisionStage::Finished;
                finish(no_paths(), Err(FlowError::OutOfOrder))
            },
            _ => self.abort_staged(FlowError::OutOfOrder),
        }
    }
}

/// An archive without a member named after the helper tool ends the flow
/// with an error, and no file is written, renamed or removed.
pub proof fn lemma_missing_entry_writes_nothing(s: ProvisionModel, data: Seq<u8>, p: Seq<char>)
    requires
        s.stage == ProvisionStage::AwaitArchive,
        extraction(data, helper_tool_name()) is Err,
    ensures
        ({
            let (t, a) = provision_next(s, EventModel::Fetched(Ok(data)));
            &&& t.stage == ProvisionStage::Finished
            &&& a == ActionModel::Finish(
                Seq::empty(),
                Err(FlowError::Archive(extraction(data, helper_tool_name())->Err_0)),
            )
            &&& !action_touches(a, p)
        }),
{
}

/// The installed helper tool is only ever replaced by renaming the complete
/// staged file onto it.
pub proof fn lemma_tool_only_renamed_onto(s: ProvisionModel, e: EventModel)
    requires
        s.staging != s.installed,
        action_touches(provision_next(s, e).1, s.installed),
    ensures
        s.stage == ProvisionStage::AwaitPermission,
        provision_next(s, e).1 == ActionModel::Rename(s.staging, s.installed),
{
}

} // verus!
