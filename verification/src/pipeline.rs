//! The generation pipeline: resolves the template, prepares the temporary
//! workspace, composes the icon, writes the configuration, edits the
//! bundle metadata, signs, publishes, and cleans up — emitting progress
//! checkpoints in non-decreasing order and translating every failure into
//! a user-facing sentence.

use vstd::prelude::*;
use vstd::string::*;
use crate::config::{render_config, config_json_of};
use crate::errors::{friendly, user_friendly_error};
use crate::event::{Event, opt_view, is_op_event, event_diag};
use crate::icon::{
    IconComposer, IconStage, IconWork, icon_entry, icon_dim, icon_file_name, icon_next,
    is_webp_path, is_webp_spec,
};
use crate::names::{
    app_file_name, app_file_name_of, bundle_identifier, bundle_id_of, plist_edits,
};
use crate::publish::{PublishMover, PublishStage, PublishWork, publish_next};
use crate::sanitize::{sanitize_name, sanitized};
use crate::template::{template_not_found, missing_template_message};
use crate::text::{concat2, concat3};

verus! {

/// A request to package a web URL as a desktop application bundle.
pub struct GenerateAppRequest {
    pub name: String,
    pub url: String,
    pub icon_path: String,
    pub output_dir: String,
}

/// One progress notification: a step label and a percentage.
#[derive(Clone)]
pub struct GenerateProgress {
    pub step: String,
    pub progress: u8,
}

/// Relies on `uuid::Uuid::new_v4` and its hyphenated rendering: a fresh
/// random identifier, 36 characters long in every outcome.
#[verifier::external_body]
fn fresh_token() -> (r: String)
    ensures
        r@.len() == 36,
{
    uuid::Uuid::new_v4().to_string()
}

/// The fixed, one-directional stages of the pipeline.
pub enum Stage {
    /// The three template candidates are being probed.
    ResolvingTemplate,
    /// The temporary workspace directory is being created.
    CreatingWorkspace,
    /// The template bundle is being copied into the workspace.
    CopyingTemplate,
    /// The icon composer is running.
    ComposingIcon,
    /// The configuration file is being written.
    WritingConfig,
    /// The metadata keys are being set, one at a time.
    EditingMetadata,
    /// The ad hoc signature is being applied.
    Signing,
    /// The destination is being probed for an existing bundle.
    CheckingDestination,
    /// The publish mover is running.
    Publishing,
    /// The temporary workspace is being removed, best-effort.
    CleaningWorkspace,
    /// The bundle is published; the result carries its path.
    Done,
    /// The run failed; the failure carries the translated message.
    Failed,
}

/// The operation the pipeline asks the surrounding program to perform.
pub enum Action {
    ProbeTemplates { prod: String, dev: String, manifest: String },
    CreateDir { path: String },
    CopyDir { from: String, to: String },
    ConvertImage { from: String, to: String },
    ResizeImage { source: String, dest: String, dim: u32 },
    PackIconset { scratch: String, dest: String },
    WriteFile { path: String, contents: String },
    SetPlistKey { plist: String, key: String, value: String },
    SignBundle { path: String },
    CheckDestination { path: String },
    RemoveDir { path: String },
    RemoveFile { path: String },
    Rename { from: String, to: String },
    Finished,
}

/// The position of a stage along the run.
pub open spec fn stage_index(st: Stage) -> int {
    match st {
        Stage::ResolvingTemplate => 0,
        Stage::CreatingWorkspace => 1,
        Stage::CopyingTemplate => 2,
        Stage::ComposingIcon => 3,
        Stage::WritingConfig => 4,
        Stage::EditingMetadata => 5,
        Stage::Signing => 6,
        Stage::CheckingDestination => 7,
        Stage::Publishing => 8,
        Stage::CleaningWorkspace => 9,
        Stage::Done => 10,
        Stage::Failed => 11,
    }
}

/// The progress checkpoint reported on entering a stage.
pub open spec fn progress_of(st: Stage) -> u8 {
    match st {
        Stage::ResolvingTemplate => 10,
        Stage::CreatingWorkspace => 10,
        Stage::CopyingTemplate => 20,
        Stage::ComposingIcon => 40,
        Stage::WritingConfig => 60,
        Stage::EditingMetadata => 70,
        Stage::Signing => 80,
        Stage::CheckingDestination => 90,
        Stage::Publishing => 90,
        Stage::CleaningWorkspace => 90,
        Stage::Done => 100,
        Stage::Failed => 0,
    }
}

/// Along the stage order the checkpoints never decrease, and the terminal
/// checkpoint is exactly 100.
pub proof fn lemma_progress_monotone(a: Stage, b: Stage)
    requires
        !(a is Failed),
        !(b is Failed),
        stage_index(a) <= stage_index(b),
    ensures
        progress_of(a) <= progress_of(b),
        progress_of(Stage::Done) == 100,
{
}

/// The key of the metadata edit at `i`.
pub open spec fn plist_key(i: int) -> Seq<char> {
    if i == 0 {
        "CFBundleName"@
    } else if i == 1 {
        "CFBundleDisplayName"@
    } else {
        "CFBundleIdentifier"@
    }
}

/// The pipeline state machine.
pub struct Pipeline {
    pub stage: Stage,
    pub request: GenerateAppRequest,
    /// The packaged-resource directory of the running process.
    pub resource_dir: String,
    /// The development-tree directory of the tool.
    pub manifest_dir: String,
    /// The directory under which the temporary workspace is created.
    pub tmp_base: String,
    /// The random per-request workspace token.
    pub token: String,
    pub safe_name: String,
    pub app_name: String,
    pub bundle_id: String,
    pub template_path: String,
    pub temp_dir: String,
    pub temp_app_path: String,
    pub output_path: String,
    pub icon: IconComposer,
    pub edits_applied: usize,
    pub mover: PublishMover,
    pub last_progress: u8,
    pub result_ok: Option<String>,
    pub failure: Option<String>,
}

impl Pipeline {
    /// The first template candidate: the packaged-resource location.
    pub open spec fn prod_candidate(self) -> Seq<char> {
        self.resource_dir@ + "/Template.app"@
    }

    /// The second candidate: the packaged-resource subdirectory used during
    /// development.
    pub open spec fn dev_candidate(self) -> Seq<char> {
        self.resource_dir@ + "/resources/Template.app"@
    }

    /// The third candidate: the development-tree-relative location.
    pub open spec fn manifest_candidate(self) -> Seq<char> {
        self.manifest_dir@ + "/resources/Template.app"@
    }

    /// The resources directory inside the in-progress bundle.
    pub open spec fn resources_dir(self) -> Seq<char> {
        self.temp_app_path@ + "/Contents/Resources"@
    }

    /// The scratch iconset directory, adjacent to the icon destination.
    pub open spec fn scratch_dir(self) -> Seq<char> {
        self.resources_dir() + "/AppIcon.iconset"@
    }

    /// The packed icon container inside the bundle.
    pub open spec fn icon_dest(self) -> Seq<char> {
        self.resources_dir() + "/icon.icns"@
    }

    /// The throwaway pre-converted source image.
    pub open spec fn converted_png(self) -> Seq<char> {
        self.resources_dir() + "/temp_source.png"@
    }

    /// The configuration file inside the bundle.
    pub open spec fn config_path(self) -> Seq<char> {
        self.resources_dir() + "/config.json"@
    }

    /// The metadata file inside the bundle.
    pub open spec fn plist_path(self) -> Seq<char> {
        self.temp_app_path@ + "/Contents/Info.plist"@
    }

    /// The pipeline's internal invariant.
    pub open spec fn wf(self) -> bool {
        &&& self.safe_name@ == sanitized(self.request.name@)
        &&& self.app_name@ == app_file_name_of(self.safe_name@)
        &&& self.bundle_id@ == bundle_id_of(self.safe_name@)
        &&& self.temp_dir@ == self.tmp_base@ + "/webbox-"@ + self.token@
        &&& self.temp_app_path@ == self.temp_dir@ + "/"@ + self.app_name@
        &&& self.output_path@ == self.request.output_dir@ + "/"@ + self.app_name@
        &&& !(self.stage is Done) ==> self.result_ok is None
        &&& !(self.stage is Failed) ==> self.failure is None
        &&& !(self.stage is Failed) ==> self.last_progress == progress_of(self.stage)
        &&& self.last_progress <= 100
        &&& !(self.stage is ResolvingTemplate) && !(self.stage is Failed)
            ==> self.safe_name@.len() > 0
        &&& self.stage is EditingMetadata ==> self.edits_applied < 3
        &&& (self.stage is ResolvingTemplate || self.stage is CreatingWorkspace
            || self.stage is CopyingTemplate) ==> self.icon.wf() && self.icon.stage
            is CreatingScratch
        &&& self.stage is ComposingIcon ==> self.icon.wf() && !(self.icon.stage is Done)
            && !(self.icon.stage is Failed)
        &&& self.stage is Publishing ==> self.mover.wf() && !(self.mover.stage is Done)
            && !(self.mover.stage is Failed)
        &&& self.stage is Done ==> (self.result_ok matches Some(p) && p@
            == self.output_path@)
        &&& self.stage is Failed ==> self.failure is Some
    }

    /// Builds a pipeline for a request, also returning the first progress
    /// notification.  Validation of the derived safe name is decided before
    /// any workspace exists; the rejection itself is reported when the
    /// template probe answers, as the run reaches that point.
    pub fn new(
        request: GenerateAppRequest,
        resource_dir: String,
        manifest_dir: String,
        tmp_base: String,
    ) -> (r: (Pipeline, GenerateProgress))
        ensures
            r.0.wf(),
            r.0.stage is ResolvingTemplate,
            r.0.request.name@ == request.name@,
            r.0.request.url@ == request.url@,
            r.0.request.icon_path@ == request.icon_path@,
            r.0.request.output_dir@ == request.output_dir@,
            r.0.resource_dir@ == resource_dir@,
            r.0.manifest_dir@ == manifest_dir@,
            r.0.tmp_base@ == tmp_base@,
            r.0.safe_name@ == sanitized(request.name@),
            r.0.icon.source_is_webp == is_webp_spec(request.icon_path@),
            r.1.step@ == "Preparing..."@,
            r.1.progress == 10,
    {
        let safe_name = sanitize_name(request.name.as_str());
        let app_name = app_file_name(safe_name.as_str());
        let bundle_id = bundle_identifier(safe_name.as_str());
        let token = fresh_token();
        let temp_dir = concat3(tmp_base.as_str(), "/webbox-", token.as_str());
        let temp_app_path = concat3(temp_dir.as_str(), "/", app_name.as_str());
        let output_path = concat3(request.output_dir.as_str(), "/", app_name.as_str());
        let webp = is_webp_path(request.icon_path.as_str());
        let p = Pipeline {
            stage: Stage::ResolvingTemplate,
            request,
            resource_dir,
            manifest_dir,
            tmp_base,
            token,
            safe_name,
            app_name,
            bundle_id,
            template_path: String::new(),
            temp_dir,
            temp_app_path,
            output_path,
            icon: IconComposer::new(webp),
            edits_applied: 0,
            mover: PublishMover::new(false),
            last_progress: 10,
            result_ok: None,
            failure: None,
        };
        let first = GenerateProgress { step: "Preparing...".to_owned(), progress: 10 };
        (p, first)
    }

    /// What the pipeline asks the surrounding program to do next.
    pub fn current_action(&self) -> (a: Action)
        requires
            self.wf(),
        ensures
            self.action_ok(a),
    {
        match self.stage {
            Stage::ResolvingTemplate => Action::ProbeTemplates {
                prod: concat2(self.resource_dir.as_str(), "/Template.app"),
                dev: concat2(self.resource_dir.as_str(), "/resources/Template.app"),
                manifest: concat2(self.manifest_dir.as_str(), "/resources/Template.app"),
            },
            Stage::CreatingWorkspace => Action::CreateDir { path: self.temp_dir.clone() },
            Stage::CopyingTemplate => Action::CopyDir {
                from: self.template_path.clone(),
                to: self.temp_app_path.clone(),
            },
            Stage::ComposingIcon => {
                let resources = concat2(self.temp_app_path.as_str(), "/Contents/Resources");
                match self.icon.work() {
                    IconWork::CreateScratch => Action::CreateDir {
                        path: concat2(resources.as_str(), "/AppIcon.iconset"),
                    },
                    IconWork::ConvertSource => Action::ConvertImage {
                        from: self.request.icon_path.clone(),
                        to: concat2(resources.as_str(), "/temp_source.png"),
                    },
                    IconWork::Resize { index } => {
                        let entry = icon_entry(index);
                        let scratch = concat2(resources.as_str(), "/AppIcon.iconset");
                        let source = if self.icon.converted {
                            concat2(resources.as_str(), "/temp_source.png")
                        } else {
                            self.request.icon_path.clone()
                        };
                        Action::ResizeImage {
                            source,
                            dest: concat3(scratch.as_str(), "/", entry.file_name.as_str()),
                            dim: entry.dim,
                        }
                    },
                    IconWork::Pack => Action::PackIconset {
                        scratch: concat2(resources.as_str(), "/AppIcon.iconset"),
                        dest: concat2(resources.as_str(), "/icon.icns"),
                    },
                    IconWork::RemoveScratch => Action::RemoveDir {
                        path: concat2(resources.as_str(), "/AppIcon.iconset"),
                    },
                    IconWork::RemoveConverted => Action::RemoveFile {
                        path: concat2(resources.as_str(), "/temp_source.png"),
                    },
                    IconWork::Finished => Action::Finished,
                }
            },
            Stage::WritingConfig => {
                let resources = concat2(self.temp_app_path.as_str(), "/Contents/Resources");
                Action::WriteFile {
                    path: concat2(resources.as_str(), "/config.json"),
                    contents: render_config(
                        self.request.name.as_str(),
                        self.request.url.as_str(),
                    ),
                }
            },
            Stage::EditingMetadata => {
                let edits = plist_edits(self.safe_name.as_str(), self.bundle_id.as_str());
                let key = edits[self.edits_applied].0.clone();
                let value = edits[self.edits_applied].1.clone();
                Action::SetPlistKey {
                    plist: concat2(self.temp_app_path.as_str(), "/Contents/Info.plist"),
                    key,
                    value,
                }
            },
            Stage::Signing => Action::SignBundle { path: self.temp_app_path.clone() },
            Stage::CheckingDestination => Action::CheckDestination {
                path: self.output_path.clone(),
            },
            Stage::Publishing => match self.mover.work() {
                PublishWork::RemoveDestination => Action::RemoveDir {
                    path: self.output_path.clone(),
                },
                PublishWork::Rename => Action::Rename {
                    from: self.temp_app_path.clone(),
                    to: self.output_path.clone(),
                },
                PublishWork::CopyRecursive => Action::CopyDir {
                    from: self.temp_app_path.clone(),
                    to: self.output_path.clone(),
                },
                PublishWork::RemoveSource => Action::RemoveDir {
                    path: self.temp_app_path.clone(),
                },
                PublishWork::Finished => Action::Finished,
            },
            Stage::CleaningWorkspace => Action::RemoveDir { path: self.temp_dir.clone() },
            Stage::Done => Action::Finished,
            Stage::Failed => Action::Finished,
        }
    }

    /// The action that fits the pipeline's current state.
    pub open spec fn action_ok(self, a: Action) -> bool {
        match self.stage {
            Stage::ResolvingTemplate => a matches Action::ProbeTemplates { prod, dev, manifest }
                && prod@ == self.prod_candidate() && dev@ == self.dev_candidate() && manifest@
                == self.manifest_candidate(),
            Stage::CreatingWorkspace => a matches Action::CreateDir { path } && path@
                == self.temp_dir@,
            Stage::CopyingTemplate => a matches Action::CopyDir { from, to } && from@
                == self.template_path@ && to@ == self.temp_app_path@,
            Stage::ComposingIcon => match self.icon.work_spec() {
                IconWork::CreateScratch => a matches Action::CreateDir { path } && path@
                    == self.scratch_dir(),
                IconWork::ConvertSource => a matches Action::ConvertImage { from, to } && from@
                    == self.request.icon_path@ && to@ == self.converted_png(),
                IconWork::Resize { index } => a matches Action::ResizeImage { source, dest, dim }
                    && source@ == (if self.icon.converted {
                    self.converted_png()
                } else {
                    self.request.icon_path@
                }) && dest@ == self.scratch_dir() + "/"@ + icon_file_name(index as int) && dim
                    == icon_dim(index as int),
                IconWork::Pack => a matches Action::PackIconset { scratch, dest } && scratch@
                    == self.scratch_dir() && dest@ == self.icon_dest(),
                IconWork::RemoveScratch => a matches Action::RemoveDir { path } && path@
                    == self.scratch_dir(),
                IconWork::RemoveConverted => a matches Action::RemoveFile { path } && path@
                    == self.converted_png(),
                IconWork::Finished => a is Finished,
            },
            Stage::WritingConfig => a matches Action::WriteFile { path, contents } && path@
                == self.config_path() && contents@ == config_json_of(
                self.request.name@,
                self.request.url@,
            ),
            Stage::EditingMetadata => a matches Action::SetPlistKey { plist, key, value }
                && plist@ == self.plist_path() && key@ == plist_key(self.edits_applied as int)
                && value@ == (if self.edits_applied < 2 {
                self.safe_name@
            } else {
                self.bundle_id@
            }),
            Stage::Signing => a matches Action::SignBundle { path } && path@
                == self.temp_app_path@,
            Stage::CheckingDestination => a matches Action::CheckDestination { path } && path@
                == self.output_path@,
            Stage::Publishing => match self.mover.work_spec() {
                PublishWork::RemoveDestination => a matches Action::RemoveDir { path } && path@
                    == self.output_path@,
                PublishWork::Rename => a matches Action::Rename { from, to } && from@
                    == self.temp_app_path@ && to@ == self.output_path@,
                PublishWork::CopyRecursive => a matches Action::CopyDir { from, to } && from@
                    == self.temp_app_path@ && to@ == self.output_path@,
                PublishWork::RemoveSource => a matches Action::RemoveDir { path } && path@
                    == self.temp_app_path@,
                PublishWork::Finished => a is Finished,
            },
            Stage::CleaningWorkspace => a matches Action::RemoveDir { path } && path@
                == self.temp_dir@,
            Stage::Done => a is Finished,
            Stage::Failed => a is Finished,
        }
    }

    /// Feeds the outcome of the requested operation back into the pipeline,
    /// returning the progress notification for a newly entered checkpoint.
    pub fn step(&mut self, ev: &Event) -> (out: Option<GenerateProgress>)
        requires
            old(self).wf(),
        ensures
            final(self).wf(),
            final(self).safe_name@ == old(self).safe_name@,
            final(self).app_name@ == old(self).app_name@,
            final(self).bundle_id@ == old(self).bundle_id@,
            final(self).output_path@ == old(self).output_path@,
            final(self).temp_dir@ == old(self).temp_dir@,
            final(self).temp_app_path@ == old(self).temp_app_path@,
            final(self).resource_dir@ == old(self).resource_dir@,
            final(self).manifest_dir@ == old(self).manifest_dir@,
            final(self).request.name@ == old(self).request.name@,
            final(self).request.url@ == old(self).request.url@,
            final(self).request.icon_path@ == old(self).request.icon_path@,
            final(self).request.output_dir@ == old(self).request.output_dir@,
            match out {
                Some(p) => p.progress >= old(self).last_progress && p.progress == final(self).last_progress,
                None => final(self).last_progress == old(self).last_progress,
            },
            old(self).stage is Done ==> final(self).stage is Done && out is None && opt_view(
                final(self).result_ok,
            ) == opt_view(old(self).result_ok),
            old(self).stage is Failed ==> final(self).stage is Failed && out is None
                && opt_view(final(self).failure) == opt_view(old(self).failure),
            final(self).stage is Done ==> opt_view(final(self).result_ok) == Some(
                old(self).output_path@,
            ),
            old(self).stage is ResolvingTemplate ==> match *ev {
                Event::PathsChecked(b0, b1, b2) => if !b0 && !b1 && !b2 {
                    failed_with(
                        *final(self),
                        missing_template_message(
                            old(self).prod_candidate(),
                            old(self).dev_candidate(),
                            old(self).manifest_candidate(),
                        ),
                    ) && out is None
                } else if old(self).safe_name@.len() == 0 {
                    failed_with(
                        *final(self),
                        "Invalid app name. Please use letters, numbers, spaces, or hyphens."@,
                    ) && out is None
                } else {
                    final(self).stage is CreatingWorkspace && final(self).template_path@ == (
                    if b0 {
                        old(self).prod_candidate()
                    } else if b1 {
                        old(self).dev_candidate()
                    } else {
                        old(self).manifest_candidate()
                    }) && out is None
                },
                _ => final(self).stage is ResolvingTemplate && out is None,
            },
            old(self).stage is CreatingWorkspace ==> match *ev {
                Event::Completed => final(self).stage is CopyingTemplate && (out matches Some(p)
                    && p.step@ == "Copying template..."@ && p.progress == 20),
                Event::IoFailed(e) => failed_with(
                    *final(self),
                    friendly("Failed to create temp directory: "@ + e@),
                ) && out is None,
                Event::ToolFailed => failed_with(
                    *final(self),
                    friendly("Failed to create temp directory: "@ + event_diag(*ev)),
                ) && out is None,
                _ => final(self).stage is CreatingWorkspace && out is None,
            },
            old(self).stage is CopyingTemplate ==> match *ev {
                Event::Completed => final(self).stage is ComposingIcon && (out matches Some(p)
                    && p.step@ == "Processing icon..."@ && p.progress == 40),
                Event::IoFailed(e) => failed_with(
                    *final(self),
                    friendly("Failed to copy template: "@ + e@),
                ) && out is None,
                Event::ToolFailed => failed_with(
                    *final(self),
                    "Failed to copy template. Please try again."@,
                ) && out is None,
                _ => final(self).stage is CopyingTemplate && out is None,
            },
            old(self).stage is ComposingIcon && is_op_event(*ev) ==> icon_next(
                old(self).icon,
                *ev,
                final(self).icon,
            ) && (final(self).icon.stage is Failed ==> final(self).stage is Failed && opt_view(
                final(self).failure,
            ) == (match opt_view(final(self).icon.failure) {
                Some(m) => Some(friendly(m)),
                None => None,
            }) && out is None) && (final(self).icon.stage is Done ==> final(self).stage
                is WritingConfig && (out matches Some(p) && p.step@
                == "Writing configuration..."@ && p.progress == 60)) && (!(final(self).icon.stage is Done) && !(final(self).icon.stage is Failed) ==> final(self).stage
                is ComposingIcon && out is None),
            old(self).stage is ComposingIcon && !is_op_event(*ev) ==> final(self).stage
                is ComposingIcon && out is None,
            old(self).stage is WritingConfig ==> match *ev {
                Event::Completed => final(self).stage is EditingMetadata && final(self).edits_applied == 0 && (out matches Some(p) && p.step@
                    == "Updating app metadata..."@ && p.progress == 70),
                Event::IoFailed(e) => failed_with(
                    *final(self),
                    friendly("Failed to write config: "@ + e@),
                ) && out is None,
                Event::ToolFailed => failed_with(
                    *final(self),
                    friendly("Failed to write config: "@ + event_diag(*ev)),
                ) && out is None,
                _ => final(self).stage is WritingConfig && out is None,
            },
            old(self).stage is EditingMetadata ==> match *ev {
                Event::Completed => if old(self).edits_applied == 2 {
                    final(self).stage is Signing && (out matches Some(p) && p.step@
                        == "Signing app..."@ && p.progress == 80)
                } else {
                    final(self).stage is EditingMetadata && final(self).edits_applied == old(self).edits_applied + 1 && out is None
                },
                Event::IoFailed(e) => failed_with(
                    *final(self),
                    friendly("Failed to run PlistBuddy: "@ + e@),
                ) && out is None,
                Event::ToolFailed => failed_with(
                    *final(self),
                    friendly(
                        "Failed to update "@ + plist_key(old(self).edits_applied as int)
                            + " in plist"@,
                    ),
                ) && out is None,
                _ => final(self).stage is EditingMetadata && out is None,
            },
            old(self).stage is Signing ==> match *ev {
                Event::Completed => final(self).stage is CheckingDestination && (out matches Some(
                    p,
                ) && p.step@ == "Moving to destination..."@ && p.progress == 90),
                Event::IoFailed(e) => failed_with(
                    *final(self),
                    friendly("Failed to sign app: "@ + e@),
                ) && out is None,
                Event::ToolFailed => failed_with(
                    *final(self),
                    "Failed to sign app. Please try again."@,
                ) && out is None,
                _ => final(self).stage is Signing && out is None,
            },
            old(self).stage is CheckingDestination ==> match *ev {
                Event::DestinationChecked(b) => final(self).stage is Publishing && final(self).mover.temp_holds && (b ==> final(self).mover.stage is RemovingDest) && (!b
                    ==> final(self).mover.stage is Renaming) && out is None,
                _ => final(self).stage is CheckingDestination && out is None,
            },
            old(self).stage is Publishing && is_op_event(*ev) ==> publish_next(
                old(self).mover,
                *ev,
                final(self).mover,
            ) && (final(self).mover.stage is Failed ==> final(self).stage is Failed && opt_view(
                final(self).failure,
            ) == (match opt_view(final(self).mover.failure) {
                Some(m) => Some(friendly(m)),
                None => None,
            }) && out is None) && (final(self).mover.stage is Done ==> final(self).stage
                is CleaningWorkspace && out is None) && (!(final(self).mover.stage is Done) && !(
            final(self).mover.stage is Failed) ==> final(self).stage is Publishing && out
                is None),
            old(self).stage is Publishing && !is_op_event(*ev) ==> final(self).stage
                is Publishing && out is None,
            old(self).stage is CleaningWorkspace ==> match *ev {
                Event::Completed | Event::IoFailed(_) | Event::ToolFailed => final(self).stage
                    is Done && (out matches Some(p) && p.step@ == "Done!"@ && p.progress == 100),
                _ => final(self).stage is CleaningWorkspace && out is None,
            },
    {
        match self.stage {
            Stage::ResolvingTemplate => {
                match ev {
                    Event::PathsChecked(b0, b1, b2) => {
                        let prod = concat2(self.resource_dir.as_str(), "/Template.app");
                        let dev = concat2(self.resource_dir.as_str(), "/resources/Template.app");
                        let man = concat2(self.manifest_dir.as_str(), "/resources/Template.app");
                        if !*b0 && !*b1 && !*b2 {
                            self.failure = Some(
                                template_not_found(prod.as_str(), dev.as_str(), man.as_str()),
                            );
                            self.stage = Stage::Failed;
                        } else if self.safe_name.as_str().unicode_len() == 0 {
                            self.failure = Some(
                                "Invalid app name. Please use letters, numbers, spaces, or hyphens."
                                    .to_owned(),
                            );
                            self.stage = Stage::Failed;
                        } else {
                            self.template_path = if *b0 {
                                prod
                            } else if *b1 {
                                dev
                            } else {
                                man
                            };
                            self.stage = Stage::CreatingWorkspace;
                        }
                        None
                    },
                    _ => None,
                }
            },
            Stage::CreatingWorkspace => {
                match ev {
                    Event::Completed => {
                        self.stage = Stage::CopyingTemplate;
                        self.last_progress = 20;
                        Some(GenerateProgress { step: "Copying template...".to_owned(), progress: 20 })
                    },
                    Event::IoFailed(e) => {
                        let raw = concat2("Failed to create temp directory: ", e.as_str());
                        self.failure = Some(user_friendly_error(raw.as_str()));
                        self.stage = Stage::Failed;
                        None
                    },
                    Event::ToolFailed => {
                        proof {
                            reveal_strlit("");
                            assert(""@ =~= Seq::<char>::empty());
                        }
                        let raw = concat2("Failed to create temp directory: ", "");
                        self.failure = Some(user_friendly_error(raw.as_str()));
                        self.stage = Stage::Failed;
                        None
                    },
                    _ => None,
                }
            },
            Stage::CopyingTemplate => {
                match ev {
                    Event::Completed => {
                        self.stage = Stage::ComposingIcon;
                        self.last_progress = 40;
                        Some(GenerateProgress { step: "Processing icon...".to_owned(), progress: 40 })
                    },
                    Event::IoFailed(e) => {
                        let raw = concat2("Failed to copy template: ", e.as_str());
                        self.failure = Some(user_friendly_error(raw.as_str()));
                        self.stage = Stage::Failed;
                        None
                    },
                    Event::ToolFailed => {
                        self.failure = Some("Failed to copy template. Please try again.".to_owned());
                        self.stage = Stage::Failed;
                        None
                    },
                    _ => None,
                }
            },
            Stage::ComposingIcon => {
                match ev {
                    Event::PathsChecked(..) => None,
                    Event::DestinationChecked(..) => None,
                    _ => {
                        self.icon.step(ev);
                        match self.icon.stage {
                            IconStage::Failed => {
                                let m = match &self.icon.failure {
                                    Some(m) => m.clone(),
                                    None => String::new(),
                                };
                                self.failure = Some(user_friendly_error(m.as_str()));
                                self.stage = Stage::Failed;
                                None
                            },
                            IconStage::Done => {
                                self.stage = Stage::WritingConfig;
                                self.last_progress = 60;
                                Some(GenerateProgress {
                                    step: "Writing configuration...".to_owned(),
                                    progress: 60,
                                })
                            },
                            _ => None,
                        }
                    },
                }
            },
            Stage::WritingConfig => {
                match ev {
                    Event::Completed => {
                        self.stage = Stage::EditingMetadata;
                        self.edits_applied = 0;
                        self.last_progress = 70;
                        Some(GenerateProgress {
                            step: "Updating app metadata...".to_owned(),
                            progress: 70,
                        })
                    },
                    Event::IoFailed(e) => {
                        let raw = concat2("Failed to write config: ", e.as_str());
                        self.failure = Some(user_friendly_error(raw.as_str()));
                        self.stage = Stage::Failed;
                        None
                    },
                    Event::ToolFailed => {
                        proof {
                            reveal_strlit("");
                            assert(""@ =~= Seq::<char>::empty());
                        }
                        let raw = concat2("Failed to write config: ", "");
                        self.failure = Some(user_friendly_error(raw.as_str()));
                        self.stage = Stage::Failed;
                        None
                    },
                    _ => None,
                }
            },
            Stage::EditingMetadata => {
                match ev {
                    Event::Completed => {
                        if self.edits_applied == 2 {
                            self.stage = Stage::Signing;
                            self.last_progress = 80;
                            Some(GenerateProgress { step: "Signing app...".to_owned(), progress: 80 })
                        } else {
                            self.edits_applied = self.edits_applied + 1;
                            None
                        }
                    },
                    Event::IoFailed(e) => {
                        let raw = concat2("Failed to run PlistBuddy: ", e.as_str());
                        self.failure = Some(user_friendly_error(raw.as_str()));
                        self.stage = Stage::Failed;
                        None
                    },
                    Event::ToolFailed => {
                        let edits = plist_edits(self.safe_name.as_str(), self.bundle_id.as_str());
                        let key = edits[self.edits_applied].0.clone();
                        let raw = concat3("Failed to update ", key.as_str(), " in plist");
                        self.failure = Some(user_friendly_error(raw.as_str()));
                        self.stage = Stage::Failed;
                        None
                    },
                    _ => None,
                }
            },
            Stage::Signing => {
                match ev {
                    Event::Completed => {
                        self.stage = Stage::CheckingDestination;
                        self.last_progress = 90;
                        Some(GenerateProgress {
                            step: "Moving to destination...".to_owned(),
                            progress: 90,
                        })
                    },
                    Event::IoFailed(e) => {
                        let raw = concat2("Failed to sign app: ", e.as_str());
                        self.failure = Some(user_friendly_error(raw.as_str()));
                        self.stage = Stage::Failed;
                        None
                    },
                    Event::ToolFailed => {
                        self.failure = Some("Failed to sign app. Please try again.".to_owned());
                        self.stage = Stage::Failed;
                        None
                    },
                    _ => None,
                }
            },
            Stage::CheckingDestination => {
                match ev {
                    Event::DestinationChecked(b) => {
                        self.mover = PublishMover::new(*b);
                        self.stage = Stage::Publishing;
                        None
                    },
                    _ => None,
                }
            },
            Stage::Publishing => {
                match ev {
                    Event::PathsChecked(..) => None,
                    Event::DestinationChecked(..) => None,
                    _ => {
                        self.mover.step(ev);
                        match self.mover.stage {
                            PublishStage::Failed => {
                                let m = match &self.mover.failure {
                                    Some(m) => m.clone(),
                                    None => String::new(),
                                };
                                self.failure = Some(user_friendly_error(m.as_str()));
                                self.stage = Stage::Failed;
                                None
                            },
                            PublishStage::Done => {
                                self.stage = Stage::CleaningWorkspace;
                                None
                            },
                            _ => None,
                        }
                    },
                }
            },
            Stage::CleaningWorkspace => {
                match ev {
                    Event::PathsChecked(..) => None,
                    Event::DestinationChecked(..) => None,
                    _ => {
                        self.result_ok = Some(self.output_path.clone());
                        self.stage = Stage::Done;
                        self.last_progress = 100;
                        Some(GenerateProgress { step: "Done!".to_owned(), progress: 100 })
                    },
                }
            },
            Stage::Done => None,
            Stage::Failed => None,
        }
    }
}

/// The pipeline has failed with exactly this translated message.
pub open spec fn failed_with(post: Pipeline, m: Seq<char>) -> bool {
    post.stage is Failed && opt_view(post.failure) == Some(m)
}

} // verus!
