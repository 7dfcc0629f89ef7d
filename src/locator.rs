//! Finding the server binary: beside the installation first, then through
//! the saved configuration, then by asking the user. Each step names the
//! outside work it needs; the caller performs it and reports back.
use vstd::prelude::*;
use crate::config::{config_text_for, configured_path, json_str_member, pretty_json_object, PATH_KEY};
use crate::outcome::{LaunchError, Status};
use crate::supervisor::launch_step;
use crate::path::{beside_install_spec, parent_spec, sidecar_candidate, Platform, ResolvedPath, SIDECAR_NAME};

verus! {

/// Where a search stands.
#[derive(Clone, Copy, Debug, PartialEq, Eq, Structural)]
pub enum Phase {
    /// Waiting to hear whether the binary beside the installation exists.
    Probing,
    /// Waiting for the saved configuration.
    ReadingConfig,
    /// Waiting for the user's choice.
    Picking,
    /// Waiting for the chosen path to be saved.
    Saving,
    /// The search has ended.
    Done,
}

/// What the caller has found out, in answer to the last action.
pub enum LocateEvent {
    /// Whether a file exists at the checked path.
    Exists(bool),
    /// No configuration file exists.
    ConfigMissing,
    /// The configuration file holds this text.
    ConfigText(String),
    /// The configuration file exists but could not be read, for this reason.
    ConfigUnreadable(String),
    /// The user chose this path, or cancelled.
    Picked(Option<String>),
    /// Saving the configuration succeeded, or failed for this reason.
    Saved(Result<(), String>),
}

/// What the caller is to do next.
pub enum LocateAction {
    /// Check whether a file exists at this path.
    CheckExists(String),
    /// Read the saved configuration.
    ReadConfig,
    /// Ask the user to choose the server binary.
    PickBinary,
    /// Save this text as the configuration, creating its folder if needed.
    SaveConfig(String),
    /// The search found the binary.
    Found(ResolvedPath),
    /// The search failed.
    Failed(LaunchError),
}

/// A search for the server binary.
pub struct Locator {
    pub platform: Platform,
    pub phase: Phase,
    /// The path under consideration: the checked candidate, or the user's
    /// choice while it is being saved.
    pub path: String,
}

/// The action reports the binary at `path`.
pub open spec fn found_at(act: LocateAction, path: Seq<char>, platform: Platform) -> bool {
    act matches LocateAction::Found(rp) && rp.program@ == path && rp.work_dir@ == parent_spec(
        path,
        platform,
    )
}

/// One step of a search: from `pre`, on `ev`, the search becomes `post` and
/// asks for `act`.
pub open spec fn step_spec(pre: Locator, ev: LocateEvent, post: Locator, act: LocateAction) -> bool {
    &&& post.platform == pre.platform
    &&& match (pre.phase, ev) {
        (Phase::Probing, LocateEvent::Exists(true)) => {
            post.phase is Done && found_at(act, pre.path@, pre.platform)
        },
        (Phase::Probing, LocateEvent::Exists(false)) => {
            post.phase is ReadingConfig && act is ReadConfig
        },
        (Phase::ReadingConfig, LocateEvent::ConfigMissing) => {
            post.phase is Picking && act is PickBinary
        },
        (Phase::ReadingConfig, LocateEvent::ConfigText(t)) => {
            post.phase is Done && match json_str_member(t@, PATH_KEY@) {
                Some(p) => found_at(act, p, pre.platform),
                None => act matches LocateAction::Failed(LaunchError::ConfigInvalid(_)),
            }
        },
        (Phase::ReadingConfig, LocateEvent::ConfigUnreadable(m)) => {
            &&& post.phase is Done
            &&& act matches LocateAction::Failed(LaunchError::ConfigInvalid(e)) && e@ == m@
        },
        (Phase::Picking, LocateEvent::Picked(None)) => {
            post.phase is Done && act matches LocateAction::Failed(LaunchError::SelectionCancelled)
        },
        (Phase::Picking, LocateEvent::Picked(Some(p))) => {
            &&& post.phase is Saving
            &&& post.path@ == p@
            &&& act matches LocateAction::SaveConfig(t) && t@ == pretty_json_object(PATH_KEY@, p@)
                && json_str_member(t@, PATH_KEY@) == Some(p@)
        },
        (Phase::Saving, LocateEvent::Saved(Ok(()))) => {
            post.phase is Done && found_at(act, pre.path@, pre.platform)
        },
        (Phase::Saving, LocateEvent::Saved(Err(m))) => {
            &&& post.phase is Done
            &&& act matches LocateAction::Failed(LaunchError::PathResolutionFailed(e)) && e@ == m@
        },
        _ => {
            post.phase is Done && act matches LocateAction::Failed(
                LaunchError::PathResolutionFailed(_),
            )
        },
    }
}

/// A saved configuration that names a path is used without asking the
/// user: when the binary is missing beside the installation, the search
/// reads the configuration next and ends with the path it names.
pub proof fn lemma_saved_config_used(
    s0: Locator,
    s1: Locator,
    a1: LocateAction,
    text: String,
    s2: Locator,
    a2: LocateAction,
)
    requires
        s0.phase is Probing,
        step_spec(s0, LocateEvent::Exists(false), s1, a1),
        step_spec(s1, LocateEvent::ConfigText(text), s2, a2),
        json_str_member(text@, PATH_KEY@) is Some,
    ensures
        a1 is ReadConfig,
        s2.phase is Done,
        found_at(a2, json_str_member(text@, PATH_KEY@)->Some_0, s0.platform),
{
}

/// The user's choice is saved so that it is found again: the saved text
/// names the chosen path, the search ends with that path once the text is
/// saved, and a later search that reads the text ends with the same path
/// without asking the user.
pub proof fn lemma_choice_saved(
    s0: Locator,
    chosen: String,
    s1: Locator,
    a1: LocateAction,
    s2: Locator,
    a2: LocateAction,
    later: Locator,
    text: String,
    later_post: Locator,
    later_act: LocateAction,
)
    requires
        s0.phase is Picking,
        step_spec(s0, LocateEvent::Picked(Some(chosen)), s1, a1),
        a1 == LocateAction::SaveConfig(text),
        step_spec(s1, LocateEvent::Saved(Ok(())), s2, a2),
        later.phase is ReadingConfig,
        later.platform == s0.platform,
        step_spec(later, LocateEvent::ConfigText(text), later_post, later_act),
    ensures
        json_str_member(text@, PATH_KEY@) == Some(chosen@),
        found_at(a2, chosen@, s0.platform),
        found_at(later_act, chosen@, s0.platform),
{
}

/// Cancelling the picker, with no binary beside the installation and no
/// saved configuration, ends the search with `SelectionCancelled`; a launch
/// from an empty slot that gets this failure reports it and leaves the slot
/// empty.
pub proof fn lemma_cancel_fails<H>(
    s0: Locator,
    s1: Locator,
    a1: LocateAction,
    s2: Locator,
    a2: LocateAction,
    s3: Locator,
    a3: LocateAction,
    sp: Result<H, String>,
    slot: Option<H>,
    r: Result<Status, LaunchError>,
)
    requires
        s0.phase is Probing,
        step_spec(s0, LocateEvent::Exists(false), s1, a1),
        step_spec(s1, LocateEvent::ConfigMissing, s2, a2),
        step_spec(s2, LocateEvent::Picked(None), s3, a3),
        launch_step(None, Err(a3->Failed_0), sp, slot, r),
    ensures
        a1 is ReadConfig,
        a2 is PickBinary,
        a3 == LocateAction::Failed(LaunchError::SelectionCancelled),
        r == Err::<Status, LaunchError>(LaunchError::SelectionCancelled),
        slot is None,
{
}

impl Locator {
    /// Begins a search for the binary of an executable that runs in
    /// `exe_dir`: first, check the candidate beside the installation.
    pub fn start(exe_dir: &str, platform: Platform) -> (r: (Locator, LocateAction))
        ensures
            r.0.platform == platform,
            r.0.phase is Probing,
            r.0.path@ == beside_install_spec(exe_dir@, SIDECAR_NAME@, platform),
            r.1 matches LocateAction::CheckExists(c) && c@ == r.0.path@,
    {
        let candidate = sidecar_candidate(exe_dir, platform);
        let check = candidate.clone();
        (Locator { platform, phase: Phase::Probing, path: candidate }, LocateAction::CheckExists(check))
    }

    fn finish(&mut self, act: LocateAction) -> (r: LocateAction)
        ensures
            final(self).platform == old(self).platform,
            final(self).phase is Done,
            r == act,
    {
        self.phase = Phase::Done;
        act
    }

    /// Takes the caller's answer to the last action and says what to do next.
    pub fn step(&mut self, event: LocateEvent) -> (r: LocateAction)
        ensures
            step_spec(*old(self), event, *final(self), r),
    {
        let platform = self.platform;
        match (self.phase, event) {
            (Phase::Probing, LocateEvent::Exists(true)) => {
                let found = ResolvedPath::new(self.path.as_str(), platform);
                self.finish(LocateAction::Found(found))
            },
            (Phase::Probing, LocateEvent::Exists(false)) => {
                self.phase = Phase::ReadingConfig;
                LocateAction::ReadConfig
            },
            (Phase::ReadingConfig, LocateEvent::ConfigMissing) => {
                self.phase = Phase::Picking;
                LocateAction::PickBinary
            },
            (Phase::ReadingConfig, LocateEvent::ConfigText(t)) => {
                match configured_path(t.as_str()) {
                    Some(p) => {
                        let found = ResolvedPath::new(p.as_str(), platform);
                        self.finish(LocateAction::Found(found))
                    },
                    None => {
                        let why = String::from_str("missing or invalid 'spxPath' in config");
                        self.finish(LocateAction::Failed(LaunchError::ConfigInvalid(why)))
                    },
                }
            },
            (Phase::ReadingConfig, LocateEvent::ConfigUnreadable(m)) => {
                self.finish(LocateAction::Failed(LaunchError::ConfigInvalid(m)))
            },
            (Phase::Picking, LocateEvent::Picked(None)) => {
                self.finish(LocateAction::Failed(LaunchError::SelectionCancelled))
            },
            (Phase::Picking, LocateEvent::Picked(Some(p))) => {
                match config_text_for(p.as_str()) {
                    Some(t) => {
                        self.phase = Phase::Saving;
                        self.path = p;
                        LocateAction::SaveConfig(t)
                    },
                    None => {
                        let why = String::from_str("failed to serialize config");
                        self.finish(LocateAction::Failed(LaunchError::PathResolutionFailed(why)))
                    },
                }
            },
            (Phase::Saving, LocateEvent::Saved(Ok(()))) => {
                let found = ResolvedPath::new(self.path.as_str(), platform);
                self.finish(LocateAction::Found(found))
            },
            (Phase::Saving, LocateEvent::Saved(Err(m))) => {
                self.finish(LocateAction::Failed(LaunchError::PathResolutionFailed(m)))
            },
            _ => {
                let why = String::from_str("the search got an answer it did not ask for");
                self.finish(LocateAction::Failed(LaunchError::PathResolutionFailed(why)))
            },
        }
    }
}

} // verus!
