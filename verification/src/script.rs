//! What a settings command makes the rest of the player do: effects in order,
//! the first failure ending the command.
use crate::app_state::{SettingsEdit, SoneError};
use vstd::prelude::*;

verus! {

#[derive(Debug, PartialEq, Eq)]
pub enum DiscordCommand {
    Connect,
    Disconnect,
    SetStatusText { text: String },
}

/// The gain that normalization asks of the output.
#[derive(Debug, PartialEq, Eq)]
pub enum Gain {
    /// No change in level.
    Unity,
    /// Computed from the current track's replay gain and peak, each as the
    /// bits of a finite number where the track has one.
    FromTrack { replay_gain: Option<u64>, peak: Option<u64> },
}

#[derive(Debug, PartialEq, Eq)]
pub enum Effect {
    SetWindowDecorations(bool),
    SetNormalizationGain(Gain),
    ShowNormalization(bool),
    SetAudioExclusive { enabled: bool, device: Option<String> },
    SetAudioBitPerfect(bool),
    SetAudioGapless(bool),
    SendDiscord(DiscordCommand),
    /// Load the stored settings, or take the defaults, make the edit, and save.
    SaveSettings(SettingsEdit),
    EnableReporting(bool),
    /// Flush the offline backlog of play reports.
    DrainReports,
    /// Drop the play session in flight.
    DropSession,
}

/// How an effect went.
#[derive(Debug, PartialEq, Eq)]
pub enum Outcome {
    Done,
    /// The audio thread refused, in its own words.
    AudioFailed(String),
    Failed(SoneError),
}

/// The error a failed effect ends its command with.
pub open spec fn failure_of(outcome: Outcome) -> Option<SoneError> {
    match outcome {
        Outcome::Done => None,
        Outcome::AudioFailed(words) => Some(SoneError::Audio(words)),
        Outcome::Failed(e) => Some(e),
    }
}

/// A command under way.
pub struct Script {
    effects: Vec<Effect>,
    done: usize,
    failure: Option<SoneError>,
}

/// The effects, how many of them are done, and the failure if one failed.
#[verifier::ext_equal]
pub struct ScriptView {
    pub effects: Seq<Effect>,
    pub done: int,
    pub failure: Option<SoneError>,
}

impl View for Script {
    type V = ScriptView;

    closed spec fn view(&self) -> ScriptView {
        ScriptView { effects: self.effects@, done: self.done as int, failure: self.failure }
    }
}

/// The effect to perform next.
pub open spec fn pending_effect(s: ScriptView) -> Option<Effect> {
    if s.failure is None && 0 <= s.done < s.effects.len() {
        Some(s.effects[s.done])
    } else {
        None
    }
}

/// The script after the pending effect went as `outcome` says. Where nothing
/// is pending there is nothing to report.
pub open spec fn reported(s: ScriptView, outcome: Outcome) -> ScriptView {
    if pending_effect(s) is None {
        s
    } else if outcome is Done {
        ScriptView { done: s.done + 1, ..s }
    } else {
        ScriptView { failure: failure_of(outcome), ..s }
    }
}

/// A script that has not begun.
pub open spec fn script_start(effects: Seq<Effect>) -> ScriptView {
    ScriptView { effects, done: 0, failure: None }
}

impl Script {
    pub fn new(effects: Vec<Effect>) -> (r: Self)
        ensures
            r@ == script_start(effects@),
    {
        Script { effects, done: 0, failure: None }
    }

    /// The effect to perform next, or `None` when the command is over.
    pub fn pending(&self) -> (r: Option<&Effect>)
        ensures
            match (r, pending_effect(self@)) {
                (Some(e), Some(f)) => *e == f,
                (None, None) => true,
                _ => false,
            },
    {
        if self.failure.is_none() && self.done < self.effects.len() {
            Some(&self.effects[self.done])
        } else {
            None
        }
    }

    /// Takes note of how the pending effect went.
    pub fn report(&mut self, outcome: Outcome)
        ensures
            final(self)@ == reported(old(self)@, outcome),
    {
        if self.failure.is_none() && self.done < self.effects.len() {
            match outcome {
                Outcome::Done => {
                    self.done = self.done + 1;
                },
                Outcome::AudioFailed(words) => {
                    self.failure = Some(SoneError::Audio(words));
                },
                Outcome::Failed(e) => {
                    self.failure = Some(e);
                },
            }
        }
    }

    /// How the command ended: with its one failure, or well.
    pub fn into_result(self) -> (r: Result<(), SoneError>)
        ensures
            match r {
                Ok(_) => self@.failure is None,
                Err(e) => self@.failure == Some(e),
            },
    {
        match self.failure {
            Some(e) => Err(e),
            None => Ok(()),
        }
    }
}

/// The script after a course of reports.
pub open spec fn after_reports(s: ScriptView, outcomes: Seq<Outcome>) -> ScriptView
    decreases outcomes.len(),
{
    if outcomes.len() == 0 {
        s
    } else {
        reported(after_reports(s, outcomes.drop_last()), outcomes.last())
    }
}

/// An effect comes up only when every effect before it has been done: after
/// any course of reports, the effects done are as many as the leading reports
/// of success, and a failure is the first report of one.
pub proof fn law_effects_run_in_order(effects: Seq<Effect>, outcomes: Seq<Outcome>)
    ensures
        ({
            let s = after_reports(script_start(effects), outcomes);
            &&& s.effects == effects
            &&& 0 <= s.done <= effects.len()
            &&& s.done <= outcomes.len()
            &&& forall|i: int| 0 <= i < s.done ==> (#[trigger] outcomes[i]) is Done
            &&& s.failure is None ==> s.done == effects.len() || s.done == outcomes.len()
            &&& s.failure is Some ==> s.done < effects.len() && s.done < outcomes.len()
                && outcomes[s.done] !is Done && s.failure == failure_of(outcomes[s.done])
        }),
    decreases outcomes.len(),
{
    if outcomes.len() > 0 {
        let before = outcomes.drop_last();
        law_effects_run_in_order(effects, before);
        let t = after_reports(script_start(effects), before);
        assert(forall|i: int| 0 <= i < before.len() ==> before[i] == outcomes[i]);
        assert(outcomes.last() == outcomes[outcomes.len() - 1]);
        assert forall|i: int| 0 <= i < t.done implies (#[trigger] outcomes[i]) is Done by {
            assert(before[i] is Done);
        }
    }
}

/// Nothing happens after a failure.
pub proof fn law_nothing_follows_a_failure(s: ScriptView, outcome: Outcome, later: Outcome)
    requires
        pending_effect(s) is Some,
        outcome !is Done,
    ensures
        pending_effect(reported(s, outcome)) is None,
        reported(reported(s, outcome), later) == reported(s, outcome),
{
}

/// A command fails with the failure it was told of: the words of the audio
/// thread as an audio error, any other error as it came.
pub proof fn law_failure_is_the_one_reported(words: String, e: SoneError)
    ensures
        failure_of(Outcome::Done) is None,
        failure_of(Outcome::AudioFailed(words)) == Some(SoneError::Audio(words)),
        failure_of(Outcome::Failed(e)) == Some(e),
{
}

/// After `n` successes the effect at place `n` comes up, and nothing once all
/// are done: each effect comes up once, in the order of the script.
pub proof fn law_effects_come_up_one_by_one(effects: Seq<Effect>, outcomes: Seq<Outcome>)
    requires
        outcomes.len() <= effects.len(),
        forall|i: int| 0 <= i < outcomes.len() ==> (#[trigger] outcomes[i]) is Done,
    ensures
        ({
            let s = after_reports(script_start(effects), outcomes);
            &&& s.failure is None
            &&& pending_effect(s) == if outcomes.len() < effects.len() {
                Some(effects[outcomes.len() as int])
            } else {
                None
            }
        }),
{
    law_effects_run_in_order(effects, outcomes);
}

/// The first failure is the command's own: the effects before it were done, and
/// nothing comes up after it.
pub proof fn law_first_failure_ends_the_command(
    effects: Seq<Effect>,
    outcomes: Seq<Outcome>,
    e: SoneError,
)
    requires
        outcomes.len() < effects.len(),
        forall|i: int| 0 <= i < outcomes.len() ==> (#[trigger] outcomes[i]) is Done,
    ensures
        ({
            let s = after_reports(script_start(effects), outcomes.push(Outcome::Failed(e)));
            &&& s.failure == Some(e)
            &&& s.done == outcomes.len()
            &&& pending_effect(s) is None
        }),
{
    law_effects_run_in_order(effects, outcomes);
    assert(outcomes.push(Outcome::Failed(e)).drop_last() =~= outcomes);
}

} // verus!
