//! What the run loop does with the outcome of a slash command (typed, or
//! reached through a key binding): one step, which the loop then performs.

use vstd::prelude::*;
use crate::command_status::TranscriptFilter;
use crate::map_dump::ExportKind;

verus! {

/// The app action a slash command resolved to, as far as the dispatch tells
/// them apart.
#[derive(Debug, Clone, PartialEq, Eq)]
pub enum SlashAction {
    /// Export the map as SVG, DOT or a text dump, to the named file or the
    /// default one.
    ExportMap(ExportKind, Option<String>),
    /// Turn the style file watcher on or off.
    ToggleStyleWatch,
    /// Any other action: applied to the app state as it is.
    Other,
}

/// The outcome of a parsed slash command.
#[derive(Debug, Clone, PartialEq, Eq)]
pub enum SlashOutcome {
    Action(SlashAction),
    Message(String),
    Error(String),
    Help,
    PrintColors { actual: bool },
    PlaySound(Option<u32>),
    Save(Option<String>),
    Load(Option<String>),
    LoadMap(String),
    Reset { map: bool, data: bool },
    Quit,
    Search(Option<String>),
    Filter(TranscriptFilter),
    Export(Option<String>),
    OpenHints,
    HelpCommand(String),
}

/// The step the run loop takes for a slash outcome.
#[derive(Debug, Clone, PartialEq, Eq)]
pub enum SlashStep {
    ExportMap(ExportKind, Option<String>),
    ToggleStyleWatch,
    ApplyAction,
    /// Show the text on the status line.
    SetStatus(String),
    ShowHelp,
    /// List the colour scheme, each line in its own style when `styled`.
    ShowColours { styled: bool },
    ListSounds,
    PlaySound(u32),
    /// Save to the named slot, or to the default archive.
    Save(Option<String>),
    /// Load the named save, or the default archive.
    Load(Option<String>),
    LoadMap(String),
    /// Open the reset dialog, whose checkboxes choose what goes.
    OpenResetDialog,
    /// Restart the game now, clearing the map and deleting data as asked.
    ResetGame { map: bool, data: bool },
    /// Ask whether to save before quitting.
    OpenQuitDialog,
    /// Leave the run loop.
    Quit,
    Search(String),
    /// A repeated search with nothing searched before.
    NoPreviousSearch,
    SetFilter(TranscriptFilter),
    ExportTranscript(Option<String>),
    OpenHints,
    ShowCommandHelp(String),
}

/// The step for a slash outcome. A reset reached by a key opens the dialog;
/// typed, it acts at once. Quitting asks first when a save is owed (see
/// `should_prompt_save_on_quit`). A search without a query repeats the
/// previous one.
pub open spec fn slash_step_spec(
    outcome: SlashOutcome,
    from_key: bool,
    prompt_before_quit: bool,
    previous_query: Option<String>,
) -> SlashStep {
    match outcome {
        SlashOutcome::Action(SlashAction::ExportMap(k, dest)) => SlashStep::ExportMap(k, dest),
        SlashOutcome::Action(SlashAction::ToggleStyleWatch) => SlashStep::ToggleStyleWatch,
        SlashOutcome::Action(SlashAction::Other) => SlashStep::ApplyAction,
        SlashOutcome::Message(m) => SlashStep::SetStatus(m),
        SlashOutcome::Error(m) => SlashStep::SetStatus(m),
        SlashOutcome::Help => SlashStep::ShowHelp,
        SlashOutcome::PrintColors { actual } => SlashStep::ShowColours { styled: actual },
        SlashOutcome::PlaySound(None) => SlashStep::ListSounds,
        SlashOutcome::PlaySound(Some(n)) => SlashStep::PlaySound(n),
        SlashOutcome::Save(name) => SlashStep::Save(name),
        SlashOutcome::Load(name) => SlashStep::Load(name),
        SlashOutcome::LoadMap(path) => SlashStep::LoadMap(path),
        SlashOutcome::Reset { map, data } => if from_key {
            SlashStep::OpenResetDialog
        } else {
            SlashStep::ResetGame { map, data }
        },
        SlashOutcome::Quit => if prompt_before_quit {
            SlashStep::OpenQuitDialog
        } else {
            SlashStep::Quit
        },
        SlashOutcome::Search(q) => match q {
            Some(q) => SlashStep::Search(q),
            None => match previous_query {
                Some(p) => SlashStep::Search(p),
                None => SlashStep::NoPreviousSearch,
            },
        },
        SlashOutcome::Filter(f) => SlashStep::SetFilter(f),
        SlashOutcome::Export(dest) => SlashStep::ExportTranscript(dest),
        SlashOutcome::OpenHints => SlashStep::OpenHints,
        SlashOutcome::HelpCommand(name) => SlashStep::ShowCommandHelp(name),
    }
}

/// Decide what the run loop does with a slash outcome. `prompt_before_quit`
/// is whether quitting must first offer a save.
pub fn slash_step(
    outcome: SlashOutcome,
    from_key: bool,
    prompt_before_quit: bool,
    previous_query: Option<String>,
) -> (s: SlashStep)
    ensures
        s == slash_step_spec(outcome, from_key, prompt_before_quit, previous_query),
{
    match outcome {
        SlashOutcome::Action(SlashAction::ExportMap(k, dest)) => SlashStep::ExportMap(k, dest),
        SlashOutcome::Action(SlashAction::ToggleStyleWatch) => SlashStep::ToggleStyleWatch,
        SlashOutcome::Action(SlashAction::Other) => SlashStep::ApplyAction,
        SlashOutcome::Message(m) => SlashStep::SetStatus(m),
        SlashOutcome::Error(m) => SlashStep::SetStatus(m),
        SlashOutcome::Help => SlashStep::ShowHelp,
        SlashOutcome::PrintColors { actual } => SlashStep::ShowColours { styled: actual },
        SlashOutcome::PlaySound(None) => SlashStep::ListSounds,
        SlashOutcome::PlaySound(Some(n)) => SlashStep::PlaySound(n),
        SlashOutcome::Save(name) => SlashStep::Save(name),
        SlashOutcome::Load(name) => SlashStep::Load(name),
        SlashOutcome::LoadMap(path) => SlashStep::LoadMap(path),
        SlashOutcome::Reset { map, data } => if from_key {
            SlashStep::OpenResetDialog
        } else {
            SlashStep::ResetGame { map, data }
        },
        SlashOutcome::Quit => if prompt_before_quit {
            SlashStep::OpenQuitDialog
        } else {
            SlashStep::Quit
        },
        SlashOutcome::Search(q) => match q {
            Some(q) => SlashStep::Search(q),
            None => match previous_query {
                Some(p) => SlashStep::Search(p),
                None => SlashStep::NoPreviousSearch,
            },
        },
        SlashOutcome::Filter(f) => SlashStep::SetFilter(f),
        SlashOutcome::Export(dest) => SlashStep::ExportTranscript(dest),
        SlashOutcome::OpenHints => SlashStep::OpenHints,
        SlashOutcome::HelpCommand(name) => SlashStep::ShowCommandHelp(name),
    }
}

} // verus!
