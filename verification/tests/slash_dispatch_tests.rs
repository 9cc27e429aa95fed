use babelmap::command_status::TranscriptFilter;
use babelmap::map_dump::ExportKind;
use babelmap::slash_dispatch::{slash_step, SlashAction, SlashOutcome, SlashStep};

fn step(o: SlashOutcome) -> SlashStep {
    slash_step(o, false, false, None)
}

#[test]
fn actions_route_to_export_watch_or_apply() {
    assert_eq!(
        step(SlashOutcome::Action(SlashAction::ExportMap(ExportKind::Dot, Some("m.dot".to_string())))),
        SlashStep::ExportMap(ExportKind::Dot, Some("m.dot".to_string()))
    );
    assert_eq!(step(SlashOutcome::Action(SlashAction::ToggleStyleWatch)), SlashStep::ToggleStyleWatch);
    assert_eq!(step(SlashOutcome::Action(SlashAction::Other)), SlashStep::ApplyAction);
}

#[test]
fn messages_and_errors_go_to_the_status_line() {
    assert_eq!(step(SlashOutcome::Message("ok".to_string())), SlashStep::SetStatus("ok".to_string()));
    assert_eq!(step(SlashOutcome::Error("bad".to_string())), SlashStep::SetStatus("bad".to_string()));
}

#[test]
fn reset_from_a_key_opens_the_dialog_typed_acts_now() {
    let reset = || SlashOutcome::Reset { map: true, data: false };
    assert_eq!(slash_step(reset(), true, false, None), SlashStep::OpenResetDialog);
    assert_eq!(slash_step(reset(), false, false, None), SlashStep::ResetGame { map: true, data: false });
}

#[test]
fn quit_asks_first_when_a_save_is_owed() {
    assert_eq!(slash_step(SlashOutcome::Quit, false, true, None), SlashStep::OpenQuitDialog);
    assert_eq!(slash_step(SlashOutcome::Quit, true, false, None), SlashStep::Quit);
}

#[test]
fn search_repeats_the_previous_query() {
    let prev = Some("old".to_string());
    assert_eq!(
        slash_step(SlashOutcome::Search(Some("lamp".to_string())), false, false, prev.clone()),
        SlashStep::Search("lamp".to_string())
    );
    assert_eq!(slash_step(SlashOutcome::Search(None), false, false, prev), SlashStep::Search("old".to_string()));
    assert_eq!(slash_step(SlashOutcome::Search(None), false, false, None), SlashStep::NoPreviousSearch);
}

#[test]
fn the_other_outcomes_map_one_to_one() {
    assert_eq!(step(SlashOutcome::Help), SlashStep::ShowHelp);
    assert_eq!(step(SlashOutcome::PrintColors { actual: true }), SlashStep::ShowColours { styled: true });
    assert_eq!(step(SlashOutcome::PlaySound(None)), SlashStep::ListSounds);
    assert_eq!(step(SlashOutcome::PlaySound(Some(3))), SlashStep::PlaySound(3));
    assert_eq!(step(SlashOutcome::Save(None)), SlashStep::Save(None));
    assert_eq!(step(SlashOutcome::Load(Some("a".to_string()))), SlashStep::Load(Some("a".to_string())));
    assert_eq!(step(SlashOutcome::LoadMap("m.json".to_string())), SlashStep::LoadMap("m.json".to_string()));
    assert_eq!(step(SlashOutcome::Filter(TranscriptFilter::Meta)), SlashStep::SetFilter(TranscriptFilter::Meta));
    assert_eq!(step(SlashOutcome::Export(None)), SlashStep::ExportTranscript(None));
    assert_eq!(step(SlashOutcome::OpenHints), SlashStep::OpenHints);
    assert_eq!(step(SlashOutcome::HelpCommand("save".to_string())), SlashStep::ShowCommandHelp("save".to_string()));
}
