use claide::cli::{
    migrate_start, migrate_step, MigrateAction, MigrateEvent, MigratePhase, MigrateSource,
    MigrateState, PromptKind,
};

/// Feeds `events` to a migration and collects its actions.
fn run(mut s: MigrateState, events: Vec<MigrateEvent>) -> (MigrateState, Vec<MigrateAction>) {
    let mut actions = Vec::new();
    for e in events {
        let (next, a) = migrate_step(&s, e);
        s = next;
        actions.push(a);
    }
    (s, actions)
}

fn answer(t: &str) -> MigrateEvent {
    MigrateEvent::Answer(t.to_string())
}

#[test]
fn test_zeroclaw_yes_runs_everything_without_prompts() {
    let s = migrate_start(MigrateSource::ZeroClaw, true, false, false);
    let (end, actions) = run(
        s,
        vec![
            MigrateEvent::Started,
            MigrateEvent::DirDetected { found: true },
            MigrateEvent::ConfigLoaded { ok: true },
            MigrateEvent::Done,
            MigrateEvent::Done,
        ],
    );
    assert_eq!(
        actions,
        vec![
            MigrateAction::DetectDir,
            MigrateAction::LoadConfig,
            MigrateAction::MigrateConfig { save: true },
            MigrateAction::CopyWorkspace { write: true },
            MigrateAction::Report,
        ]
    );
    assert_eq!(end.phase, MigratePhase::Finished);
}

#[test]
fn test_zeroclaw_dry_run_writes_nothing() {
    let s = migrate_start(MigrateSource::ZeroClaw, false, true, true);
    let (_, actions) = run(
        s,
        vec![
            MigrateEvent::Started,
            MigrateEvent::DirChecked { exists: true },
            MigrateEvent::ConfigLoaded { ok: true },
            answer("Y"),
            MigrateEvent::Done,
            answer(""),
            MigrateEvent::Done,
        ],
    );
    assert_eq!(
        actions,
        vec![
            MigrateAction::CheckGivenDir,
            MigrateAction::LoadConfig,
            MigrateAction::Prompt(PromptKind::MigrateConfig),
            MigrateAction::MigrateConfig { save: false },
            MigrateAction::Prompt(PromptKind::CopyWorkspace),
            MigrateAction::CopyWorkspace { write: false },
            MigrateAction::Report,
        ]
    );
}

#[test]
fn test_missing_from_dir_fails() {
    let s = migrate_start(MigrateSource::ZeroClaw, true, false, true);
    let (end, actions) = run(s, vec![MigrateEvent::Started, MigrateEvent::DirChecked { exists: false }]);
    assert_eq!(actions, vec![MigrateAction::CheckGivenDir, MigrateAction::FailMissingDir]);
    assert_eq!(end.phase, MigratePhase::Finished);
    let (_, more) = run(end, vec![MigrateEvent::Done]);
    assert_eq!(more, vec![MigrateAction::Invalid]);
}

#[test]
fn test_not_detected_stops() {
    let s = migrate_start(MigrateSource::ZeroClaw, false, false, false);
    let (_, actions) = run(s, vec![MigrateEvent::Started, MigrateEvent::DirDetected { found: false }]);
    assert_eq!(actions, vec![MigrateAction::DetectDir, MigrateAction::ReportNotDetected]);
}

#[test]
fn test_zeroclaw_load_failure_goes_to_workspace() {
    let s = migrate_start(MigrateSource::ZeroClaw, false, false, false);
    let (_, actions) = run(
        s,
        vec![
            MigrateEvent::Started,
            MigrateEvent::DirDetected { found: true },
            MigrateEvent::ConfigLoaded { ok: false },
            answer("no"),
        ],
    );
    assert_eq!(
        actions,
        vec![
            MigrateAction::DetectDir,
            MigrateAction::LoadConfig,
            MigrateAction::Prompt(PromptKind::CopyWorkspace),
            MigrateAction::Report,
        ]
    );
}

#[test]
fn test_declined_config_is_skipped() {
    let s = migrate_start(MigrateSource::ZeroClaw, false, false, true);
    let (_, actions) = run(
        s,
        vec![
            MigrateEvent::Started,
            MigrateEvent::DirChecked { exists: true },
            MigrateEvent::ConfigLoaded { ok: true },
            answer("n"),
            MigrateEvent::Done,
        ],
    );
    assert_eq!(actions[3], MigrateAction::SkipConfig);
    assert_eq!(actions[4], MigrateAction::Prompt(PromptKind::CopyWorkspace));
}

#[test]
fn test_openclaw_flow_with_skills_and_validation() {
    let s = migrate_start(MigrateSource::OpenClaw, true, false, false);
    let (end, actions) = run(
        s,
        vec![
            MigrateEvent::Started,
            MigrateEvent::DirDetected { found: true },
            MigrateEvent::ConfigLoaded { ok: false },
            MigrateEvent::Summarized { skill_count: 3 },
            MigrateEvent::Done,
            MigrateEvent::Done,
            MigrateEvent::Done,
        ],
    );
    assert_eq!(
        actions,
        vec![
            MigrateAction::DetectDir,
            MigrateAction::LoadConfig,
            MigrateAction::Summarize,
            MigrateAction::MigrateConfig { save: true },
            MigrateAction::CopySkills { write: true },
            MigrateAction::Validate,
            MigrateAction::Report,
        ]
    );
    assert!(end.config_migrated);
}

#[test]
fn test_openclaw_no_skills_and_declined_config() {
    let s = migrate_start(MigrateSource::OpenClaw, false, false, false);
    let (_, actions) = run(
        s,
        vec![
            MigrateEvent::Started,
            MigrateEvent::DirDetected { found: true },
            MigrateEvent::ConfigLoaded { ok: true },
            MigrateEvent::Summarized { skill_count: 0 },
            answer("nope"),
            MigrateEvent::Done,
            MigrateEvent::Done,
        ],
    );
    assert_eq!(
        actions,
        vec![
            MigrateAction::DetectDir,
            MigrateAction::LoadConfig,
            MigrateAction::Summarize,
            MigrateAction::Prompt(PromptKind::MigrateConfig),
            MigrateAction::SkipConfig,
            MigrateAction::NoSkills,
            MigrateAction::Report,
        ]
    );
}

#[test]
fn test_openclaw_dry_run_skips_validation() {
    let s = migrate_start(MigrateSource::OpenClaw, false, true, false);
    let (_, actions) = run(
        s,
        vec![
            MigrateEvent::Started,
            MigrateEvent::DirDetected { found: true },
            MigrateEvent::ConfigLoaded { ok: true },
            MigrateEvent::Summarized { skill_count: 2 },
            answer("yes"),
            MigrateEvent::Done,
            answer("y"),
            MigrateEvent::Done,
        ],
    );
    assert_eq!(
        actions[3..].to_vec(),
        vec![
            MigrateAction::Prompt(PromptKind::MigrateConfig),
            MigrateAction::MigrateConfig { save: false },
            MigrateAction::Prompt(PromptKind::CopySkills),
            MigrateAction::CopySkills { write: false },
            MigrateAction::Report,
        ]
    );
}

#[test]
fn test_yes_ignores_typed_answers() {
    let events = |text: &str| {
        vec![
            MigrateEvent::Started,
            answer(text),
            MigrateEvent::DirDetected { found: true },
            MigrateEvent::ConfigLoaded { ok: true },
            answer(text),
            MigrateEvent::Summarized { skill_count: 0 },
            MigrateEvent::Done,
            MigrateEvent::Done,
        ]
    };
    let s = migrate_start(MigrateSource::OpenClaw, true, true, false);
    let (end1, a1) = run(s, events("y"));
    let (end2, a2) = run(s, events("no"));
    assert_eq!(a1, a2);
    assert_eq!(end1, end2);
    assert_eq!(a1[1], MigrateAction::Invalid);
    assert_eq!(a1[5], MigrateAction::MigrateConfig { save: false });
    assert_eq!(a1[6], MigrateAction::NoSkills);
    assert_eq!(a1[7], MigrateAction::Report);
}
