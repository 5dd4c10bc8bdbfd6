use name_sanitizer::config::RunConfig;
use name_sanitizer::driver::{Action, Channel, Event, Phase, RenamePass, Step, UnexpectedEvent};
use name_sanitizer::logging::Level;

fn new_pass(folder: &str, ext: &str) -> RenamePass {
    let mut config = RunConfig::new(folder.to_string());
    config.ext = ext.to_string();
    RenamePass::new(&config)
}

fn pass_for(folder: &str, ext: &str) -> RenamePass {
    let mut pass = new_pass(folder, ext);
    let step = pass.step(Event::LoggerReady { failure: None }).unwrap();
    assert!(matches!(step.action, Action::CheckFolder));
    pass
}

fn listing(folder: &str, ext: &str) -> RenamePass {
    let mut pass = pass_for(folder, ext);
    let step = pass.step(Event::FolderChecked { exists: true }).unwrap();
    assert!(matches!(step.action, Action::NextEntry));
    pass
}

fn found(name: &str) -> Event {
    Event::EntryFound { file_name: name.to_string(), path: format!("docs/{}", name) }
}

fn logs_of(step: &Step) -> Vec<(Level, String)> {
    step.logs.iter().map(|r| (r.level, r.message.clone())).collect()
}

fn rename_of(step: &Step) -> (String, String) {
    match &step.action {
        Action::Rename { from, to } => (from.clone(), to.clone()),
        other => panic!("no rename but {:?}", other),
    }
}

#[test]
fn a_new_pass_has_done_nothing() {
    let pass = new_pass("docs", "pdf");
    assert_eq!(pass.phase(), Phase::Starting);
    assert_eq!(pass.matched(), 0);
}

#[test]
fn with_the_logger_set_up_the_folder_is_looked_for() {
    let mut pass = new_pass("docs", "pdf");
    let step = pass.step(Event::LoggerReady { failure: None }).unwrap();
    assert!(logs_of(&step).is_empty());
    assert!(matches!(step.action, Action::CheckFolder));
    assert_eq!(pass.phase(), Phase::Unchecked);
}

#[test]
fn without_a_logger_the_pass_ends_before_any_entry() {
    let mut pass = new_pass("docs", "pdf");
    let step =
        pass.step(Event::LoggerReady { failure: Some("logs.log: read-only".to_string()) }).unwrap();
    assert!(logs_of(&step).is_empty());
    match &step.action {
        Action::Abort { text } => {
            assert_eq!(text, "Failed to initialize logger: logs.log: read-only")
        }
        other => panic!("no abort but {:?}", other),
    }
    assert_eq!(pass.phase(), Phase::Finished);
    assert_eq!(
        pass.step(Event::FolderChecked { exists: true }).unwrap_err(),
        UnexpectedEvent { phase: Phase::Finished }
    );
    assert_eq!(pass.step(found("a.pdf")).unwrap_err(), UnexpectedEvent { phase: Phase::Finished });
}

#[test]
fn a_folder_that_is_there_is_listed_at_once() {
    let mut pass = pass_for("docs", "pdf");
    let step = pass.step(Event::FolderChecked { exists: true }).unwrap();
    assert!(logs_of(&step).is_empty());
    assert!(matches!(step.action, Action::NextEntry));
    assert_eq!(pass.phase(), Phase::Listing);
}

#[test]
fn a_missing_folder_is_reported_and_listed_all_the_same() {
    let mut pass = pass_for("no/such/folder", "pdf");
    let step = pass.step(Event::FolderChecked { exists: false }).unwrap();
    assert_eq!(
        logs_of(&step),
        vec![(Level::Error, "Folder no/such/folder does not exist".to_string())]
    );
    match &step.action {
        Action::Prompt { channel, text } => {
            assert_eq!(*channel, Channel::Stderr);
            assert_eq!(text, "Press enter to exit");
        }
        other => panic!("no prompt but {:?}", other),
    }
    assert_eq!(pass.phase(), Phase::AwaitingKey);

    let step = pass.step(Event::KeyRead { failure: None }).unwrap();
    assert!(logs_of(&step).is_empty());
    assert!(matches!(step.action, Action::NextEntry));
    assert_eq!(pass.phase(), Phase::Listing);
}

#[test]
fn a_key_press_that_cannot_be_read_before_the_listing_is_reported() {
    let mut pass = pass_for("gone", "pdf");
    pass.step(Event::FolderChecked { exists: false }).unwrap();
    let step = pass.step(Event::KeyRead { failure: Some("closed".to_string()) }).unwrap();
    assert_eq!(
        logs_of(&step),
        vec![(Level::Error, "Error reading from argument: closed".to_string())]
    );
    assert!(matches!(step.action, Action::NextEntry));
}

#[test]
fn a_matching_entry_is_renamed_to_its_sanitized_name() {
    let mut pass = listing("docs", "pdf");
    let step = pass.step(found("report (final).pdf")).unwrap();
    assert!(logs_of(&step).is_empty());
    assert_eq!(
        rename_of(&step),
        ("report (final).pdf".to_string(), "reportfinalpdf".to_string())
    );
    assert_eq!(pass.phase(), Phase::Renaming);
    assert_eq!(pass.matched(), 1);

    let step =
        pass.step(Event::Renamed { new_path: "docs/reportfinalpdf".to_string() }).unwrap();
    assert_eq!(
        logs_of(&step),
        vec![
            (Level::Info, "Renamed report (final).pdf to reportfinalpdf".to_string()),
            (Level::Info, "Renamed docs/report (final).pdf to docs/reportfinalpdf".to_string()),
        ]
    );
    assert!(matches!(step.action, Action::NextEntry));
    assert_eq!(pass.phase(), Phase::Listing);
}

#[test]
fn an_entry_with_another_extension_is_passed_over_in_silence() {
    let mut pass = listing("docs", "pdf");
    let step = pass.step(found("a.txt")).unwrap();
    assert!(logs_of(&step).is_empty());
    assert!(matches!(step.action, Action::NextEntry));
    assert_eq!(pass.phase(), Phase::Listing);
    assert_eq!(pass.matched(), 0);
}

#[test]
fn only_the_exact_extension_is_chosen() {
    let mut pass = listing("docs", "pdf");
    for name in ["a.PDF", "a.pdfx", "a", "pdf", ".pdf", "a.pdf.bak", "a.pd f", "a.pdf."] {
        let step = pass.step(found(name)).unwrap();
        assert!(logs_of(&step).is_empty(), "for {:?}", name);
        assert!(matches!(step.action, Action::NextEntry), "for {:?}", name);
    }
    assert_eq!(pass.matched(), 0);
    let step = pass.step(found("a.b.pdf")).unwrap();
    assert_eq!(rename_of(&step), ("a.b.pdf".to_string(), "abpdf".to_string()));
    assert_eq!(pass.matched(), 1);
}

#[test]
fn the_extension_of_the_run_decides() {
    let mut pass = listing("docs", "txt");
    let step = pass.step(found("a.pdf")).unwrap();
    assert!(matches!(step.action, Action::NextEntry));
    let step = pass.step(found("a b.txt")).unwrap();
    assert_eq!(rename_of(&step), ("a b.txt".to_string(), "abtxt".to_string()));
}

#[test]
fn the_second_of_two_names_that_meet_fails_with_a_warning() {
    let mut pass = listing("docs", "pdf");
    let step = pass.step(found("a!.pdf")).unwrap();
    assert_eq!(rename_of(&step), ("a!.pdf".to_string(), "apdf".to_string()));
    let step = pass.step(Event::Renamed { new_path: "docs/apdf".to_string() }).unwrap();
    assert_eq!(logs_of(&step)[0], (Level::Info, "Renamed a!.pdf to apdf".to_string()));

    let step = pass.step(found("a?.pdf")).unwrap();
    assert_eq!(rename_of(&step), ("a?.pdf".to_string(), "apdf".to_string()));
    let step = pass.step(Event::RenameFailed { error: "File exists".to_string() }).unwrap();
    assert_eq!(
        logs_of(&step),
        vec![(Level::Warn, "Failed to rename docs/a?.pdf: File exists".to_string())]
    );
    assert!(matches!(step.action, Action::NextEntry));
    assert_eq!(pass.phase(), Phase::Listing);
    assert_eq!(pass.matched(), 2);
}

#[test]
fn an_entry_that_cannot_be_read_is_reported_and_skipped() {
    let mut pass = listing("docs", "pdf");
    let step = pass.step(Event::EntryFailed { error: "permission denied".to_string() }).unwrap();
    assert_eq!(
        logs_of(&step),
        vec![(Level::Error, "Failed to read entry: permission denied".to_string())]
    );
    assert!(matches!(step.action, Action::NextEntry));
    assert_eq!(pass.phase(), Phase::Listing);
    assert_eq!(pass.matched(), 0);
}

#[test]
fn every_tenth_chosen_entry_is_followed_by_a_marker() {
    let mut pass = listing("docs", "pdf");
    let mut markers = Vec::new();
    for i in 1..=35u64 {
        // two entries between the chosen ones are passed over
        pass.step(found(&format!("note{}.txt", i))).unwrap();
        pass.step(found("folder")).unwrap();
        let name = format!("file {}.pdf", i);
        let step = pass.step(found(&name)).unwrap();
        let (_, to) = rename_of(&step);
        assert_eq!(to, format!("file{}pdf", i));
        let step = pass.step(Event::Renamed { new_path: format!("docs/{}", to) }).unwrap();
        let logs = logs_of(&step);
        if i % 10 == 0 {
            assert_eq!(logs.len(), 3);
            assert_eq!(logs[2].0, Level::Trace);
            markers.push(logs[2].1.clone());
        } else {
            assert_eq!(logs.len(), 2);
        }
        assert!(logs[..2].iter().all(|(level, _)| *level == Level::Info));
    }
    assert_eq!(markers, vec!["Processed 10 files", "Processed 20 files", "Processed 30 files"]);
    assert_eq!(pass.matched(), 35);
}

#[test]
fn a_refused_rename_counts_but_brings_no_marker() {
    let mut pass = listing("docs", "pdf");
    for i in 1..=9 {
        pass.step(found(&format!("{}.pdf", i))).unwrap();
        pass.step(Event::Renamed { new_path: format!("docs/{}pdf", i) }).unwrap();
    }
    pass.step(found("10.pdf")).unwrap();
    let step = pass.step(Event::RenameFailed { error: "denied".to_string() }).unwrap();
    assert_eq!(logs_of(&step), vec![(Level::Warn, "Failed to rename docs/10.pdf: denied".to_string())]);
    assert_eq!(pass.matched(), 10);
    pass.step(found("11.pdf")).unwrap();
    let step = pass.step(Event::Renamed { new_path: "docs/11pdf".to_string() }).unwrap();
    assert_eq!(logs_of(&step).len(), 2);
}

#[test]
fn the_end_of_the_listing_is_reported_and_a_key_press_awaited() {
    let mut pass = listing("docs", "pdf");
    let step = pass.step(Event::ListingEnded).unwrap();
    assert_eq!(logs_of(&step), vec![(Level::Info, "Process finished.".to_string())]);
    match &step.action {
        Action::Prompt { channel, text } => {
            assert_eq!(*channel, Channel::Stdout);
            assert_eq!(text, "Press enter to exit");
        }
        other => panic!("no prompt but {:?}", other),
    }
    assert_eq!(pass.phase(), Phase::Closing);

    let step = pass.step(Event::KeyRead { failure: None }).unwrap();
    assert!(logs_of(&step).is_empty());
    assert!(matches!(step.action, Action::Exit));
    assert_eq!(pass.phase(), Phase::Finished);
}

#[test]
fn a_key_press_that_cannot_be_read_at_the_end_is_reported() {
    let mut pass = listing("docs", "pdf");
    pass.step(Event::ListingEnded).unwrap();
    let step = pass.step(Event::KeyRead { failure: Some("broken pipe".to_string()) }).unwrap();
    assert_eq!(
        logs_of(&step),
        vec![(Level::Error, "Error reading from stdin: broken pipe".to_string())]
    );
    assert!(matches!(step.action, Action::Exit));
}

#[test]
fn an_event_out_of_turn_is_refused_and_changes_nothing() {
    let mut pass = new_pass("docs", "pdf");
    let refused = pass.step(Event::FolderChecked { exists: true }).unwrap_err();
    assert_eq!(refused, UnexpectedEvent { phase: Phase::Starting });
    assert_eq!(pass.phase(), Phase::Starting);

    let mut pass = pass_for("docs", "pdf");
    let refused = pass.step(found("a.pdf")).unwrap_err();
    assert_eq!(refused, UnexpectedEvent { phase: Phase::Unchecked });
    assert_eq!(pass.phase(), Phase::Unchecked);
    assert_eq!(pass.matched(), 0);

    let mut pass = listing("docs", "pdf");
    for event in [
        Event::LoggerReady { failure: None },
        Event::FolderChecked { exists: true },
        Event::KeyRead { failure: None },
        Event::Renamed { new_path: "docs/x".to_string() },
        Event::RenameFailed { error: "e".to_string() },
    ] {
        assert_eq!(pass.step(event).unwrap_err(), UnexpectedEvent { phase: Phase::Listing });
        assert_eq!(pass.phase(), Phase::Listing);
    }

    pass.step(found("a b.pdf")).unwrap();
    for event in [found("c.pdf"), Event::ListingEnded, Event::EntryFailed { error: "e".to_string() }] {
        assert_eq!(pass.step(event).unwrap_err(), UnexpectedEvent { phase: Phase::Renaming });
        assert_eq!(pass.phase(), Phase::Renaming);
        assert_eq!(pass.matched(), 1);
    }
    let step = pass.step(Event::Renamed { new_path: "docs/abpdf".to_string() }).unwrap();
    assert_eq!(logs_of(&step)[0].1, "Renamed a b.pdf to abpdf");
}

#[test]
fn a_finished_pass_takes_no_event() {
    let mut pass = listing("docs", "pdf");
    pass.step(Event::ListingEnded).unwrap();
    pass.step(Event::KeyRead { failure: None }).unwrap();
    for event in [
        Event::FolderChecked { exists: true },
        Event::KeyRead { failure: None },
        found("a.pdf"),
        Event::ListingEnded,
    ] {
        assert_eq!(pass.step(event).unwrap_err(), UnexpectedEvent { phase: Phase::Finished });
    }
}
