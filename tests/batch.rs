use steam_scraper::batch::{
    is_saved, output_file_name, output_path, pending_ids, Batch, BatchReport, Failure, Step,
};
use steam_scraper::error::SteamError;

fn strings(items: &[&str]) -> Vec<String> {
    items.iter().map(|s| s.to_string()).collect()
}

#[test]
fn output_names() {
    assert_eq!(output_file_name("440"), "440.png");
    assert_eq!(output_path("./out", "440"), "./out/440.png");
}

#[test]
fn saved_only_when_the_png_is_present() {
    let existing = strings(&["10.png", "20.jpg", "readme"]);
    assert!(is_saved(&existing, "10"));
    assert!(!is_saved(&existing, "20"));
    assert!(!is_saved(&existing, "1"));
    assert!(!is_saved(&Vec::new(), "10"));
}

#[test]
fn pending_keeps_unsaved_ids_in_order() {
    let ids = strings(&["30", "10", "20", "40"]);
    let existing = strings(&["10.png", "40.png"]);
    assert_eq!(pending_ids(&ids, &existing), strings(&["30", "20"]));
}

#[test]
fn full_resume_downloads_nothing_and_fails_nowhere() {
    let ids = strings(&["10", "20", "30"]);
    let existing = strings(&["10.png", "20.png", "30.png", "other.txt"]);
    let mut batch = Batch::new(&ids, &existing, 4);
    assert_eq!(batch.skipped(), 3);
    assert!(matches!(batch.next_step(), Step::Finished));
    let report = batch.into_report();
    assert_eq!(report.total, 3);
    assert_eq!(report.failures.len(), 0);
    assert_eq!(report.summary(), "");
}

#[test]
fn one_failure_does_not_stop_the_batch() {
    let ids = strings(&["10", "20", "30"]);
    let mut batch = Batch::new(&ids, &Vec::new(), 8);
    let mut written = Vec::new();
    loop {
        match batch.next_step() {
            Step::Start(id) => {
                if id == "20" {
                    batch.record_failure(Failure {
                        game_id: id,
                        game_name: None,
                        error: SteamError::RequestStatusError(404),
                    });
                } else {
                    written.push(output_file_name(&id));
                    batch.record_success();
                }
            }
            Step::Wait => panic!("nothing is running"),
            Step::Finished => break,
        }
    }
    assert_eq!(written, strings(&["10.png", "30.png"]));
    let report = batch.into_report();
    assert_eq!(report.total, 3);
    assert_eq!(report.failures.len(), 1);
    assert_eq!(report.failures[0].game_id, "20");
    assert_eq!(
        report.summary(),
        "Failed to download 1 image\nName: ? AppID: 20 Error: failed with status 404\n"
    );
}

#[test]
fn at_most_limit_downloads_run_at_once() {
    let ids = strings(&["1", "2", "3"]);
    let mut batch = Batch::new(&ids, &Vec::new(), 2);
    assert!(matches!(batch.next_step(), Step::Start(ref id) if id == "1"));
    assert!(matches!(batch.next_step(), Step::Start(ref id) if id == "2"));
    assert!(matches!(batch.next_step(), Step::Wait));
    batch.record_success();
    assert!(matches!(batch.next_step(), Step::Start(ref id) if id == "3"));
    assert!(matches!(batch.next_step(), Step::Wait));
    batch.record_success();
    batch.record_success();
    assert!(matches!(batch.next_step(), Step::Finished));
    assert_eq!(batch.into_report().failures.len(), 0);
}

#[test]
fn summary_counts_and_lists_failures() {
    let report = BatchReport {
        total: 5,
        failures: vec![
            Failure {
                game_id: "20".to_string(),
                game_name: Some("Portal".to_string()),
                error: SteamError::RequestStatusError(404),
            },
            Failure { game_id: "30".to_string(), game_name: None, error: SteamError::ParseError() },
        ],
    };
    assert_eq!(
        report.summary(),
        "Failed to download 2 images\nName: Portal AppID: 20 Error: failed with status 404\nName: ? AppID: 30 Error: response parsing failed\n"
    );
    assert_eq!(report.failures[1].line(), "Name: ? AppID: 30 Error: response parsing failed\n");
}
