use arra_export::config::{parse_oracle_url, OracleUrl};
use arra_export::export::{ExportFormat, ExportJob, ExportRequest, JobManager};
use arra_export::oracle_client::RemoteExportJob;

fn request(collection: &str) -> ExportRequest {
    ExportRequest {
        collection: collection.to_string(),
        format: ExportFormat::Json,
        include_graph: true,
    }
}

fn remote(id: &str) -> RemoteExportJob {
    RemoteExportJob {
        job_id: id.to_string(),
        status: Some("completed".to_string()),
        progress: Some(100),
        filename: Some("oracle_documents.json".to_string()),
        created_at: Some("2026-07-16T00:00:00Z".to_string()),
    }
}

fn oracle() -> OracleUrl {
    parse_oracle_url("http://localhost:47778").expect("default URL is valid")
}

fn ids(jobs: &[ExportJob]) -> Vec<String> {
    jobs.iter().map(|job| job.id.clone()).collect()
}

#[test]
fn extension_of_each_format() {
    assert_eq!(ExportFormat::Json.extension(), "json");
    assert_eq!(ExportFormat::Csv.extension(), "csv");
    assert_eq!(ExportFormat::Markdown.extension(), "md");
    assert_eq!(ExportFormat::Jsonl.extension(), "jsonl");
}

#[test]
fn validate_accepts_a_named_collection() {
    assert_eq!(request("oracle_documents").validate(), Ok(()));
}

#[test]
fn validate_refuses_blank_collections() {
    assert_eq!(request("").validate(), Err("collection is required"));
    assert_eq!(request(" \t\n").validate(), Err("collection is required"));
    assert_eq!(request("\u{3000}\u{a0}").validate(), Err("collection is required"));
}

#[test]
fn validate_counts_characters_up_to_two_hundred() {
    assert_eq!(request(&"a".repeat(200)).validate(), Ok(()));
    assert_eq!(
        request(&"a".repeat(201)).validate(),
        Err("collection must be 200 characters or fewer")
    );
    // 150 two-byte characters are 300 bytes but only 150 characters.
    assert_eq!(request(&"\u{e9}".repeat(150)).validate(), Ok(()));
    assert_eq!(request(&"\u{20ac}".repeat(200)).validate(), Ok(()));
    assert_eq!(
        request(&"\u{20ac}".repeat(201)).validate(),
        Err("collection must be 200 characters or fewer")
    );
}

#[test]
fn record_reports_the_oracle_job() {
    let mut jobs = JobManager::new();
    let job = jobs.record(&request("oracle_documents"), remote("job-42"), oracle());
    assert_eq!(job.id, "job-42");
    assert_eq!(job.download_url, "/api/export/job-42/download");
    assert_eq!(job.collection, "oracle_documents");
    assert_eq!(job.format, ExportFormat::Json);
    assert!(job.include_graph);
    assert_eq!(job.status, "completed");
    assert_eq!(job.progress, 100);
    assert_eq!(job.filename.as_deref(), Some("oracle_documents.json"));
    assert_eq!(job.created_at.as_deref(), Some("2026-07-16T00:00:00Z"));
    assert_eq!(jobs.history(), vec![job]);
}

#[test]
fn record_fills_in_status_and_caps_progress() {
    let mut jobs = JobManager::default();
    let mut bare = remote("a");
    bare.status = None;
    bare.progress = None;
    let job = jobs.record(&request("c"), bare, oracle());
    assert_eq!(job.status, "completed");
    assert_eq!(job.progress, 100);

    let mut over = remote("b");
    over.status = Some("running".to_string());
    over.progress = Some(250);
    let job = jobs.record(&request("c"), over, oracle());
    assert_eq!(job.status, "running");
    assert_eq!(job.progress, 100);

    let mut partial = remote("c");
    partial.progress = Some(37);
    assert_eq!(jobs.record(&request("c"), partial, oracle()).progress, 37);
}

#[test]
fn history_is_newest_first_and_replaces_a_repeated_id() {
    let mut jobs = JobManager::new();
    jobs.record(&request("one"), remote("a"), oracle());
    jobs.record(&request("two"), remote("b"), oracle());
    jobs.record(&request("three"), remote("a"), oracle());
    let history = jobs.history();
    assert_eq!(ids(&history), vec!["a", "b"]);
    assert_eq!(history[0].collection, "three");
}

#[test]
fn history_keeps_the_newest_hundred_jobs() {
    let mut jobs = JobManager::new();
    for i in 0..105 {
        jobs.record(&request("c"), remote(&format!("job-{i}")), oracle());
    }
    let history = jobs.history();
    assert_eq!(history.len(), 100);
    assert_eq!(history[0].id, "job-104");
    assert_eq!(history[99].id, "job-5");
}

#[test]
fn get_finds_a_recorded_job() {
    let mut jobs = JobManager::new();
    let job = jobs.record(&request("c"), remote("job-42"), oracle());
    jobs.record(&request("d"), remote("job-43"), oracle());
    let stored = jobs.get("job-42").expect("job is recorded");
    assert_eq!(stored.view, job);
    assert_eq!(stored.remote_job_id, "job-42");
    assert_eq!(stored.oracle_url.as_str(), "http://localhost:47778/");
    assert!(jobs.get("job-44").is_none());
}

#[test]
fn recording_leaves_other_jobs_unchanged() {
    let mut jobs = JobManager::new();
    jobs.record(&request("first"), remote("a"), oracle());
    let before = jobs.get("a").expect("job is recorded");
    jobs.record(&request("second"), remote("b"), oracle());
    assert_eq!(jobs.get("a"), Some(before));
}

#[test]
fn a_full_history_drops_only_its_oldest_job() {
    let mut jobs = JobManager::new();
    for i in 0..100 {
        jobs.record(&request("c"), remote(&format!("job-{i}")), oracle());
    }
    let kept = jobs.get("job-1").expect("job is recorded");
    jobs.record(&request("c"), remote("job-new"), oracle());
    assert!(jobs.get("job-0").is_none());
    assert_eq!(jobs.get("job-1"), Some(kept));
    // Re-recording an id already held evicts nothing.
    jobs.record(&request("d"), remote("job-50"), oracle());
    assert_eq!(jobs.history().len(), 100);
    assert!(jobs.get("job-1").is_some());
}
