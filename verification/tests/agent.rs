use drop_downloader::digest::checksum_of;
use drop_downloader::download_agent::{
    worker_report, DownloadManagerSignal, GameDownloadAgent, ManifestStep, WorkerReport,
};
use drop_downloader::download_logic::{download_game_chunk, BeginStep, CopyStatus, ResponseStep};
use drop_downloader::download_thread_control_flag::DownloadThreadControlFlag;
use drop_downloader::error::{ApplicationDownloadError, RemoteAccessError, SetupError};
use drop_downloader::manifest::{DropChunk, DropDownloadContext, DropManifest};
use drop_downloader::progress_object::ProgressUpdate;
use drop_downloader::stored_manifest::LedgerRecord;

const MIB: usize = 1024 * 1024;

/// The bytes the test server holds for chunk `index` of file `file`.
fn chunk_bytes(file: usize, index: usize, length: usize) -> Vec<u8> {
    (0..length)
        .map(|i| (i * 31 + index * 7 + file * 13) as u8)
        .collect()
}

fn manifest_of(chunks_per_file: &[usize], length: usize) -> DropManifest {
    let files = chunks_per_file
        .iter()
        .enumerate()
        .map(|(file, &count)| {
            let checksums = (0..count)
                .map(|index| checksum_of(&chunk_bytes(file, index, length)))
                .collect::<Vec<_>>();
            (
                format!("file-{}", file),
                DropChunk {
                    permissions: 0o644,
                    ids: (0..count).map(|i| format!("{}-{}", file, i)).collect(),
                    checksums,
                    lengths: vec![length; count],
                    version_name: "1.0".to_string(),
                },
            )
        })
        .collect();
    DropManifest { files }
}

fn agent_with(manifest: DropManifest, stored: Option<Vec<usize>>) -> GameDownloadAgent {
    let found = stored.map(|completed_contexts| LedgerRecord {
        game_id: "game".to_string(),
        game_version: "1.0".to_string(),
        completed_contexts,
    });
    let mut agent = GameDownloadAgent::new(
        "game".to_string(),
        "1.0".to_string(),
        "/games/game".to_string(),
        found,
    );
    agent.download_manifest(manifest);
    agent
}

fn file_number(context: &DropDownloadContext) -> usize {
    context.file_name["file-".len()..].parse().unwrap()
}

/// What a worker does for one chunk, with the bytes the test server holds.
fn fetch(
    context: &DropDownloadContext,
    flag: DownloadThreadControlFlag,
    buffer: usize,
) -> (Vec<ProgressUpdate>, Result<bool, ApplicationDownloadError>) {
    let mut updates = Vec::new();
    let request = match download_game_chunk(context, flag) {
        BeginStep::Stopped { progress } => return (vec![progress], Ok(false)),
        BeginStep::Send { request } => request,
    };
    let body = chunk_bytes(file_number(context), context.index, context.length);
    let mut pipeline =
        match request.on_response(200, Some(body.len() as u64), String::new(), flag) {
            ResponseStep::Failed(error) => return (updates, Err(error)),
            ResponseStep::Stopped => return (updates, Ok(false)),
            ResponseStep::Copy(pipeline) => pipeline,
        };
    let mut position = 0;
    loop {
        let end = (position + buffer).min(body.len());
        let step = pipeline.copy(&body[position..end], flag);
        position = end;
        updates.push(step.progress);
        match step.status {
            CopyStatus::Continue(next) => pipeline = next,
            CopyStatus::Stopped => return (updates, Ok(false)),
            CopyStatus::Failed(error) => return (updates, Err(error)),
            CopyStatus::Complete(sealed) => return (updates, sealed.finish()),
        }
    }
}

/// What the workers of a run left behind: the chunks they finished and the
/// signals they sent.
struct Reports {
    finished: Vec<usize>,
    sent: Vec<DownloadManagerSignal>,
}

fn collect(results: Vec<(usize, Result<bool, ApplicationDownloadError>)>) -> Reports {
    let mut reports = Reports { finished: Vec::new(), sent: Vec::new() };
    for (index, result) in results {
        match worker_report(index, result) {
            WorkerReport::Completed(index) => reports.finished.push(index),
            WorkerReport::Stopped => {}
            WorkerReport::Forward(signal) => reports.sent.push(signal),
        }
    }
    reports
}

fn is_completed(signal: &Option<DownloadManagerSignal>, id: &str) -> bool {
    matches!(signal, Some(DownloadManagerSignal::Completed(found)) if found == id)
}

#[test]
fn a_new_agent_does_not_run() {
    let agent = GameDownloadAgent::new(
        "game".to_string(),
        "1.0".to_string(),
        "/games/game".to_string(),
        None,
    );
    assert_eq!(agent.control_flag().get(), DownloadThreadControlFlag::Stop);
    assert_eq!(agent.id(), "game");
    assert_eq!(agent.version(), "1.0");
    assert_eq!(agent.install_dir(), "/games/game");
    assert!(agent.contexts().is_empty());
    assert!(agent.completed_contexts().is_empty());
    assert_eq!(agent.progress().get_max(), 0);
}

#[test]
fn manifest_is_fetched_once() {
    let mut agent = GameDownloadAgent::new(
        "game 1".to_string(),
        "1.0 rc".to_string(),
        "/games/game".to_string(),
        None,
    );
    match agent.ensure_manifest_exists() {
        ManifestStep::Fetch { path } => assert_eq!(
            path,
            "/api/v1/client/metadata/manifest?id=game 1&version=1.0%20rc"
        ),
        ManifestStep::Present => panic!("nothing was fetched yet"),
    }
    agent.download_manifest(manifest_of(&[2], 8));
    assert!(matches!(agent.ensure_manifest_exists(), ManifestStep::Present));
    agent.download_manifest(manifest_of(&[5], 8));
    agent.setup_download().unwrap();
    assert_eq!(agent.contexts().len(), 2);
}

#[test]
fn manifest_status() {
    assert!(GameDownloadAgent::manifest_status(200, String::new()).is_ok());
    match GameDownloadAgent::manifest_status(403, "forbidden".to_string()) {
        Err(ApplicationDownloadError::Communication(
            RemoteAccessError::ManifestDownloadFailed(status, body),
        )) => {
            assert_eq!(status, 403);
            assert_eq!(body, "forbidden");
        }
        _ => panic!("403 is a failed manifest download"),
    }
}

#[test]
fn setup_without_a_manifest_fails_and_changes_nothing() {
    let mut agent = GameDownloadAgent::new(
        "game".to_string(),
        "1.0".to_string(),
        "/games/game".to_string(),
        None,
    );
    assert!(matches!(
        agent.setup_download(),
        Err(ApplicationDownloadError::Setup(SetupError::ManifestMissing))
    ));
    assert_eq!(agent.control_flag().get(), DownloadThreadControlFlag::Stop);
    assert!(matches!(
        agent.download(0),
        Err(ApplicationDownloadError::Setup(SetupError::ManifestMissing))
    ));
    assert!(matches!(
        agent.generate_contexts(),
        Err(ApplicationDownloadError::Setup(SetupError::ManifestMissing))
    ));
}

#[test]
fn setup_with_a_bad_manifest_fails() {
    let mut manifest = manifest_of(&[2, 2], 8);
    manifest.files[1].1.checksums.pop();
    let mut agent = agent_with(manifest, None);
    assert!(matches!(
        agent.setup_download(),
        Err(ApplicationDownloadError::Setup(SetupError::ChecksumMissing))
    ));
    assert!(agent.contexts().is_empty());
    assert_eq!(agent.control_flag().get(), DownloadThreadControlFlag::Stop);
}

#[test]
fn setup_passes_over_surplus_checksums() {
    let mut manifest = manifest_of(&[2, 1], 8);
    manifest.files[0].1.checksums.push("spare".to_string());
    let mut agent = agent_with(manifest, Some(vec![2]));
    let files = agent.setup_download().unwrap();
    assert_eq!(files.len(), 2);
    assert_eq!(agent.contexts().len(), 3);
    assert_eq!(agent.completed_contexts(), &vec![2]);
    assert_eq!(agent.control_flag().get(), DownloadThreadControlFlag::Go);
}

#[test]
fn setup_with_too_many_bytes_fails() {
    let mut manifest = manifest_of(&[1, 1], 8);
    manifest.files[0].1.lengths[0] = usize::MAX;
    let mut agent = agent_with(manifest, None);
    assert!(matches!(
        agent.setup_download(),
        Err(ApplicationDownloadError::Setup(SetupError::SizeOverflow))
    ));
    assert!(agent.contexts().is_empty());
}

#[test]
fn setup_arms_the_flag_and_lists_the_files() {
    let mut agent = agent_with(manifest_of(&[2, 3], 100), None);
    let files = agent.setup_download().unwrap();
    assert_eq!(agent.control_flag().get(), DownloadThreadControlFlag::Go);
    assert_eq!(
        files
            .iter()
            .map(|f| (f.path.as_str(), f.size))
            .collect::<Vec<_>>(),
        vec![("file-0", 200), ("file-1", 300)]
    );
    assert_eq!(agent.contexts().len(), 5);
}

#[test]
fn setup_twice_is_setup_once() {
    let mut agent = agent_with(manifest_of(&[2, 3], 100), Some(vec![1, 4]));
    let first = agent.setup_download().unwrap();
    assert_eq!(first.len(), 2);
    let contexts = format!("{:?}", agent.contexts());
    let completed = agent.completed_contexts().clone();
    agent.set_progress_object_params(10);
    agent.report_progress(0, ProgressUpdate::Add(40));

    let second = agent.setup_download().unwrap();
    assert!(second.is_empty());
    assert!(agent.ensure_contexts().unwrap().is_empty());
    agent.set_progress_object_params(99);
    assert_eq!(format!("{:?}", agent.contexts()), contexts);
    assert_eq!(agent.completed_contexts(), &completed);
    assert_eq!(agent.progress().get_max(), 500);
    assert_eq!(agent.progress().get_size(), 5);
    assert_eq!(agent.progress().get_count(0), 40);
    assert_eq!(agent.progress().elapsed(110), 100);
}

#[test]
fn progress_bounds_come_from_the_contexts() {
    let mut agent = agent_with(manifest_of(&[10, 25, 1], 1000), None);
    agent.setup_download().unwrap();
    agent.set_progress_object_params(5);
    assert_eq!(agent.progress().get_max(), 36_000);
    assert_eq!(agent.progress().get_size(), 36);
    assert_eq!(agent.progress().sum(), 0);
}

#[test]
fn ledger_of_another_version_is_ignored() {
    let mut agent = GameDownloadAgent::new(
        "game".to_string(),
        "2.0".to_string(),
        "/games/game".to_string(),
        Some(LedgerRecord {
            game_id: "game".to_string(),
            game_version: "1.0".to_string(),
            completed_contexts: vec![0, 1],
        }),
    );
    agent.download_manifest(manifest_of(&[3], 10));
    let plan = agent.download(0).unwrap();
    assert!(agent.completed_contexts().is_empty());
    assert_eq!(plan.pending, vec![0, 1, 2]);
}

#[test]
fn stale_ledger_entries_are_ignored() {
    let mut agent = agent_with(manifest_of(&[3], 10), Some(vec![0, 3, 17, 0, 2]));
    let plan = agent.download(0).unwrap();
    assert_eq!(agent.completed_contexts(), &vec![0, 2]);
    assert_eq!(plan.pending, vec![1]);
}

#[test]
fn finished_chunks_are_skipped_and_counted() {
    let mut agent = agent_with(manifest_of(&[2, 2], 10), Some(vec![3, 0]));
    let plan = agent.download(0).unwrap();
    assert_eq!(plan.pending, vec![1, 2]);
    assert_eq!(plan.files.len(), 2);
    assert_eq!(agent.progress().get_count(0), 10);
    assert_eq!(agent.progress().get_count(1), 0);
    assert_eq!(agent.progress().get_count(2), 0);
    assert_eq!(agent.progress().get_count(3), 10);
    assert_eq!(agent.progress().get_progress(), (20, 40));
    assert_eq!(agent.pending_chunks(), vec![1, 2]);
}

#[test]
fn worker_reports() {
    assert!(matches!(worker_report(4, Ok(true)), WorkerReport::Completed(4)));
    assert!(matches!(worker_report(4, Ok(false)), WorkerReport::Stopped));
    assert!(matches!(
        worker_report(4, Err(ApplicationDownloadError::Checksum)),
        WorkerReport::Forward(DownloadManagerSignal::Error(ApplicationDownloadError::Checksum))
    ));
}

#[test]
fn a_run_that_finishes_everything_signals_completion() {
    let mut agent = agent_with(manifest_of(&[2], 10), None);
    let plan = agent.download(0).unwrap();
    let outcome = agent.run(&plan.pending);
    assert!(is_completed(&outcome.signal, "game"));
    assert!(outcome.persist.is_none());
}

#[test]
fn a_stopped_run_persists_what_it_finished() {
    let mut agent = agent_with(manifest_of(&[4], 10), Some(vec![2]));
    agent.download(0).unwrap();
    let reports = collect(vec![(0, Ok(true)), (1, Ok(false)), (3, Ok(false))]);
    assert!(reports.sent.is_empty());
    let outcome = agent.run(&reports.finished);
    assert!(outcome.signal.is_none());
    assert_eq!(outcome.persist.unwrap().completed_contexts, vec![2, 0]);
    assert_eq!(agent.completed_contexts(), &vec![2, 0]);
    assert_eq!(agent.pending_chunks(), vec![1, 3]);
}

#[test]
fn every_error_is_forwarded() {
    let mut agent = agent_with(manifest_of(&[3], 10), None);
    agent.download(0).unwrap();
    let reports = collect(vec![
        (0, Err(ApplicationDownloadError::Checksum)),
        (1, Ok(true)),
        (
            2,
            Err(ApplicationDownloadError::IoError(std::io::ErrorKind::PermissionDenied)),
        ),
    ]);
    assert_eq!(reports.sent.len(), 2);
    assert!(matches!(
        reports.sent[0],
        DownloadManagerSignal::Error(ApplicationDownloadError::Checksum)
    ));
    assert!(matches!(
        reports.sent[1],
        DownloadManagerSignal::Error(ApplicationDownloadError::IoError(
            std::io::ErrorKind::PermissionDenied
        ))
    ));
    let outcome = agent.run(&reports.finished);
    assert!(outcome.signal.is_none());
    assert_eq!(outcome.persist.unwrap().completed_contexts, vec![1]);
}

#[test]
fn positions_that_make_no_sense_add_nothing() {
    let mut agent = agent_with(manifest_of(&[2], 10), Some(vec![0]));
    agent.download(0).unwrap();
    let outcome = agent.run(&vec![0, 2, usize::MAX]);
    assert!(outcome.signal.is_none());
    assert_eq!(outcome.persist.unwrap().completed_contexts, vec![0]);
    let outcome = agent.run(&vec![1, 1]);
    assert!(is_completed(&outcome.signal, "game"));
    assert!(outcome.persist.is_none());
    assert_eq!(agent.completed_contexts(), &vec![0, 1]);
}

#[test]
fn an_item_without_chunks_is_complete_at_once() {
    let mut agent = agent_with(manifest_of(&[], 10), None);
    let plan = agent.download(0).unwrap();
    assert!(plan.pending.is_empty());
    let outcome = agent.run(&vec![]);
    assert!(is_completed(&outcome.signal, "game"));
}

#[test]
fn the_flag_can_be_set_from_outside() {
    let mut agent = agent_with(manifest_of(&[1], 10), None);
    agent.setup_download().unwrap();
    agent.set_control_flag(DownloadThreadControlFlag::Stop);
    assert_eq!(agent.control_flag().get(), DownloadThreadControlFlag::Stop);
    let (updates, result) = fetch(&agent.contexts()[0], agent.control_flag().get(), 4);
    assert_eq!(updates, vec![ProgressUpdate::Replace(0)]);
    assert!(matches!(result, Ok(false)));
}

#[test]
fn progress_for_an_unknown_chunk_is_dropped() {
    let mut agent = agent_with(manifest_of(&[1], 10), None);
    agent.download(0).unwrap();
    agent.report_progress(1, ProgressUpdate::Add(5));
    agent.report_progress(0, ProgressUpdate::Add(5));
    assert_eq!(agent.progress().sum(), 5);
}

#[test]
fn resume_fetches_exactly_what_is_missing() {
    let manifest = manifest_of(&[3, 2], 64);

    let mut first = agent_with(manifest.clone(), None);
    let plan = first.download(0).unwrap();
    assert_eq!(plan.pending, vec![0, 1, 2, 3, 4]);
    let mut results = Vec::new();
    for &index in &plan.pending {
        let flag = if index == 1 || index == 4 {
            DownloadThreadControlFlag::Go
        } else {
            DownloadThreadControlFlag::Stop
        };
        let (_, result) = fetch(&first.contexts()[index], flag, 16);
        results.push((index, result));
    }
    let reports = collect(results);
    assert!(reports.sent.is_empty());
    let outcome = first.run(&reports.finished);
    assert!(outcome.signal.is_none());
    let persisted = outcome.persist.unwrap();
    assert_eq!(persisted.game_id, "game");
    assert_eq!(persisted.game_version, "1.0");
    assert_eq!(persisted.completed_contexts, vec![1, 4]);

    let mut second = GameDownloadAgent::new(
        "game".to_string(),
        "1.0".to_string(),
        "/games/game".to_string(),
        Some(persisted),
    );
    second.download_manifest(manifest);
    let plan = second.download(0).unwrap();
    assert_eq!(plan.pending, vec![0, 2, 3]);
    let mut fetched = Vec::new();
    let mut results = Vec::new();
    for &index in &plan.pending {
        let (updates, result) =
            fetch(&second.contexts()[index], second.control_flag().get(), 16);
        for update in updates {
            second.report_progress(index, update);
        }
        assert!(matches!(result, Ok(true)));
        fetched.push(index);
        results.push((index, result));
    }
    let reports = collect(results);
    let outcome = second.run(&reports.finished);
    assert_eq!(fetched, vec![0, 2, 3]);
    assert!(reports.sent.is_empty());
    assert!(is_completed(&outcome.signal, "game"));
    assert!(outcome.persist.is_none());
    assert_eq!(second.completed_contexts().len(), 5);
    assert_eq!(second.progress().get_progress(), (320, 320));
}

#[test]
fn three_files_thirty_six_chunks_four_workers() {
    let mut agent = agent_with(manifest_of(&[10, 25, 1], MIB), None);
    let plan = agent.download(0).unwrap();
    assert_eq!(agent.contexts().len(), 36);
    assert_eq!(plan.pending.len(), 36);
    assert_eq!(
        plan.files.iter().map(|f| f.size).collect::<Vec<_>>(),
        vec![10 * MIB as u64, 25 * MIB as u64, MIB as u64]
    );

    let pool = rayon::ThreadPoolBuilder::new()
        .num_threads(4)
        .build()
        .unwrap();
    let completed_indexes = boxcar::Vec::new();
    let progress = boxcar::Vec::new();
    let (sender, receiver) = std::sync::mpsc::channel();
    let flag = agent.control_flag().get();
    let contexts = agent.contexts();
    pool.scope(|scope| {
        for &index in &plan.pending {
            let completed_indexes = &completed_indexes;
            let progress = &progress;
            let context = &contexts[index];
            let sender = sender.clone();
            scope.spawn(move |_| {
                let (updates, result) = fetch(context, flag, 64 * 1024);
                progress.push((index, updates));
                match worker_report(index, result) {
                    WorkerReport::Completed(index) => {
                        completed_indexes.push(index);
                    }
                    WorkerReport::Stopped => {}
                    WorkerReport::Forward(signal) => sender.send(signal).unwrap(),
                }
            });
        }
    });

    for (index, updates) in progress.into_iter() {
        for update in updates {
            agent.report_progress(index, update);
        }
    }
    let newly_completed: Vec<usize> = completed_indexes.into_iter().collect();
    let outcome = agent.run(&newly_completed);
    if let Some(signal) = outcome.signal {
        sender.send(signal).unwrap();
    }
    drop(sender);
    let signals: Vec<DownloadManagerSignal> = receiver.into_iter().collect();

    assert_eq!(agent.completed_contexts().len(), 36);
    assert_eq!(agent.progress().sum(), agent.progress().get_max());
    assert_eq!(agent.progress().get_max(), 36 * MIB);
    assert_eq!(agent.progress().get_progress(), (36 * MIB, 36 * MIB));
    assert_eq!(signals.len(), 1);
    assert!(matches!(&signals[0], DownloadManagerSignal::Completed(id) if id == "game"));
    assert!(outcome.persist.is_none());
}
