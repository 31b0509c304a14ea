use game_master::error::ErrorKind;
use game_master::lifecycle::{InstanceState, StateStore};
use game_master::pipeline::{
    Action, Outcome, Progress, ProvisionRequest, Stage, StartRun, SAVE_DIR, SAVE_PARENT_DIR,
    SERVER_CONFIG_PATH, TEMP_DIR,
};
use game_master::settings::{SaveFileInfo, ServerSettings};

fn settings(name: &str, max_players: i32) -> ServerSettings {
    ServerSettings {
        server_name: name.to_string(),
        server_description: "A 7 Days to Die server".to_string(),
        server_password: "".to_string(),
        language: "English".to_string(),
        server_max_player_count: max_players,
        eac_enabled: false,
        game_difficulty: 1,
        party_shared_kill_range: 100,
        player_killing_mode: 3,
    }
}

fn descriptor(bucket: &str, owner: &str, name: &str) -> SaveFileInfo {
    SaveFileInfo {
        id: 7,
        name: name.to_string(),
        user_id: owner.to_string(),
        bucket_name: bucket.to_string(),
        host: "http://127.0.0.1:9000".to_string(),
        createdAt: "".to_string(),
        updatedAt: "".to_string(),
    }
}

fn next(p: Progress) -> (StartRun, Action) {
    match p {
        Progress::Next(run, action) => (run, action),
        other => panic!("expected another step, got {:?}", other),
    }
}

#[test]
fn end_to_end_start() {
    let mut store = StateStore::new();
    let request = ProvisionRequest { serverconfig_id: 1, save_file_id: 7 };
    let (run, action) = StartRun::begin(&mut store, request).unwrap();
    assert!(matches!(action, Action::FetchSettings { serverconfig_id: 1 }));
    assert_eq!(store.snapshot(), InstanceState::Provisioning);

    let (run, action) =
        next(run.advance(&mut store, Outcome::SettingsFetched(settings("Local Game Host", 8))));
    assert_eq!(run.stage(), Stage::WriteConfig);
    match action {
        Action::WriteConfig { path, text } => {
            assert_eq!(path, SERVER_CONFIG_PATH);
            assert!(text.contains("<property name=\"ServerMaxPlayerCount\" value=\"8\"/>"));
            assert!(text.contains("<property name=\"ServerName\" value=\"Local Game Host\"/>"));
        }
        other => panic!("unexpected action {:?}", other),
    }

    let (run, action) = next(run.advance(&mut store, Outcome::ConfigWritten));
    assert!(matches!(action, Action::FetchDescriptor { save_file_id: 7 }));

    let (run, action) = next(run.advance(
        &mut store,
        Outcome::DescriptorFetched(descriptor("days7server", "42", "save.zip")),
    ));
    let archive = format!("{}/save.zip", TEMP_DIR);
    match action {
        Action::Download { host, bucket, key, path } => {
            assert_eq!(host, "http://127.0.0.1:9000");
            assert_eq!(bucket, "days7server");
            assert_eq!(key, "42/save.zip");
            assert_eq!(path, archive);
        }
        other => panic!("unexpected action {:?}", other),
    }

    let (run, action) = next(run.advance(&mut store, Outcome::Downloaded));
    match action {
        Action::ClearSaveDir { path } => assert_eq!(path, SAVE_DIR),
        other => panic!("unexpected action {:?}", other),
    }

    let (run, action) = next(run.advance(&mut store, Outcome::SaveDirCleared));
    match action {
        Action::Extract { archive_path, dest } => {
            assert_eq!(archive_path, archive);
            assert_eq!(dest, SAVE_PARENT_DIR);
        }
        other => panic!("unexpected action {:?}", other),
    }

    let (run, action) = next(run.advance(&mut store, Outcome::Extracted));
    assert!(matches!(action, Action::Spawn));
    assert_eq!(store.snapshot(), InstanceState::Provisioning);

    match run.advance(&mut store, Outcome::Spawned(4321)) {
        Progress::Started(pid) => assert_eq!(pid, 4321),
        other => panic!("expected a start, got {:?}", other),
    }
    assert_eq!(store.snapshot(), InstanceState::Running { pid: 4321 });
    assert!(game_master::control::status(&store, 5).running);
}

#[test]
fn start_refused_while_active() {
    let mut store = StateStore::new();
    let request = ProvisionRequest { serverconfig_id: 1, save_file_id: 2 };
    let _first = StartRun::begin(&mut store, request).unwrap();
    let e = StartRun::begin(&mut store, request).unwrap_err();
    assert_eq!(e.kind(), ErrorKind::AlreadyRunning);
    assert_eq!(store.snapshot(), InstanceState::Provisioning);
}

/// Runs a start up to the given stage with successful outcomes, then fails it.
fn fail_at(stage: Stage) -> (StateStore, Progress) {
    let mut store = StateStore::new();
    let request = ProvisionRequest { serverconfig_id: 3, save_file_id: 4 };
    let (mut run, _) = StartRun::begin(&mut store, request).unwrap();
    let successes = vec![
        Outcome::SettingsFetched(settings("s", 4)),
        Outcome::ConfigWritten,
        Outcome::DescriptorFetched(descriptor("b", "o", "n.zip")),
        Outcome::Downloaded,
        Outcome::SaveDirCleared,
        Outcome::Extracted,
    ];
    for outcome in successes {
        if run.stage() == stage {
            break;
        }
        run = next(run.advance(&mut store, outcome)).0;
    }
    assert_eq!(run.stage(), stage);
    let p = run.advance(&mut store, Outcome::Failed("boom".to_string()));
    (store, p)
}

#[test]
fn each_failure_aborts_with_its_kind() {
    let cases = [
        (Stage::FetchSettings, ErrorKind::ConfigFetchFailed),
        (Stage::WriteConfig, ErrorKind::ConfigWriteFailed),
        (Stage::FetchDescriptor, ErrorKind::DescriptorFetchFailed),
        (Stage::Download, ErrorKind::DownloadFailed),
        (Stage::ClearSaveDir, ErrorKind::ExtractFailed),
        (Stage::Extract, ErrorKind::ExtractFailed),
        (Stage::Spawn, ErrorKind::SpawnFailed),
    ];
    for (stage, kind) in cases {
        let (mut store, p) = fail_at(stage);
        match p {
            Progress::Failed(e) => {
                assert_eq!(e.kind(), kind);
                assert_eq!(e.message(), "boom");
            }
            other => panic!("expected a failure, got {:?}", other),
        }
        assert_eq!(store.snapshot(), InstanceState::Idle);
        assert!(store.claim().is_ok());
    }
}

#[test]
fn outcome_for_another_step_aborts() {
    let mut store = StateStore::new();
    let request = ProvisionRequest { serverconfig_id: 1, save_file_id: 1 };
    let (run, _) = StartRun::begin(&mut store, request).unwrap();
    match run.advance(&mut store, Outcome::Spawned(5)) {
        Progress::Failed(e) => assert_eq!(e.kind(), ErrorKind::ConfigFetchFailed),
        other => panic!("expected a failure, got {:?}", other),
    }
    assert_eq!(store.snapshot(), InstanceState::Idle);
}
