use game_master::error::{AppError, ErrorKind};
use game_master::s3::Config;
use game_master::settings::{GameConfigUtil, SaveFileInfo, ServerSettings};
use game_master::supervisor::{start_game_server, SERVER_DIR};

fn settings() -> ServerSettings {
    ServerSettings {
        server_name: "Local Game Host".to_string(),
        server_description: "A 7 Days to Die server".to_string(),
        server_password: "".to_string(),
        language: "English".to_string(),
        server_max_player_count: 8,
        eac_enabled: false,
        game_difficulty: 1,
        party_shared_kill_range: 100,
        player_killing_mode: 3,
    }
}

#[test]
fn init_test() {
    GameConfigUtil::new();
}

#[test]
fn renders_every_field() {
    let text = GameConfigUtil::new().render(&settings()).unwrap();
    assert!(text.starts_with("<?xml version=\"1.0\"?>"));
    assert!(text.contains("<property name=\"ServerName\" value=\"Local Game Host\"/>"));
    assert!(text.contains("<property name=\"ServerDescription\" value=\"A 7 Days to Die server\"/>"));
    assert!(text.contains("<property name=\"ServerPassword\" value=\"\"/>"));
    assert!(text.contains("<property name=\"Language\" value=\"English\"/>"));
    assert!(text.contains("<property name=\"ServerMaxPlayerCount\" value=\"8\"/>"));
    assert!(text.contains("<property name=\"EACEnabled\" value=\"false\"/>"));
    assert!(text.contains("<property name=\"GameDifficulty\" value=\"1\"/>"));
    assert!(text.contains("<property name=\"PartySharedKillRange\" value=\"100\"/>"));
    assert!(text.contains("<property name=\"PlayerKillingMode\" value=\"3\"/>"));
    assert!(!text.contains("{{"));
}

#[test]
fn rendering_escapes_markup() {
    let mut s = settings();
    s.server_name = "A & B <\"x\">".to_string();
    let text = GameConfigUtil::new().render(&s).unwrap();
    assert!(text.contains("value=\"A &amp; B &lt;&quot;x&quot;&gt;\""));
}

#[test]
fn object_key_is_owner_slash_name() {
    let info = SaveFileInfo {
        id: 1,
        name: "MyGame.zip".to_string(),
        user_id: "000001".to_string(),
        bucket_name: "days7server".to_string(),
        host: "".to_string(),
        createdAt: "".to_string(),
        updatedAt: "".to_string(),
    };
    assert_eq!(info.object_key(), "000001/MyGame.zip");
}

#[test]
fn error_description() {
    let e = AppError::new(ErrorKind::DownloadFailed, "no such key".to_string());
    assert_eq!(e.kind(), ErrorKind::DownloadFailed);
    assert_eq!(e.describe(), "downloading save archive failed: no such key");
    let e = AppError::AlreadyRunning("busy".to_string());
    assert_eq!(e.describe(), "game server is already running: busy");
}

#[test]
fn s3_config_needs_all_variables() {
    let c = Config::from_env(
        Some("us-east-1".to_string()),
        Some("id".to_string()),
        Some("SECRET-REDACTED".to_string()),
        Some("http://127.0.0.1:9000".to_string()),
    )
    .unwrap();
    assert_eq!(c.region, "us-east-1");
    assert_eq!(c.endpoint_url, "http://127.0.0.1:9000");
    assert_eq!(c.endpoint_for(""), "http://127.0.0.1:9000");
    assert_eq!(c.endpoint_for("http://10.0.0.2:9000"), "http://10.0.0.2:9000");
    assert!(Config::from_env(Some("r".to_string()), None, Some("s".to_string()), Some("e".to_string())).is_none());
}

#[test]
fn launch_is_fixed() {
    let launch = start_game_server();
    assert!(launch.program.ends_with("7DaysToDieServer.x86_64"));
    assert_eq!(launch.args[0], "-logfile");
    assert_eq!(launch.args[2..].to_vec(), vec!["-quit", "-batchmode", "-nographics", "-dedicated", "-configfile=serverconfig.xml"]);
    assert_eq!(launch.env, vec![("LD_LIBRARY_PATH".to_string(), SERVER_DIR.to_string())]);
    assert_eq!(launch.working_dir, SERVER_DIR);
}
