use crate::error::AppError;
use vstd::prelude::*;

verus! {

/// The game-server tunables fetched from the config service.
#[derive(Debug)]
pub struct ServerSettings {
    pub server_name: String,
    pub server_description: String,
    pub server_password: String,
    pub language: String,
    pub server_max_player_count: i32,
    pub eac_enabled: bool,
    pub game_difficulty: i32,
    pub party_shared_kill_range: i32,
    pub player_killing_mode: i32,
}

/// The values of a `ServerSettings`.
pub struct SettingsView {
    pub server_name: Seq<char>,
    pub server_description: Seq<char>,
    pub server_password: Seq<char>,
    pub language: Seq<char>,
    pub server_max_player_count: i32,
    pub eac_enabled: bool,
    pub game_difficulty: i32,
    pub party_shared_kill_range: i32,
    pub player_killing_mode: i32,
}

impl View for ServerSettings {
    type V = SettingsView;

    open spec fn view(&self) -> SettingsView {
        SettingsView {
            server_name: self.server_name@,
            server_description: self.server_description@,
            server_password: self.server_password@,
            language: self.language@,
            server_max_player_count: self.server_max_player_count,
            eac_enabled: self.eac_enabled,
            game_difficulty: self.game_difficulty,
            party_shared_kill_range: self.party_shared_kill_range,
            player_killing_mode: self.player_killing_mode,
        }
    }
}

/// The template of the game server's configuration file. Each settings field
/// is bound under its own name.
pub const SERVER_CONFIG_TEMPLATE: &'static str = "<?xml version=\"1.0\"?>
<ServerSettings>
\t<property name=\"ServerName\" value=\"{{ server_name }}\"/>
\t<property name=\"ServerDescription\" value=\"{{ server_description }}\"/>
\t<property name=\"ServerPassword\" value=\"{{ server_password }}\"/>
\t<property name=\"Language\" value=\"{{ language }}\"/>
\t<property name=\"ServerMaxPlayerCount\" value=\"{{ server_max_player_count }}\"/>
\t<property name=\"EACEnabled\" value=\"{{ eac_enabled }}\"/>
\t<property name=\"GameDifficulty\" value=\"{{ game_difficulty }}\"/>
\t<property name=\"PartySharedKillRange\" value=\"{{ party_shared_kill_range }}\"/>
\t<property name=\"PlayerKillingMode\" value=\"{{ player_killing_mode }}\"/>
</ServerSettings>
";

#[verifier::external_type_specification]
#[verifier::external_body]
pub struct ExTeraError(tera::Error);

/// The text tera renders from the server configuration template with each
/// settings field bound under its own name, XML-escaped.
pub uninterp spec fn rendered_config(settings: SettingsView) -> Seq<char>;

/// Relies on tera::Tera::one_off, fed a tera::Context holding one entry per
/// settings field: renders the template with autoescaping on. The template
/// is the fixed one, which parses and uses only variables the context holds,
/// none of tera's functions; so rendering succeeds, and the text depends on
/// the field values alone.
#[verifier::external_body]
fn render_with_settings(template: &str, s: &ServerSettings) -> (r: Result<String, tera::Error>)
    requires
        template@ == SERVER_CONFIG_TEMPLATE@,
    ensures
        r is Ok,
        r is Ok ==> r->Ok_0@ == rendered_config(s@),
{
    let mut c = tera::Context::new();
    c.insert("server_name", &s.server_name);
    c.insert("server_description", &s.server_description);
    c.insert("server_password", &s.server_password);
    c.insert("language", &s.language);
    c.insert("server_max_player_count", &s.server_max_player_count);
    c.insert("eac_enabled", &s.eac_enabled);
    c.insert("game_difficulty", &s.game_difficulty);
    c.insert("party_shared_kill_range", &s.party_shared_kill_range);
    c.insert("player_killing_mode", &s.player_killing_mode);
    tera::Tera::one_off(template, &c, true)
}

/// Renders the game server's configuration file from a settings record.
pub struct GameConfigUtil;

impl GameConfigUtil {
    pub fn new() -> (r: GameConfigUtil) {
        GameConfigUtil
    }

    /// The configuration file's text for `settings`: the fixed template
    /// rendered with the settings' fields.
    pub fn render(&self, settings: &ServerSettings) -> (r: Result<String, AppError>)
        ensures
            r is Ok,
            r is Ok ==> r->Ok_0@ == rendered_config(settings@),
    {
        match render_with_settings(SERVER_CONFIG_TEMPLATE, settings) {
            Ok(text) => Ok(text),
            Err(e) => Err(AppError::ConfigWriteFailed(e.to_string())),
        }
    }
}

/// The descriptor of a save archive held in the object store.
#[allow(non_snake_case)]
#[derive(Debug)]
pub struct SaveFileInfo {
    pub id: i32,
    pub name: String,
    pub user_id: String,
    pub bucket_name: String,
    pub host: String,
    pub createdAt: String,
    pub updatedAt: String,
}

/// The object-store key of a save archive: its owner, a slash, its name.
pub open spec fn object_key(info: &SaveFileInfo) -> Seq<char> {
    info.user_id@ + "/"@ + info.name@
}

impl SaveFileInfo {
    /// The key under which the archive is stored.
    pub fn object_key(&self) -> (r: String)
        ensures
            r@ == object_key(self),
    {
        let mut key = self.user_id.clone();
        key.append("/");
        key.append(self.name.as_str());
        key
    }
}

} // verus!
