//! The launcher's persistent profile and settings store: the shape of both
//! documents, their exact default values, and where each lives under the
//! store directory. Reading and writing the files is the caller's job.

use vstd::prelude::*;
use vstd::string::StringExecFns;
use crate::text::concat_strs;

verus! {

/// Tokens of a Microsoft account session.
pub struct MicrosoftAuth {
    pub mc_account_token: String,
    pub access_token: String,
    pub refresh_token: String,
    pub expires_at: String,
}

/// Tokens of a legacy game-account session.
pub struct MinecraftAuth {
    pub access_token: String,
    pub client_token: String,
}

/// The signed-in account.
pub struct User {
    pub username: String,
    pub id: String,
}

/// The selected player profile.
pub struct Player {
    pub name: String,
    pub uuid: String,
}

/// The persisted profile document.
pub struct IProfileData {
    pub microsoft_auth: MicrosoftAuth,
    pub minecraft_auth: MinecraftAuth,
    pub auth_type: String,
    pub user: User,
    pub player: Player,
    pub remember_status: bool,
    pub date: String,
}

/// General launcher switches.
pub struct GeneralSettings {
    pub open_game_keep_launcher_state: bool,
    pub game_start_open_monitor_log: bool,
}

/// Per-server Java settings.
pub struct JavaSettings {
    pub server_name: String,
    pub java_path: String,
    pub ram_size_max: i32,
    pub ram_size_min: i32,
    pub java_parameter: String,
    pub is_built_in_java_vm: bool,
    pub ram_checked: Option<bool>,
    pub java_path_checked: Option<bool>,
    pub java_parameter_checked: Option<bool>,
}

/// The persisted settings document.
pub struct ILauncherSettings {
    pub language: String,
    pub general: GeneralSettings,
    pub java: Vec<JavaSettings>,
    pub display_position: i32,
    pub launcher_keep_open: bool,
    pub selected_server_start: String,
    pub date: String,
}

/// The loaded store: both documents and the paths they came from.
pub struct LauncherStore {
    pub common_dir_path: String,
    pub profile_data_path: String,
    pub launcher_settings_path: String,
    pub profile_data: IProfileData,
    pub launcher_settings: ILauncherSettings,
}

/// The profile document a fresh store starts with: no session, Microsoft
/// sign-in selected, remembering enabled.
pub fn default_profile_data() -> (r: IProfileData)
    ensures
        r.microsoft_auth.mc_account_token@ == Seq::<char>::empty(),
        r.microsoft_auth.access_token@ == Seq::<char>::empty(),
        r.microsoft_auth.refresh_token@ == Seq::<char>::empty(),
        r.microsoft_auth.expires_at@ == Seq::<char>::empty(),
        r.minecraft_auth.access_token@ == Seq::<char>::empty(),
        r.minecraft_auth.client_token@ == Seq::<char>::empty(),
        r.auth_type@ == "microsoft"@,
        r.user.username@ == Seq::<char>::empty(),
        r.user.id@ == Seq::<char>::empty(),
        r.player.name@ == Seq::<char>::empty(),
        r.player.uuid@ == Seq::<char>::empty(),
        r.remember_status == true,
        r.date@ == Seq::<char>::empty(),
{
    IProfileData {
        microsoft_auth: MicrosoftAuth {
            mc_account_token: String::new(),
            access_token: String::new(),
            refresh_token: String::new(),
            expires_at: String::new(),
        },
        minecraft_auth: MinecraftAuth {
            access_token: String::new(),
            client_token: String::new(),
        },
        auth_type: String::from_str("microsoft"),
        user: User { username: String::new(), id: String::new() },
        player: Player { name: String::new(), uuid: String::new() },
        remember_status: true,
        date: String::new(),
    }
}

fn default_server_java_settings(server_name: &str) -> (r: JavaSettings)
    ensures
        r.server_name@ == server_name@,
        r.java_path@ == Seq::<char>::empty(),
        r.ram_size_max == 2048,
        r.ram_size_min == 2048,
        r.java_parameter@ == Seq::<char>::empty(),
        r.is_built_in_java_vm == true,
        r.ram_checked == Some(false),
        r.java_path_checked == Some(false),
        r.java_parameter_checked == Some(false),
{
    JavaSettings {
        server_name: String::from_str(server_name),
        java_path: String::new(),
        ram_size_max: 2048,
        ram_size_min: 2048,
        java_parameter: String::new(),
        is_built_in_java_vm: true,
        ram_checked: Some(false),
        java_path_checked: Some(false),
        java_parameter_checked: Some(false),
    }
}

/// The settings document a fresh store starts with: one global Java entry
/// of 1024 MiB, one 2048 MiB entry per known server, and the main server
/// selected for starting.
pub fn default_launcher_settings() -> (r: ILauncherSettings)
    ensures
        r.language@ == "zh_TW"@,
        r.general.open_game_keep_launcher_state == true,
        r.general.game_start_open_monitor_log == false,
        r.java@.len() == 4,
        r.java@[0].server_name@ == "global"@,
        r.java@[0].java_path@ == Seq::<char>::empty(),
        r.java@[0].ram_size_max == 1024,
        r.java@[0].ram_size_min == 1024,
        r.java@[0].java_parameter@ == Seq::<char>::empty(),
        r.java@[0].is_built_in_java_vm == true,
        r.java@[0].ram_checked is None,
        r.java@[0].java_path_checked is None,
        r.java@[0].java_parameter_checked is None,
        r.java@[1].server_name@ == "mckismetlab-main-server"@,
        r.java@[2].server_name@ == "mckismetlab-deputy-server"@,
        r.java@[3].server_name@ == "mckismetlab-test-server"@,
        forall|k: int|
            1 <= k < 4 ==> {
                &&& (#[trigger] r.java@[k]).ram_size_max == 2048
                &&& r.java@[k].ram_size_min == 2048
                &&& r.java@[k].java_path@ == Seq::<char>::empty()
                &&& r.java@[k].java_parameter@ == Seq::<char>::empty()
                &&& r.java@[k].is_built_in_java_vm == true
                &&& r.java@[k].ram_checked == Some(false)
                &&& r.java@[k].java_path_checked == Some(false)
                &&& r.java@[k].java_parameter_checked == Some(false)
            },
        r.display_position == 0,
        r.launcher_keep_open == true,
        r.selected_server_start@ == "mckismetlab-main-server"@,
        r.date@ == Seq::<char>::empty(),
{
    let mut java: Vec<JavaSettings> = Vec::new();
    java.push(
        JavaSettings {
            server_name: String::from_str("global"),
            java_path: String::new(),
            ram_size_max: 1024,
            ram_size_min: 1024,
            java_parameter: String::new(),
            is_built_in_java_vm: true,
            ram_checked: None,
            java_path_checked: None,
            java_parameter_checked: None,
        },
    );
    java.push(default_server_java_settings("mckismetlab-main-server"));
    java.push(default_server_java_settings("mckismetlab-deputy-server"));
    java.push(default_server_java_settings("mckismetlab-test-server"));
    ILauncherSettings {
        language: String::from_str("zh_TW"),
        general: GeneralSettings {
            open_game_keep_launcher_state: true,
            game_start_open_monitor_log: false,
        },
        java,
        display_position: 0,
        launcher_keep_open: true,
        selected_server_start: String::from_str("mckismetlab-main-server"),
        date: String::new(),
    }
}

impl LauncherStore {
    /// Binds both loaded documents to the store directory they came from:
    /// the profile document lives at `<dir>/profileData.json`, the
    /// settings document at `<dir>/launcherSettings.json`.
    pub fn assemble(
        common_dir_path: String,
        profile_data: IProfileData,
        launcher_settings: ILauncherSettings,
    ) -> (r: LauncherStore)
        ensures
            r.common_dir_path@ == common_dir_path@,
            r.profile_data_path@ == common_dir_path@ + "/profileData.json"@,
            r.launcher_settings_path@ == common_dir_path@ + "/launcherSettings.json"@,
            r.profile_data == profile_data,
            r.launcher_settings == launcher_settings,
    {
        let profile_data_path = concat_strs(common_dir_path.as_str(), "/profileData.json");
        let launcher_settings_path = concat_strs(
            common_dir_path.as_str(),
            "/launcherSettings.json",
        );
        LauncherStore {
            common_dir_path,
            profile_data_path,
            launcher_settings_path,
            profile_data,
            launcher_settings,
        }
    }
}

} // verus!
