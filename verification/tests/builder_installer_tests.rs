use mckismetlab_launcher_core::assets_installer::needs_download;
use mckismetlab_launcher_core::assets_installer::sha1_exists;
use mckismetlab_launcher_core::assets_installer::validate_installer;
use mckismetlab_launcher_core::assets_installer::verify_response;
use mckismetlab_launcher_core::global_path::get_common_dir_path;
use mckismetlab_launcher_core::global_path::get_instances_dir_path;
use mckismetlab_launcher_core::io::launcher_store::default_launcher_settings;
use mckismetlab_launcher_core::io::launcher_store::default_profile_data;
use mckismetlab_launcher_core::io::launcher_store::LauncherStore;
use mckismetlab_launcher_core::java::get_java_path;
use mckismetlab_launcher_core::java::get_java_versions;
use mckismetlab_launcher_core::java::get_java_versions_dir;
use mckismetlab_launcher_core::json::Json;
use mckismetlab_launcher_core::minecraft::minecraft_assets::assets;
use mckismetlab_launcher_core::minecraft::minecraft_start_parameter::get_minecraft_java_start_parameters;
use mckismetlab_launcher_core::minecraft::minecraft_start_parameter::JavaBuildStartParameters;
use mckismetlab_launcher_core::minecraft::minecraft_start_parameter::RuntimeContext;
use mckismetlab_launcher_core::utils::get_os_type;
use mckismetlab_launcher_core::LauncherError;

fn jstr(s: &str) -> Json {
    Json::Str(s.to_string())
}

fn jint(n: i64) -> Json {
    Json::Int(n)
}

fn jobj(fields: Vec<(&str, Json)>) -> Json {
    Json::Obj(fields.into_iter().map(|(k, v)| (k.to_string(), v)).collect())
}

fn jarr(items: Vec<Json>) -> Json {
    Json::Arr(items)
}

fn test_context(os_type: &str) -> RuntimeContext {
    RuntimeContext {
        os_type: os_type.to_string(),
        arch: "x86_64".to_string(),
        common_dir_path: "/data/common".to_string(),
        game_directory: "/data/instances/main".to_string(),
        assets_root: "/data/common/assets".to_string(),
        java_vm_path: "/usr/lib/jvm/java-17/bin/java".to_string(),
        launcher_name: "mcKismetLab".to_string(),
        launcher_version: "v0.5.0".to_string(),
        player_name: "Yu_Cheng".to_string(),
        auth_uuid: "93ea0589-ec75-4cad-8619-995164382e8d".to_string(),
        auth_access_token: "null_token".to_string(),
        user_type: "mojang".to_string(),
        version_type: "release".to_string(),
        ram_size_max: 4096,
        ram_size_min: 1024,
    }
}

fn artifact(path: &str) -> Json {
    jobj(vec![
        ("path", jstr(path)),
        ("sha1", jstr("0123456789abcdef0123456789abcdef01234567")),
        ("size", jint(42)),
        ("url", jstr("https://libraries.example/a.jar")),
    ])
}

fn three_library_manifest() -> Json {
    jobj(vec![
        (
            "arguments",
            jobj(vec![
                ("game", jarr(vec![jstr("--username"), jstr("${auth_player_name}")])),
                (
                    "jvm",
                    jarr(vec![
                        jstr("-Djava.library.path=${natives_directory}"),
                        jstr("-Dminecraft.launcher.brand=${launcher_name}"),
                        jstr("-Dminecraft.launcher.version=${launcher_version}"),
                        jstr("-cp=${classpath}"),
                    ]),
                ),
            ]),
        ),
        (
            "assetIndex",
            jobj(vec![
                ("id", jstr("1.16")),
                ("sha1", jstr("1111111111111111111111111111111111111111")),
                ("size", jint(100)),
                ("totalSize", jint(1000)),
                ("url", jstr("https://meta.example/index.json")),
            ]),
        ),
        (
            "libraries",
            jarr(vec![
                jobj(vec![("downloads", jobj(vec![("artifact", artifact("a/one.jar"))]))]),
                jobj(vec![("downloads", jobj(vec![("artifact", artifact("b/two.jar"))]))]),
                jobj(vec![("downloads", jobj(vec![("artifact", artifact("c/three.jar"))]))]),
            ]),
        ),
        (
            "downloads",
            jobj(vec![(
                "client",
                jobj(vec![
                    ("sha1", jstr("2222222222222222222222222222222222222222")),
                    ("size", jint(555)),
                    ("url", jstr("https://launcher.example/client.jar")),
                ]),
            )]),
        ),
        ("mainClass", jstr("net.minecraft.client.main.Main")),
    ])
}

fn empty_objects_doc() -> Json {
    jobj(vec![("objects", jobj(vec![]))])
}

#[test]
fn classpath_separator_is_platform_specific() {
    let manifest = three_library_manifest();
    let objects = empty_objects_doc();

    let resolved = assets(&manifest, &objects, "1.16.5", "windows", "/data/common").unwrap();
    let builder = JavaBuildStartParameters {
        minecraft_assets: resolved,
        natives_dir_path: "/data/common/bin/t".to_string(),
    };
    let win = builder.combination_library_path(&test_context("win32"));
    let entries = [
        "/data/common/libraries/a/one.jar",
        "/data/common/libraries/b/two.jar",
        "/data/common/libraries/c/three.jar",
        "/data/common/versions/1.16.5/1.16.5.jar",
    ];
    assert_eq!(win, entries.join(";"));
    assert!(win.contains(';'));
    assert!(!win.contains(':'));

    let resolved_linux = assets(&manifest, &objects, "1.16.5", "linux", "/data/common").unwrap();
    let builder_linux = JavaBuildStartParameters {
        minecraft_assets: resolved_linux,
        natives_dir_path: "/data/common/bin/t".to_string(),
    };
    let lin = builder_linux.combination_library_path(&test_context("linux"));
    assert_eq!(lin, entries.join(":"));
}

#[test]
fn heap_flags_precede_main_class_in_order() {
    let manifest = three_library_manifest();
    let objects = empty_objects_doc();
    let resolved = assets(&manifest, &objects, "1.16.5", "linux", "/data/common").unwrap();
    let ctx = test_context("linux");
    let builder = JavaBuildStartParameters {
        minecraft_assets: resolved,
        natives_dir_path: "/data/common/bin/t".to_string(),
    };
    let params = builder.get_build_113above(&ctx);
    let xmx = params.iter().position(|p| p == "-Xmx4096M").unwrap();
    let xms = params.iter().position(|p| p == "-Xms1024M").unwrap();
    let main = params.iter().position(|p| p == "net.minecraft.client.main.Main").unwrap();
    assert_eq!(xms, xmx + 1);
    assert!(xms < main);
}

#[test]
fn heap_flags_fall_back_when_unset() {
    let manifest = three_library_manifest();
    let objects = empty_objects_doc();
    let resolved = assets(&manifest, &objects, "1.16.5", "linux", "/data/common").unwrap();
    let mut ctx = test_context("linux");
    ctx.ram_size_max = 0;
    ctx.ram_size_min = 0;
    let builder = JavaBuildStartParameters {
        minecraft_assets: resolved,
        natives_dir_path: "/data/common/bin/t".to_string(),
    };
    let params = builder.jvm_parameters(&ctx);
    assert_eq!(params, vec!["-Xmx2048M".to_string(), "-Xms1024M".to_string()]);
}

#[test]
fn built_parameters_hold_no_placeholder() {
    let manifest = three_library_manifest();
    let objects = empty_objects_doc();
    let resolved = assets(&manifest, &objects, "1.16.5", "linux", "/data/common").unwrap();
    let ctx = test_context("linux");
    let start = get_minecraft_java_start_parameters(resolved, &ctx);
    assert!(!start.parameters.is_empty());
    for p in &start.parameters {
        assert!(!p.contains("${"), "unresolved placeholder in {p}");
    }
    assert!(start
        .parameters
        .iter()
        .any(|p| p == &format!("-Djava.library.path={}", start.natives_dir_path)));
    assert!(start.parameters.iter().any(|p| p == "-Dminecraft.launcher.brand=mcKismetLab"));
}

#[test]
fn natives_dir_is_fresh_per_launch() {
    let objects = empty_objects_doc();
    let manifest = three_library_manifest();
    let ctx = test_context("linux");
    let r1 = assets(&manifest, &objects, "1.16.5", "linux", "/data/common").unwrap();
    let r2 = assets(&manifest, &objects, "1.16.5", "linux", "/data/common").unwrap();
    let s1 = get_minecraft_java_start_parameters(r1, &ctx);
    let s2 = get_minecraft_java_start_parameters(r2, &ctx);
    assert!(s1.natives_dir_path.starts_with("/data/common/bin/"));
    assert_eq!(s1.natives_dir_path.chars().count(), "/data/common".len() + 41);
    assert_ne!(s1.natives_dir_path, s2.natives_dir_path);
    assert_eq!(s1.java_vm_path, ctx.java_vm_path);
}

#[test]
fn download_plan_orders_client_assets_libraries() {
    let manifest = three_library_manifest();
    let hash = "bdf48ef6b5d0d23bbb02e17d04865216179f510a";
    let objects = jobj(vec![(
        "objects",
        jobj(vec![("icons/a.png", jobj(vec![("hash", jstr(hash)), ("size", jint(1))]))]),
    )]);
    let resolved = assets(&manifest, &objects, "1.16.5", "linux", "/data/common").unwrap();
    let plan = validate_installer(&resolved);
    assert_eq!(plan.len(), 5);
    assert_eq!(plan[0].file_name, "1.16.5.jar");
    assert_eq!(plan[1].file_name, hash);
    assert_eq!(plan[1].url, format!("https://resources.download.minecraft.net/bd/{}", hash));
    assert_eq!(plan[2].file_name, "one.jar");
    assert_eq!(plan[3].file_name, "two.jar");
    assert_eq!(plan[4].file_name, "three.jar");
}

#[test]
fn sha1_of_known_bytes_matches() {
    let content = b"abc".to_vec();
    assert!(sha1_exists(&content, "a9993e364706816aba3e25717850c26c9cd0d89d"));
    assert!(!sha1_exists(&content, "0000000000000000000000000000000000000000"));
}

#[test]
fn matching_local_file_needs_no_download() {
    let content = b"abc".to_vec();
    assert!(!needs_download(Some(&content), "a9993e364706816aba3e25717850c26c9cd0d89d"));
    assert!(needs_download(Some(&content), "a9993e364706816aba3e25717850c26c9cd0d89e"));
    assert!(needs_download(None, "a9993e364706816aba3e25717850c26c9cd0d89d"));
}

#[test]
fn response_verdicts_cover_error_taxonomy() {
    let body = b"abc".to_vec();
    let good = "a9993e364706816aba3e25717850c26c9cd0d89d";
    assert_eq!(
        verify_response(false, Some(3), &body, good).unwrap_err(),
        LauncherError::NetworkError
    );
    assert_eq!(
        verify_response(true, None, &body, good).unwrap_err(),
        LauncherError::NetworkError
    );
    assert_eq!(
        verify_response(true, Some(3), &body, "1111111111111111111111111111111111111111")
            .unwrap_err(),
        LauncherError::IntegrityError
    );
    assert!(verify_response(true, Some(3), &body, good).is_ok());
}

#[test]
fn os_type_maps_host_tags_to_platform_names() {
    assert_eq!(get_os_type("win32"), "windows");
    assert_eq!(get_os_type("linux"), "linux");
    assert_eq!(get_os_type("darwin"), "osx");
    assert_eq!(get_os_type("sunos"), "unknown");
}

#[test]
fn data_directories_hang_off_the_injected_root() {
    assert_eq!(get_instances_dir_path("/home/u/.mckismetlab"), "/home/u/.mckismetlab/instances");
    assert_eq!(get_common_dir_path("/home/u/.mckismetlab"), "/home/u/.mckismetlab/common");
}

#[test]
fn java_locations_per_platform() {
    assert_eq!(get_java_versions_dir("win32"), Some("C:\\Program Files\\Java".to_string()));
    assert_eq!(
        get_java_versions_dir("darwin"),
        Some("/Library/Java/JavaVirtualMachines".to_string())
    );
    assert_eq!(get_java_versions_dir("linux"), Some("/usr/lib/jvm".to_string()));
    assert_eq!(get_java_versions_dir("beos"), None);

    assert_eq!(
        get_java_path("win32", "jdk-17"),
        "C:\\Program Files\\Java\\jdk-17\\bin\\java.exe"
    );
    assert_eq!(
        get_java_path("darwin", "jdk-17"),
        "/Library/Java/JavaVirtualMachines/jdk-17.jdk/Contents/Home/bin/java"
    );
    assert_eq!(get_java_path("linux", "jdk-17"), "/usr/lib/jvm/jdk-17/bin/java");
}

#[test]
fn java_version_entries_are_filtered_by_prefix() {
    let names = vec![
        "jdk-17".to_string(),
        "jre1.8.0".to_string(),
        "openjdk-11".to_string(),
        "notes.txt".to_string(),
    ];
    assert_eq!(
        get_java_versions(&names),
        vec!["jdk-17".to_string(), "jre1.8.0".to_string()]
    );
}

#[test]
fn profile_defaults_match_a_fresh_store() {
    let p = default_profile_data();
    assert_eq!(p.auth_type, "microsoft");
    assert!(p.remember_status);
    assert_eq!(p.microsoft_auth.access_token, "");
    assert_eq!(p.minecraft_auth.client_token, "");
    assert_eq!(p.user.username, "");
    assert_eq!(p.player.uuid, "");
    assert_eq!(p.date, "");
}

#[test]
fn settings_defaults_match_a_fresh_store() {
    let s = default_launcher_settings();
    assert_eq!(s.language, "zh_TW");
    assert!(s.general.open_game_keep_launcher_state);
    assert!(!s.general.game_start_open_monitor_log);
    assert_eq!(s.java.len(), 4);
    assert_eq!(s.java[0].server_name, "global");
    assert_eq!(s.java[0].ram_size_max, 1024);
    assert_eq!(s.java[0].ram_checked, None);
    assert_eq!(s.java[1].server_name, "mckismetlab-main-server");
    assert_eq!(s.java[1].ram_size_max, 2048);
    assert_eq!(s.java[1].ram_checked, Some(false));
    assert_eq!(s.java[2].server_name, "mckismetlab-deputy-server");
    assert_eq!(s.java[3].server_name, "mckismetlab-test-server");
    assert_eq!(s.display_position, 0);
    assert!(s.launcher_keep_open);
    assert_eq!(s.selected_server_start, "mckismetlab-main-server");
}

#[test]
fn store_binds_documents_to_paths() {
    let store = LauncherStore::assemble(
        "/home/u/store".to_string(),
        default_profile_data(),
        default_launcher_settings(),
    );
    assert_eq!(store.common_dir_path, "/home/u/store");
    assert_eq!(store.profile_data_path, "/home/u/store/profileData.json");
    assert_eq!(store.launcher_settings_path, "/home/u/store/launcherSettings.json");
    assert_eq!(store.profile_data.auth_type, "microsoft");
    assert_eq!(store.launcher_settings.language, "zh_TW");
}
