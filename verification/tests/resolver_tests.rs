use mckismetlab_launcher_core::json::Json;
use mckismetlab_launcher_core::minecraft::minecraft_assets::assets;
use mckismetlab_launcher_core::minecraft::minecraft_assets::find_version_url;
use mckismetlab_launcher_core::minecraft::minecraft_assets::get_assets_objects;
use mckismetlab_launcher_core::minecraft::minecraft_assets::get_libraries;
use mckismetlab_launcher_core::minecraft::minecraft_assets::get_natives_sys_obj_value;
use mckismetlab_launcher_core::minecraft::minecraft_assets::is_lib_rules;
use mckismetlab_launcher_core::minecraft::minecraft_assets::parse_string_argument;
use mckismetlab_launcher_core::minecraft::minecraft_assets::LibrariesType;
use mckismetlab_launcher_core::LauncherError;

fn jstr(s: &str) -> Json {
    Json::Str(s.to_string())
}

fn jint(n: i64) -> Json {
    Json::Int(n)
}

fn jobj(fields: Vec<(&str, Json)>) -> Json {
    Json::Obj(fields.into_iter().map(|(k, v)| (k.to_string(), v)).collect())
}

fn jarr(items: Vec<Json>) -> Json {
    Json::Arr(items)
}

fn allow_rule(os_name: &str) -> Json {
    jobj(vec![("action", jstr("allow")), ("os", jobj(vec![("name", jstr(os_name))]))])
}

fn artifact(path: &str) -> Json {
    jobj(vec![
        ("path", jstr(path)),
        ("sha1", jstr("0123456789abcdef0123456789abcdef01234567")),
        ("size", jint(42)),
        ("url", jstr("https://libraries.example/a.jar")),
    ])
}

#[test]
fn empty_rule_list_allows() {
    let rules: Vec<Json> = Vec::new();
    assert!(is_lib_rules(Some(&rules), None, "linux"));
    assert!(is_lib_rules(Some(&rules), None, "windows"));
}

#[test]
fn no_rules_no_natives_allows() {
    assert!(is_lib_rules(None, None, "linux"));
}

#[test]
fn natives_only_membership_decides() {
    let natives = jobj(vec![
        ("windows", jstr("natives-windows")),
        ("linux", jstr("natives-linux")),
    ]);
    assert!(is_lib_rules(None, Some(&natives), "linux"));
    assert!(is_lib_rules(None, Some(&natives), "windows"));
    assert!(!is_lib_rules(None, Some(&natives), "osx"));
}

#[test]
fn natives_classifier_lookup() {
    let natives = jobj(vec![
        ("windows", jstr("natives-windows")),
        ("linux", jstr("natives-linux")),
    ]);
    assert_eq!(
        get_natives_sys_obj_value(Some(&natives), "linux"),
        Some("natives-linux".to_string())
    );
    assert_eq!(get_natives_sys_obj_value(Some(&natives), "osx"), None);
}

#[test]
fn allow_linux_rule_first_match_wins() {
    let rules = vec![allow_rule("linux")];
    assert!(is_lib_rules(Some(&rules), None, "linux"));
    assert!(!is_lib_rules(Some(&rules), None, "windows"));
}

#[test]
fn disallow_rule_inverts() {
    let rules = vec![jobj(vec![
        ("action", jstr("disallow")),
        ("os", jobj(vec![("name", jstr("osx"))])),
    ])];
    assert!(is_lib_rules(Some(&rules), None, "linux"));
    assert!(!is_lib_rules(Some(&rules), None, "osx"));
}

#[test]
fn rule_without_os_condition_skipped() {
    let rules = vec![jobj(vec![("action", jstr("allow"))])];
    assert!(is_lib_rules(Some(&rules), None, "windows"));
}

#[test]
fn library_rule_set_included_and_excluded_by_platform() {
    let lib = jobj(vec![
        ("rules", jarr(vec![allow_rule("linux")])),
        ("downloads", jobj(vec![("artifact", artifact("org/example/lib/1.0/lib-1.0.jar"))])),
    ]);
    let libs = vec![lib];

    let on_linux = get_libraries(&libs, "linux", "/data/common").unwrap();
    assert_eq!(on_linux.len(), 1);
    assert_eq!(on_linux[0].lib_type, LibrariesType::Artifact);
    assert_eq!(on_linux[0].file_name, "lib-1.0.jar");
    assert_eq!(on_linux[0].file_path, "/data/common/libraries/org/example/lib/1.0/lib-1.0.jar");

    let on_windows = get_libraries(&libs, "windows", "/data/common").unwrap();
    assert_eq!(on_windows.len(), 0);
}

#[test]
fn natives_descriptor_selects_platform_classifier() {
    let lib = jobj(vec![
        (
            "natives",
            jobj(vec![
                ("windows", jstr("natives-windows")),
                ("linux", jstr("natives-linux")),
            ]),
        ),
        (
            "downloads",
            jobj(vec![(
                "classifiers",
                jobj(vec![
                    ("natives-windows", artifact("org/example/nat/1.0/nat-1.0-windows.jar")),
                    ("natives-linux", artifact("org/example/nat/1.0/nat-1.0-linux.jar")),
                ]),
            )]),
        ),
    ]);
    let libs = vec![lib];
    let resolved = get_libraries(&libs, "linux", "/data/common").unwrap();
    assert_eq!(resolved.len(), 1);
    assert_eq!(resolved[0].lib_type, LibrariesType::Natives);
    assert_eq!(resolved[0].file_name, "nat-1.0-linux.jar");
    assert_eq!(
        resolved[0].file_path,
        "/data/common/libraries/org/example/nat/1.0/nat-1.0-linux.jar"
    );
}

#[test]
fn natives_descriptor_without_platform_excludes_silently() {
    let lib = jobj(vec![
        ("natives", jobj(vec![("windows", jstr("natives-windows"))])),
        (
            "downloads",
            jobj(vec![(
                "classifiers",
                jobj(vec![("natives-windows", artifact("org/example/nat/1.0/n.jar"))]),
            )]),
        ),
    ]);
    let libs = vec![lib];
    let resolved = get_libraries(&libs, "linux", "/data/common").unwrap();
    assert_eq!(resolved.len(), 0);
}

#[test]
fn object_index_entry_resolves_to_shard_path() {
    let hash = "abcd1234abcd1234abcd1234abcd1234abcd1234";
    let doc = jobj(vec![(
        "objects",
        jobj(vec![("foo.txt", jobj(vec![("hash", jstr(hash)), ("size", jint(10))]))]),
    )]);
    let objects = get_assets_objects(&doc, "/data/common").unwrap();
    assert_eq!(objects.len(), 1);
    assert_eq!(objects[0].file_name, hash);
    assert_eq!(objects[0].sha1, hash);
    assert_eq!(objects[0].size, 10);
    assert_eq!(
        objects[0].file_path,
        format!("/data/common/assets/objects/ab/{}", hash)
    );
    assert!(objects[0].download_url.ends_with(&format!("/ab/{}", hash)));
    assert_eq!(
        objects[0].download_url,
        format!("https://resources.download.minecraft.net/ab/{}", hash)
    );
}

#[test]
fn object_index_without_objects_member_is_schema_error() {
    let doc = jobj(vec![("other", jint(1))]);
    assert_eq!(get_assets_objects(&doc, "/c").unwrap_err(), LauncherError::SchemaError);
}

#[test]
fn plain_argument_passes_through_parse() {
    let a = parse_string_argument("--demo").unwrap();
    assert_eq!(a.name, "--demo");
    assert_eq!(a.value, None);
}

#[test]
fn named_argument_splits_name_and_key() {
    let a = parse_string_argument("-Djava.library.path=${natives_directory}").unwrap();
    assert_eq!(a.name, "-Djava.library.path");
    assert_eq!(a.value, Some("natives_directory".to_string()));
}

#[test]
fn placeholder_only_argument_is_dropped() {
    assert!(parse_string_argument("${auth_player_name}").is_none());
    assert!(parse_string_argument("prefix ${x} suffix").is_none());
}

#[test]
fn unclosed_placeholder_is_plain_text() {
    let a = parse_string_argument("a=${b").unwrap();
    assert_eq!(a.name, "a=${b");
    assert_eq!(a.value, None);
}

#[test]
fn find_version_url_finds_and_misses() {
    let catalog = jobj(vec![(
        "versions",
        jarr(vec![
            jobj(vec![("id", jstr("1.16.5")), ("url", jstr("https://meta.example/1.16.5.json"))]),
            jobj(vec![("id", jstr("1.17")), ("url", jstr("https://meta.example/1.17.json"))]),
        ]),
    )]);
    assert_eq!(
        find_version_url(&catalog, "1.16.5").unwrap(),
        "https://meta.example/1.16.5.json"
    );
    assert_eq!(
        find_version_url(&catalog, "1.99").unwrap_err(),
        LauncherError::ManifestNotFound
    );
    let bad = jobj(vec![("versions", jint(3))]);
    assert_eq!(find_version_url(&bad, "1.16.5").unwrap_err(), LauncherError::SchemaError);
}

fn sample_manifest() -> Json {
    jobj(vec![
        (
            "arguments",
            jobj(vec![
                (
                    "game",
                    jarr(vec![
                        jstr("--username"),
                        jstr("${auth_player_name}"),
                        jstr("--demo"),
                        jobj(vec![
                            (
                                "rules",
                                jarr(vec![jobj(vec![
                                    ("action", jstr("allow")),
                                    ("features", jobj(vec![("is_demo_user", Json::Bool(true))])),
                                ])]),
                            ),
                            ("value", jstr("--demoFlag")),
                        ]),
                    ]),
                ),
                (
                    "jvm",
                    jarr(vec![
                        jobj(vec![
                            (
                                "rules",
                                jarr(vec![jobj(vec![
                                    ("action", jstr("allow")),
                                    ("os", jobj(vec![("name", jstr("windows"))])),
                                ])]),
                            ),
                            ("value", jstr("-XX:+UseConcMarkSweepGC")),
                        ]),
                        jstr("-Djava.library.path=${natives_directory}"),
                        jstr("-cp"),
                        jstr("${classpath}"),
                    ]),
                ),
            ]),
        ),
        (
            "assetIndex",
            jobj(vec![
                ("id", jstr("1.16")),
                ("sha1", jstr("1111111111111111111111111111111111111111")),
                ("size", jint(100)),
                ("totalSize", jint(1000)),
                ("url", jstr("https://meta.example/index.json")),
            ]),
        ),
        (
            "libraries",
            jarr(vec![jobj(vec![(
                "downloads",
                jobj(vec![("artifact", artifact("com/example/dep/2.0/dep-2.0.jar"))]),
            )])]),
        ),
        (
            "downloads",
            jobj(vec![(
                "client",
                jobj(vec![
                    ("sha1", jstr("2222222222222222222222222222222222222222")),
                    ("size", jint(555)),
                    ("url", jstr("https://launcher.example/client.jar")),
                ]),
            )]),
        ),
        ("mainClass", jstr("net.minecraft.client.main.Main")),
    ])
}

fn sample_objects_doc() -> Json {
    jobj(vec![(
        "objects",
        jobj(vec![(
            "icons/icon_16x16.png",
            jobj(vec![
                ("hash", jstr("bdf48ef6b5d0d23bbb02e17d04865216179f510a")),
                ("size", jint(3665)),
            ]),
        )]),
    )])
}

#[test]
fn assets_resolves_whole_manifest() {
    let manifest = sample_manifest();
    let objects = sample_objects_doc();
    let resolved = assets(&manifest, &objects, "1.16.5", "linux", "/data/common").unwrap();

    assert_eq!(resolved.main_class, "net.minecraft.client.main.Main");
    assert_eq!(resolved.minecraft_version, "1.16.5");
    assert_eq!(resolved.assets_version, "1.16");

    assert_eq!(resolved.client.file_name, "1.16.5.jar");
    assert_eq!(resolved.client.file_path, "/data/common/versions/1.16.5/1.16.5.jar");
    assert_eq!(resolved.client.sha1, "2222222222222222222222222222222222222222");
    assert_eq!(resolved.client.size, 555);

    assert_eq!(resolved.libraries.len(), 1);
    assert_eq!(resolved.libraries[0].file_name, "dep-2.0.jar");

    assert_eq!(resolved.assets_objects.len(), 1);
    assert_eq!(
        resolved.assets_objects[0].file_path,
        "/data/common/assets/objects/bd/bdf48ef6b5d0d23bbb02e17d04865216179f510a"
    );

    // game: "--username" plain, placeholder-only dropped, "--demo" plain;
    // the conditional group is kept aside.
    assert_eq!(resolved.arguments.game.arguments.len(), 2);
    assert_eq!(resolved.arguments.game.arguments[0].name, "--username");
    assert_eq!(resolved.arguments.game.arguments[1].name, "--demo");
    assert_eq!(resolved.arguments.game.arguments_rules.len(), 1);
    assert_eq!(resolved.arguments.game.arguments_rules[0].rules[0].action, "allow");
    assert_eq!(resolved.arguments.game.arguments_rules[0].value, vec!["--demoFlag".to_string()]);

    // jvm: one conditional group, one named template; "-cp" plain kept,
    // "${classpath}" dropped.
    assert_eq!(resolved.arguments.jvm.arguments_rules.len(), 1);
    assert_eq!(
        resolved.arguments.jvm.arguments_rules[0].rules[0].os.name,
        Some("windows".to_string())
    );
    assert_eq!(resolved.arguments.jvm.arguments.len(), 2);
    assert_eq!(resolved.arguments.jvm.arguments[0].name, "-Djava.library.path");
    assert_eq!(
        resolved.arguments.jvm.arguments[0].value,
        Some("natives_directory".to_string())
    );
    assert_eq!(resolved.arguments.jvm.arguments[1].name, "-cp");
    assert_eq!(resolved.arguments.jvm.arguments[1].value, None);
}

#[test]
fn assets_resolution_is_deterministic() {
    let manifest = sample_manifest();
    let objects = sample_objects_doc();
    let a = assets(&manifest, &objects, "1.16.5", "linux", "/data/common").unwrap();
    let b = assets(&manifest, &objects, "1.16.5", "linux", "/data/common").unwrap();
    assert_eq!(a.main_class, b.main_class);
    assert_eq!(a.client.file_path, b.client.file_path);
    assert_eq!(a.libraries.len(), b.libraries.len());
    assert_eq!(a.libraries[0].file_path, b.libraries[0].file_path);
    assert_eq!(a.assets_objects.len(), b.assets_objects.len());
    assert_eq!(a.assets_objects[0].download_url, b.assets_objects[0].download_url);
    assert_eq!(a.arguments.game.arguments.len(), b.arguments.game.arguments.len());
    assert_eq!(a.arguments.jvm.arguments.len(), b.arguments.jvm.arguments.len());
}

#[test]
fn assets_missing_main_class_is_schema_error() {
    let manifest = sample_manifest();
    let mut fields = match manifest {
        Json::Obj(f) => f,
        _ => unreachable!(),
    };
    fields.retain(|(k, _)| k != "mainClass");
    let broken = Json::Obj(fields);
    let objects = sample_objects_doc();
    assert_eq!(
        assets(&broken, &objects, "1.16.5", "linux", "/c").unwrap_err(),
        LauncherError::SchemaError
    );
}

#[test]
fn duplicate_members_resolve_to_the_first() {
    let natives = Json::Obj(vec![
        ("linux".to_string(), jstr("natives-linux-first")),
        ("linux".to_string(), jstr("natives-linux-second")),
    ]);
    assert_eq!(
        get_natives_sys_obj_value(Some(&natives), "linux"),
        Some("natives-linux-first".to_string())
    );
}

#[test]
fn short_hash_shards_to_itself() {
    let doc = jobj(vec![(
        "objects",
        jobj(vec![("tiny", jobj(vec![("hash", jstr("a")), ("size", jint(1))]))]),
    )]);
    let objects = get_assets_objects(&doc, "/c").unwrap();
    assert_eq!(objects[0].file_path, "/c/assets/objects/a/a");
}

#[test]
fn size_bounds_are_enforced() {
    let make = |size: i64| {
        jobj(vec![(
            "objects",
            jobj(vec![(
                "f",
                jobj(vec![
                    ("hash", jstr("abcd1234abcd1234abcd1234abcd1234abcd1234")),
                    ("size", jint(size)),
                ]),
            )]),
        )])
    };
    assert_eq!(get_assets_objects(&make(2147483647), "/c").unwrap()[0].size, 2147483647);
    assert_eq!(
        get_assets_objects(&make(2147483648), "/c").unwrap_err(),
        LauncherError::SchemaError
    );
}

#[test]
fn assets_malformed_library_size_is_schema_error() {
    let lib = jobj(vec![(
        "downloads",
        jobj(vec![(
            "artifact",
            jobj(vec![
                ("path", jstr("a/b.jar")),
                ("sha1", jstr("x")),
                ("size", jstr("not-a-number")),
                ("url", jstr("u")),
            ]),
        )]),
    )]);
    let libs = vec![lib];
    assert_eq!(
        get_libraries(&libs, "linux", "/c").unwrap_err(),
        LauncherError::SchemaError
    );
}
