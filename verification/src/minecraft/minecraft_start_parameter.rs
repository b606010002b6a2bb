//! Builds the argument vector that starts the client: conditional JVM
//! groups, named template substitution, heap sizing, the main class and the
//! game arguments, in that fixed order.

use vstd::prelude::*;
use crate::minecraft::minecraft_assets::ArgumentGameV;
use crate::minecraft::minecraft_assets::ArgumentJvmV;
use crate::minecraft::minecraft_assets::ArgumentV;
use crate::minecraft::minecraft_assets::ArgumentsJvmRules;
use crate::minecraft::minecraft_assets::ArgumentsJvmRulesV;
use crate::minecraft::minecraft_assets::ArgumentsJvmRulesValues;
use crate::minecraft::minecraft_assets::ArgumentsJvmRulesValuesV;
use crate::minecraft::minecraft_assets::ClientV;
use crate::minecraft::minecraft_assets::Libraries;
use crate::minecraft::minecraft_assets::LibrariesType;
use crate::minecraft::minecraft_assets::LibrariesV;
use crate::minecraft::minecraft_assets::MinecraftAssets;
use crate::minecraft::minecraft_assets::MinecraftAssetsV;
use crate::text::concat_strs;
use crate::text::contains_placeholder;
use crate::text::dec_digits;
use crate::text::has_dollar_brace;
use crate::text::join_spec;
use crate::text::join_strings;
use crate::text::lemma_concat_no_dollar_brace;
use crate::text::lemma_dec_digits_are_digits;
use crate::text::lemma_no_dollar_brace_no_placeholder;
use crate::text::str_eq;
use crate::text::u32_to_string;
use crate::utils::get_os_type;
use crate::utils::platform_name_spec;
use vstd::string::StringExecFns;

verus! {

/// What one launch injects into the builder: identity strings, paths,
/// memory sizing and the host tags. Nothing here is derived from the
/// manifest.
pub struct RuntimeContext {
    pub os_type: String,
    pub arch: String,
    pub common_dir_path: String,
    pub game_directory: String,
    pub assets_root: String,
    pub java_vm_path: String,
    pub launcher_name: String,
    pub launcher_version: String,
    pub player_name: String,
    pub auth_uuid: String,
    pub auth_access_token: String,
    pub user_type: String,
    pub version_type: String,
    pub ram_size_max: u32,
    pub ram_size_min: u32,
}

/// The mathematical value of a `RuntimeContext`.
pub struct RuntimeContextV {
    pub os_type: Seq<char>,
    pub arch: Seq<char>,
    pub common_dir_path: Seq<char>,
    pub game_directory: Seq<char>,
    pub assets_root: Seq<char>,
    pub java_vm_path: Seq<char>,
    pub launcher_name: Seq<char>,
    pub launcher_version: Seq<char>,
    pub player_name: Seq<char>,
    pub auth_uuid: Seq<char>,
    pub auth_access_token: Seq<char>,
    pub user_type: Seq<char>,
    pub version_type: Seq<char>,
    pub ram_size_max: u32,
    pub ram_size_min: u32,
}

impl DeepView for RuntimeContext {
    type V = RuntimeContextV;

    open spec fn deep_view(&self) -> RuntimeContextV {
        RuntimeContextV {
            os_type: self.os_type@,
            arch: self.arch@,
            common_dir_path: self.common_dir_path@,
            game_directory: self.game_directory@,
            assets_root: self.assets_root@,
            java_vm_path: self.java_vm_path@,
            launcher_name: self.launcher_name@,
            launcher_version: self.launcher_version@,
            player_name: self.player_name@,
            auth_uuid: self.auth_uuid@,
            auth_access_token: self.auth_access_token@,
            user_type: self.user_type@,
            version_type: self.version_type@,
            ram_size_max: self.ram_size_max,
            ram_size_min: self.ram_size_min,
        }
    }
}

/// Everything the process launcher needs for one launch.
pub struct MinecraftJavaStartParameters {
    pub java_vm_path: String,
    pub natives_dir_path: String,
    pub natives_files: Vec<Libraries>,
    pub parameters: Vec<String>,
}

// ---------------------------------------------------------------------------
// Build specification
// ---------------------------------------------------------------------------

/// What one JVM rule of a conditional group emits: nothing unless the
/// action is `allow` and the OS name matches the platform; the values once;
/// and the values a second time when the rule also names the matching
/// architecture.
pub open spec fn group_rule_emission(
    rule: ArgumentsJvmRulesValuesV,
    value: Seq<Seq<char>>,
    platform: Seq<char>,
    arch: Seq<char>,
) -> Seq<Seq<char>> {
    if rule.action != "allow"@ {
        Seq::<Seq<char>>::empty()
    } else {
        match rule.os.name {
            None => Seq::<Seq<char>>::empty(),
            Some(n) => if n != platform {
                Seq::<Seq<char>>::empty()
            } else {
                match rule.os.arch {
                    Some(a) => if a == arch {
                        value + value
                    } else {
                        value
                    },
                    None => value,
                }
            },
        }
    }
}

/// What the rules of one conditional group emit, in rule order.
pub open spec fn group_emission(
    rules: Seq<ArgumentsJvmRulesValuesV>,
    value: Seq<Seq<char>>,
    platform: Seq<char>,
    arch: Seq<char>,
) -> Seq<Seq<char>>
    decreases rules.len(),
{
    if rules.len() == 0 {
        Seq::<Seq<char>>::empty()
    } else {
        group_emission(rules.drop_last(), value, platform, arch) + group_rule_emission(
            rules.last(),
            value,
            platform,
            arch,
        )
    }
}

/// What the conditional JVM groups emit, in group order.
pub open spec fn jvm_groups_emission(
    groups: Seq<ArgumentsJvmRulesV>,
    platform: Seq<char>,
    arch: Seq<char>,
) -> Seq<Seq<char>>
    decreases groups.len(),
{
    if groups.len() == 0 {
        Seq::<Seq<char>>::empty()
    } else {
        jvm_groups_emission(groups.drop_last(), platform, arch) + group_emission(
            groups.last().rules,
            groups.last().value,
            platform,
            arch,
        )
    }
}

/// The substitution of one named JVM template, if its key is known:
/// `natives_directory`, `launcher_name` and `launcher_version` join with
/// `=`; `classpath` joins with a space.
pub open spec fn jvm_var_spec(
    key: Seq<char>,
    name: Seq<char>,
    natives_dir: Seq<char>,
    launcher_name: Seq<char>,
    launcher_version: Seq<char>,
    classpath: Seq<char>,
) -> Option<Seq<char>> {
    if key == "natives_directory"@ {
        Some(name + "="@ + natives_dir)
    } else if key == "launcher_name"@ {
        Some(name + "="@ + launcher_name)
    } else if key == "launcher_version"@ {
        Some(name + "="@ + launcher_version)
    } else if key == "classpath"@ {
        Some(name + " "@ + classpath)
    } else {
        None
    }
}

/// What the named JVM templates emit: each known key substituted, plain
/// tokens and unknown keys dropped.
pub open spec fn jvm_named_emission(
    args: Seq<ArgumentV>,
    natives_dir: Seq<char>,
    launcher_name: Seq<char>,
    launcher_version: Seq<char>,
    classpath: Seq<char>,
) -> Seq<Seq<char>>
    decreases args.len(),
{
    if args.len() == 0 {
        Seq::<Seq<char>>::empty()
    } else {
        jvm_named_emission(args.drop_last(), natives_dir, launcher_name, launcher_version, classpath)
            + (match args.last().value {
            Some(key) => match jvm_var_spec(
                key,
                args.last().name,
                natives_dir,
                launcher_name,
                launcher_version,
                classpath,
            ) {
                Some(s) => seq![s],
                None => Seq::<Seq<char>>::empty(),
            },
            None => Seq::<Seq<char>>::empty(),
        })
    }
}

/// The heap flags: `-Xmx<max>M` then `-Xms<min>M`, with fixed fall-backs
/// where a size is unset.
pub open spec fn heap_args_spec(ram_size_max: u32, ram_size_min: u32) -> Seq<Seq<char>> {
    seq![
        if ram_size_max != 0 {
            "-Xmx"@ + dec_digits(ram_size_max as nat) + "M"@
        } else {
            "-Xmx2048M"@
        },
        if ram_size_min != 0 {
            "-Xms"@ + dec_digits(ram_size_min as nat) + "M"@
        } else {
            "-Xms1024M"@
        },
    ]
}

/// The local paths of the libraries, in order.
pub open spec fn lib_paths_spec(libs: Seq<LibrariesV>) -> Seq<Seq<char>>
    decreases libs.len(),
{
    if libs.len() == 0 {
        Seq::<Seq<char>>::empty()
    } else {
        lib_paths_spec(libs.drop_last()).push(libs.last().file_path)
    }
}

/// The classpath separator: `;` on a Windows-family host, `:` otherwise.
pub open spec fn classpath_sep_spec(os_type: Seq<char>) -> Seq<char> {
    if os_type == "win32"@ {
        ";"@
    } else {
        ":"@
    }
}

/// The classpath: every library path then the client jar path, joined with
/// the OS separator.
pub open spec fn classpath_spec(
    libs: Seq<LibrariesV>,
    client: ClientV,
    os_type: Seq<char>,
) -> Seq<char> {
    join_spec(lib_paths_spec(libs).push(client.file_path), classpath_sep_spec(os_type))
}

/// The fixed game substitution table of one launch.
pub struct GameVarsV {
    pub player_name: Seq<char>,
    pub version_name: Seq<char>,
    pub game_directory: Seq<char>,
    pub assets_root: Seq<char>,
    pub assets_index_name: Seq<char>,
    pub auth_uuid: Seq<char>,
    pub auth_access_token: Seq<char>,
    pub user_type: Seq<char>,
    pub version_type: Seq<char>,
}

/// The substitution of one named game template, if its key is known.
pub open spec fn game_var_spec(key: Seq<char>, vars: GameVarsV) -> Option<Seq<char>> {
    if key == "auth_player_name"@ {
        Some(vars.player_name)
    } else if key == "version_name"@ {
        Some(vars.version_name)
    } else if key == "game_directory"@ {
        Some(vars.game_directory)
    } else if key == "assets_root"@ {
        Some(vars.assets_root)
    } else if key == "assets_index_name"@ {
        Some(vars.assets_index_name)
    } else if key == "auth_uuid"@ {
        Some(vars.auth_uuid)
    } else if key == "auth_access_token"@ {
        Some(vars.auth_access_token)
    } else if key == "user_type"@ {
        Some(vars.user_type)
    } else if key == "version_type"@ {
        Some(vars.version_type)
    } else {
        None
    }
}

/// What the game templates emit: plain tokens pass through, known keys are
/// substituted as `name=value`, unknown keys are dropped.
pub open spec fn game_args_emission(args: Seq<ArgumentV>, vars: GameVarsV) -> Seq<Seq<char>>
    decreases args.len(),
{
    if args.len() == 0 {
        Seq::<Seq<char>>::empty()
    } else {
        game_args_emission(args.drop_last(), vars) + (match args.last().value {
            Some(key) => match game_var_spec(key, vars) {
                Some(v) => seq![args.last().name + "="@ + v],
                None => Seq::<Seq<char>>::empty(),
            },
            None => seq![args.last().name],
        })
    }
}

/// The game substitution table of one launch: identity strings from the
/// context, version names from the resolved assets.
pub open spec fn game_vars_of(assets: MinecraftAssetsV, ctx: RuntimeContextV) -> GameVarsV {
    GameVarsV {
        player_name: ctx.player_name,
        version_name: assets.minecraft_version,
        game_directory: ctx.game_directory,
        assets_root: ctx.assets_root,
        assets_index_name: assets.assets_version,
        auth_uuid: ctx.auth_uuid,
        auth_access_token: ctx.auth_access_token,
        user_type: ctx.user_type,
        version_type: ctx.version_type,
    }
}

/// The whole argument vector of one launch, in fixed order: conditional
/// JVM groups, named JVM templates, heap flags, the main class, then the
/// game arguments.
pub open spec fn build_params_spec(
    assets: MinecraftAssetsV,
    ctx: RuntimeContextV,
    natives_dir: Seq<char>,
) -> Seq<Seq<char>> {
    jvm_groups_emission(
        assets.arguments.jvm.arguments_rules,
        platform_name_spec(ctx.os_type),
        ctx.arch,
    ) + jvm_named_emission(
        assets.arguments.jvm.arguments,
        natives_dir,
        ctx.launcher_name,
        ctx.launcher_version,
        classpath_spec(assets.libraries, assets.client, ctx.os_type),
    ) + heap_args_spec(ctx.ram_size_max, ctx.ram_size_min) + seq![assets.main_class]
        + game_args_emission(assets.arguments.game.arguments, game_vars_of(assets, ctx))
}

// ---------------------------------------------------------------------------
// Build implementation
// ---------------------------------------------------------------------------

fn push_values(out: &mut Vec<String>, values: &Vec<String>)
    ensures
        final(out).deep_view() == old(out).deep_view() + values.deep_view(),
{
    let mut i: usize = 0;
    proof {
        assert(values.deep_view().subrange(0, 0) =~= Seq::<Seq<char>>::empty());
        assert(out.deep_view() =~= old(out).deep_view() + values.deep_view().subrange(0, 0));
    }
    while i < values.len()
        invariant
            i <= values@.len(),
            values.deep_view().len() == values@.len(),
            out.deep_view() == old(out).deep_view() + values.deep_view().subrange(0, i as int),
        decreases values@.len() - i,
    {
        let ghost old_dv = out.deep_view();
        out.push(values[i].clone());
        proof {
            assert(out.deep_view() =~= old_dv.push(values.deep_view()[i as int]));
            assert(values.deep_view().subrange(0, i + 1) =~= values.deep_view().subrange(
                0,
                i as int,
            ).push(values.deep_view()[i as int]));
            assert(out.deep_view() =~= old(out).deep_view() + values.deep_view().subrange(
                0,
                i + 1,
            ));
        }
        i += 1;
    }
    proof {
        assert(values.deep_view().subrange(0, values.deep_view().len() as int)
            =~= values.deep_view());
    }
}

fn emit_rule(
    out: &mut Vec<String>,
    rule: &ArgumentsJvmRulesValues,
    values: &Vec<String>,
    platform: &str,
    arch: &str,
)
    ensures
        final(out).deep_view() == old(out).deep_view() + group_rule_emission(
            rule.deep_view(),
            values.deep_view(),
            platform@,
            arch@,
        ),
{
    if !str_eq(rule.action.as_str(), "allow") {
        proof {
            assert(out.deep_view() =~= old(out).deep_view() + Seq::<Seq<char>>::empty());
        }
        return ;
    }
    let os_name = match &rule.os.name {
        Some(n) => n,
        None => {
            proof {
                assert(out.deep_view() =~= old(out).deep_view() + Seq::<Seq<char>>::empty());
            }
            return ;
        },
    };
    if !str_eq(os_name.as_str(), platform) {
        proof {
            assert(out.deep_view() =~= old(out).deep_view() + Seq::<Seq<char>>::empty());
        }
        return ;
    }
    push_values(out, values);
    match &rule.os.arch {
        Some(a) => {
            if str_eq(a.as_str(), arch) {
                push_values(out, values);
                proof {
                    assert(out.deep_view() =~= old(out).deep_view() + (values.deep_view()
                        + values.deep_view()));
                }
            }
        },
        None => {},
    }
}

fn emit_group(out: &mut Vec<String>, group: &ArgumentsJvmRules, platform: &str, arch: &str)
    ensures
        final(out).deep_view() == old(out).deep_view() + group_emission(
            group.rules.deep_view(),
            group.value.deep_view(),
            platform@,
            arch@,
        ),
{
    let mut i: usize = 0;
    proof {
        assert(out.deep_view() =~= old(out).deep_view() + group_emission(
            group.rules.deep_view().subrange(0, 0),
            group.value.deep_view(),
            platform@,
            arch@,
        ));
    }
    while i < group.rules.len()
        invariant
            i <= group.rules@.len(),
            group.rules.deep_view().len() == group.rules@.len(),
            out.deep_view() == old(out).deep_view() + group_emission(
                group.rules.deep_view().subrange(0, i as int),
                group.value.deep_view(),
                platform@,
                arch@,
            ),
        decreases group.rules@.len() - i,
    {
        let ghost rules_dv = group.rules.deep_view();
        proof {
            assert(rules_dv.subrange(0, i + 1).drop_last() =~= rules_dv.subrange(0, i as int));
            assert(rules_dv.subrange(0, i + 1).last() == rules_dv[i as int]);
            assert(rules_dv[i as int] == group.rules@[i as int].deep_view());
        }
        emit_rule(out, &group.rules[i], &group.value, platform, arch);
        proof {
            assert(out.deep_view() =~= old(out).deep_view() + group_emission(
                rules_dv.subrange(0, i + 1),
                group.value.deep_view(),
                platform@,
                arch@,
            ));
        }
        i += 1;
    }
    proof {
        let rules_dv = group.rules.deep_view();
        assert(rules_dv.subrange(0, rules_dv.len() as int) =~= rules_dv);
    }
}

/// The builder of one launch: the resolved assets and the fresh natives
/// directory of this launch.
pub struct JavaBuildStartParameters {
    pub minecraft_assets: MinecraftAssets,
    pub natives_dir_path: String,
}

impl JavaBuildStartParameters {
    /// The platform name the manifest rules speak of.
    pub fn get_os_type(&self, ctx: &RuntimeContext) -> (r: String)
        ensures
            r@ == platform_name_spec(ctx.os_type@),
    {
        get_os_type(ctx.os_type.as_str())
    }

    /// The classpath of this launch.
    pub fn combination_library_path(&self, ctx: &RuntimeContext) -> (r: String)
        ensures
            r@ == classpath_spec(
                self.minecraft_assets.libraries.deep_view(),
                self.minecraft_assets.client.deep_view(),
                ctx.os_type@,
            ),
    {
        let mut libraries: Vec<String> = Vec::new();
        let n = self.minecraft_assets.libraries.len();
        let mut i: usize = 0;
        proof {
            assert(self.minecraft_assets.libraries.deep_view().subrange(0, 0) =~= Seq::<
                LibrariesV,
            >::empty());
            assert(libraries.deep_view() =~= lib_paths_spec(Seq::<LibrariesV>::empty()));
        }
        while i < n
            invariant
                i <= n,
                n == self.minecraft_assets.libraries@.len(),
                self.minecraft_assets.libraries.deep_view().len() == n,
                libraries.deep_view() == lib_paths_spec(
                    self.minecraft_assets.libraries.deep_view().subrange(0, i as int),
                ),
            decreases n - i,
        {
            let ghost libs_dv = self.minecraft_assets.libraries.deep_view();
            let ghost old_dv = libraries.deep_view();
            libraries.push(self.minecraft_assets.libraries[i].file_path.clone());
            proof {
                assert(libs_dv.subrange(0, i + 1).drop_last() =~= libs_dv.subrange(0, i as int));
                assert(libs_dv.subrange(0, i + 1).last() == libs_dv[i as int]);
                assert(libs_dv[i as int] == self.minecraft_assets.libraries@[i as int].deep_view());
                assert(libraries.deep_view() =~= old_dv.push(libs_dv[i as int].file_path));
            }
            i += 1;
        }
        let ghost libs_dv = self.minecraft_assets.libraries.deep_view();
        proof {
            assert(libs_dv.subrange(0, libs_dv.len() as int) =~= libs_dv);
        }
        let ghost before_client = libraries.deep_view();
        libraries.push(self.minecraft_assets.client.file_path.clone());
        proof {
            assert(libraries.deep_view() =~= before_client.push(
                self.minecraft_assets.client.deep_view().file_path,
            ));
        }
        if str_eq(ctx.os_type.as_str(), "win32") {
            join_strings(&libraries, ";")
        } else {
            join_strings(&libraries, ":")
        }
    }

    /// The heap flags of this launch.
    pub fn jvm_parameters(&self, ctx: &RuntimeContext) -> (r: Vec<String>)
        ensures
            r.deep_view() == heap_args_spec(ctx.ram_size_max, ctx.ram_size_min),
    {
        let mut arguments: Vec<String> = Vec::new();
        if ctx.ram_size_max != 0 {
            let mut s = concat_strs("-Xmx", u32_to_string(ctx.ram_size_max).as_str());
            s.append("M");
            arguments.push(s);
        } else {
            arguments.push(String::from_str("-Xmx2048M"));
        }
        if ctx.ram_size_min != 0 {
            let mut s = concat_strs("-Xms", u32_to_string(ctx.ram_size_min).as_str());
            s.append("M");
            arguments.push(s);
        } else {
            arguments.push(String::from_str("-Xms1024M"));
        }
        proof {
            assert(arguments.deep_view() =~= heap_args_spec(ctx.ram_size_max, ctx.ram_size_min));
        }
        arguments
    }

    /// The JVM part of the argument vector: conditional groups, then named
    /// templates.
    pub fn get_jvm_113later(&self, ctx: &RuntimeContext) -> (r: Vec<String>)
        ensures
            r.deep_view() == jvm_groups_emission(
                self.minecraft_assets.arguments.jvm.arguments_rules.deep_view(),
                platform_name_spec(ctx.os_type@),
                ctx.arch@,
            ) + jvm_named_emission(
                self.minecraft_assets.arguments.jvm.arguments.deep_view(),
                self.natives_dir_path@,
                ctx.launcher_name@,
                ctx.launcher_version@,
                classpath_spec(
                    self.minecraft_assets.libraries.deep_view(),
                    self.minecraft_assets.client.deep_view(),
                    ctx.os_type@,
                ),
            ),
    {
        let platform = self.get_os_type(ctx);
        let mut jvm_arguments: Vec<String> = Vec::new();
        let groups = &self.minecraft_assets.arguments.jvm.arguments_rules;
        let mut i: usize = 0;
        proof {
            assert(jvm_arguments.deep_view() =~= Seq::<Seq<char>>::empty() + jvm_groups_emission(
                groups.deep_view().subrange(0, 0),
                platform_name_spec(ctx.os_type@),
                ctx.arch@,
            ));
            assert(jvm_arguments.deep_view() =~= jvm_groups_emission(
                groups.deep_view().subrange(0, 0),
                platform_name_spec(ctx.os_type@),
                ctx.arch@,
            ));
        }
        while i < groups.len()
            invariant
                i <= groups@.len(),
                groups.deep_view().len() == groups@.len(),
                platform@ == platform_name_spec(ctx.os_type@),
                jvm_arguments.deep_view() == jvm_groups_emission(
                    groups.deep_view().subrange(0, i as int),
                    platform_name_spec(ctx.os_type@),
                    ctx.arch@,
                ),
            decreases groups@.len() - i,
        {
            let ghost groups_dv = groups.deep_view();
            proof {
                assert(groups_dv.subrange(0, i + 1).drop_last() =~= groups_dv.subrange(
                    0,
                    i as int,
                ));
                assert(groups_dv.subrange(0, i + 1).last() == groups_dv[i as int]);
                assert(groups_dv[i as int] == groups@[i as int].deep_view());
            }
            emit_group(&mut jvm_arguments, &groups[i], platform.as_str(), ctx.arch.as_str());
            proof {
                assert(jvm_arguments.deep_view() =~= jvm_groups_emission(
                    groups_dv.subrange(0, i + 1),
                    platform_name_spec(ctx.os_type@),
                    ctx.arch@,
                ));
            }
            i += 1;
        }
        proof {
            let groups_dv = groups.deep_view();
            assert(groups_dv.subrange(0, groups_dv.len() as int) =~= groups_dv);
        }
        let classpath = self.combination_library_path(ctx);
        let args = &self.minecraft_assets.arguments.jvm.arguments;
        let ghost groups_part = jvm_arguments.deep_view();
        let mut j: usize = 0;
        proof {
            assert(jvm_arguments.deep_view() =~= groups_part + jvm_named_emission(
                args.deep_view().subrange(0, 0),
                self.natives_dir_path@,
                ctx.launcher_name@,
                ctx.launcher_version@,
                classpath@,
            ));
        }
        while j < args.len()
            invariant
                j <= args@.len(),
                args.deep_view().len() == args@.len(),
                classpath@ == classpath_spec(
                    self.minecraft_assets.libraries.deep_view(),
                    self.minecraft_assets.client.deep_view(),
                    ctx.os_type@,
                ),
                jvm_arguments.deep_view() == groups_part + jvm_named_emission(
                    args.deep_view().subrange(0, j as int),
                    self.natives_dir_path@,
                    ctx.launcher_name@,
                    ctx.launcher_version@,
                    classpath@,
                ),
            decreases args@.len() - j,
        {
            let ghost args_dv = args.deep_view();
            proof {
                assert(args_dv.subrange(0, j + 1).drop_last() =~= args_dv.subrange(0, j as int));
                assert(args_dv.subrange(0, j + 1).last() == args_dv[j as int]);
                assert(args_dv[j as int] == args@[j as int].deep_view());
            }
            let arg = &args[j];
            let ghost before = jvm_arguments.deep_view();
            match &arg.value {
                Some(key) => {
                    let substituted: Option<String> = if str_eq(key.as_str(), "natives_directory") {
                        let mut s = concat_strs(arg.name.as_str(), "=");
                        s.append(self.natives_dir_path.as_str());
                        Some(s)
                    } else if str_eq(key.as_str(), "launcher_name") {
                        let mut s = concat_strs(arg.name.as_str(), "=");
                        s.append(ctx.launcher_name.as_str());
                        Some(s)
                    } else if str_eq(key.as_str(), "launcher_version") {
                        let mut s = concat_strs(arg.name.as_str(), "=");
                        s.append(ctx.launcher_version.as_str());
                        Some(s)
                    } else if str_eq(key.as_str(), "classpath") {
                        let mut s = concat_strs(arg.name.as_str(), " ");
                        s.append(classpath.as_str());
                        Some(s)
                    } else {
                        None
                    };
                    match substituted {
                        Some(s) => {
                            let ghost sv = s@;
                            jvm_arguments.push(s);
                            proof {
                                assert(jvm_arguments.deep_view() =~= before.push(sv));
                            }
                        },
                        None => {},
                    }
                },
                None => {},
            }
            proof {
                assert(jvm_arguments.deep_view() =~= groups_part + jvm_named_emission(
                    args_dv.subrange(0, j + 1),
                    self.natives_dir_path@,
                    ctx.launcher_name@,
                    ctx.launcher_version@,
                    classpath@,
                ));
            }
            j += 1;
        }
        proof {
            let args_dv = args.deep_view();
            assert(args_dv.subrange(0, args_dv.len() as int) =~= args_dv);
        }
        jvm_arguments
    }

    /// The game part of the argument vector.
    pub fn minecraft_arguments_113later(&self, ctx: &RuntimeContext) -> (r: Vec<String>)
        ensures
            r.deep_view() == game_args_emission(
                self.minecraft_assets.arguments.game.arguments.deep_view(),
                game_vars_of(self.minecraft_assets.deep_view(), ctx.deep_view()),
            ),
    {
        let mut game_arguments: Vec<String> = Vec::new();
        let args = &self.minecraft_assets.arguments.game.arguments;
        let ghost vars = game_vars_of(self.minecraft_assets.deep_view(), ctx.deep_view());
        let mut i: usize = 0;
        proof {
            assert(game_arguments.deep_view() =~= game_args_emission(
                args.deep_view().subrange(0, 0),
                vars,
            ));
        }
        while i < args.len()
            invariant
                i <= args@.len(),
                args.deep_view().len() == args@.len(),
                vars == game_vars_of(self.minecraft_assets.deep_view(), ctx.deep_view()),
                game_arguments.deep_view() == game_args_emission(
                    args.deep_view().subrange(0, i as int),
                    vars,
                ),
            decreases args@.len() - i,
        {
            let ghost args_dv = args.deep_view();
            proof {
                assert(args_dv.subrange(0, i + 1).drop_last() =~= args_dv.subrange(0, i as int));
                assert(args_dv.subrange(0, i + 1).last() == args_dv[i as int]);
                assert(args_dv[i as int] == args@[i as int].deep_view());
            }
            let arg = &args[i];
            let ghost before = game_arguments.deep_view();
            match &arg.value {
                Some(key) => {
                    let substituted: Option<&String> = if str_eq(key.as_str(), "auth_player_name") {
                        Some(&ctx.player_name)
                    } else if str_eq(key.as_str(), "version_name") {
                        Some(&self.minecraft_assets.minecraft_version)
                    } else if str_eq(key.as_str(), "game_directory") {
                        Some(&ctx.game_directory)
                    } else if str_eq(key.as_str(), "assets_root") {
                        Some(&ctx.assets_root)
                    } else if str_eq(key.as_str(), "assets_index_name") {
                        Some(&self.minecraft_assets.assets_version)
                    } else if str_eq(key.as_str(), "auth_uuid") {
                        Some(&ctx.auth_uuid)
                    } else if str_eq(key.as_str(), "auth_access_token") {
                        Some(&ctx.auth_access_token)
                    } else if str_eq(key.as_str(), "user_type") {
                        Some(&ctx.user_type)
                    } else if str_eq(key.as_str(), "version_type") {
                        Some(&ctx.version_type)
                    } else {
                        None
                    };
                    match substituted {
                        Some(v) => {
                            let mut s = concat_strs(arg.name.as_str(), "=");
                            s.append(v.as_str());
                            let ghost sv = s@;
                            game_arguments.push(s);
                            proof {
                                assert(game_arguments.deep_view() =~= before.push(sv));
                            }
                        },
                        None => {},
                    }
                },
                None => {
                    game_arguments.push(arg.name.clone());
                    proof {
                        assert(game_arguments.deep_view() =~= before.push(arg.name@));
                    }
                },
            }
            proof {
                assert(game_arguments.deep_view() =~= game_args_emission(
                    args_dv.subrange(0, i + 1),
                    vars,
                ));
            }
            i += 1;
        }
        proof {
            let args_dv = args.deep_view();
            assert(args_dv.subrange(0, args_dv.len() as int) =~= args_dv);
        }
        game_arguments
    }

    /// The whole argument vector, in fixed order.
    pub fn get_build_113above(&self, ctx: &RuntimeContext) -> (r: Vec<String>)
        ensures
            r.deep_view() == build_params_spec(
                self.minecraft_assets.deep_view(),
                ctx.deep_view(),
                self.natives_dir_path@,
            ),
    {
        let mut parameters = self.get_jvm_113later(ctx);
        let mut heap = self.jvm_parameters(ctx);
        let ghost part_groups = parameters.deep_view();
        parameters.append(&mut heap);
        proof {
            assert(parameters.deep_view() =~= part_groups + heap_args_spec(
                ctx.ram_size_max,
                ctx.ram_size_min,
            ));
        }
        let ghost part_named = parameters.deep_view();
        parameters.push(self.minecraft_assets.main_class.clone());
        proof {
            assert(parameters.deep_view() =~= part_named.push(self.minecraft_assets.main_class@));
        }
        let mut game = self.minecraft_arguments_113later(ctx);
        let ghost part_heap = parameters.deep_view();
        parameters.append(&mut game);
        proof {
            assert(parameters.deep_view() =~= part_heap + game_args_emission(
                self.minecraft_assets.arguments.game.arguments.deep_view(),
                game_vars_of(self.minecraft_assets.deep_view(), ctx.deep_view()),
            ));
            assert(part_named.push(self.minecraft_assets.main_class@) =~= part_named + seq![
                self.minecraft_assets.main_class@,
            ]);
            assert(parameters.deep_view() =~= build_params_spec(
                self.minecraft_assets.deep_view(),
                ctx.deep_view(),
                self.natives_dir_path@,
            ));
        }
        parameters
    }
}

// ---------------------------------------------------------------------------
// Natives and launch assembly
// ---------------------------------------------------------------------------

/// The library entries that are native archives, in order.
pub open spec fn natives_of_spec(libs: Seq<LibrariesV>) -> Seq<LibrariesV>
    decreases libs.len(),
{
    if libs.len() == 0 {
        Seq::<LibrariesV>::empty()
    } else {
        natives_of_spec(libs.drop_last()) + (if libs.last().lib_type is Natives {
            seq![libs.last()]
        } else {
            Seq::<LibrariesV>::empty()
        })
    }
}

fn clone_lib(l: &Libraries) -> (r: Libraries)
    ensures
        r.deep_view() == l.deep_view(),
{
    Libraries {
        lib_type: l.lib_type,
        file_name: l.file_name.clone(),
        file_path: l.file_path.clone(),
        sha1: l.sha1.clone(),
        size: l.size,
        url: l.url.clone(),
    }
}

/// Keeps the native archives of the library list.
pub fn get_natives_file_paths(libraries: Vec<Libraries>) -> (r: Vec<Libraries>)
    ensures
        r.deep_view() == natives_of_spec(libraries.deep_view()),
{
    let mut natives_libraries: Vec<Libraries> = Vec::new();
    let mut i: usize = 0;
    proof {
        assert(libraries.deep_view().subrange(0, 0) =~= Seq::<LibrariesV>::empty());
        assert(natives_libraries.deep_view() =~= natives_of_spec(
            libraries.deep_view().subrange(0, 0),
        ));
    }
    while i < libraries.len()
        invariant
            i <= libraries@.len(),
            libraries.deep_view().len() == libraries@.len(),
            natives_libraries.deep_view() == natives_of_spec(
                libraries.deep_view().subrange(0, i as int),
            ),
        decreases libraries@.len() - i,
    {
        let ghost libs_dv = libraries.deep_view();
        proof {
            assert(libs_dv.subrange(0, i + 1).drop_last() =~= libs_dv.subrange(0, i as int));
            assert(libs_dv.subrange(0, i + 1).last() == libs_dv[i as int]);
            assert(libs_dv[i as int] == libraries@[i as int].deep_view());
        }
        let lib = &libraries[i];
        if matches!(lib.lib_type, LibrariesType::Natives) {
            let ghost old_dv = natives_libraries.deep_view();
            natives_libraries.push(clone_lib(lib));
            proof {
                assert(natives_libraries.deep_view() =~= old_dv.push(libs_dv[i as int]));
                assert(natives_libraries.deep_view() =~= natives_of_spec(
                    libs_dv.subrange(0, i + 1),
                ));
            }
        } else {
            proof {
                assert(natives_libraries.deep_view() =~= natives_of_spec(
                    libs_dv.subrange(0, i + 1),
                ));
            }
        }
        i += 1;
    }
    proof {
        let libs_dv = libraries.deep_view();
        assert(libs_dv.subrange(0, libs_dv.len() as int) =~= libs_dv);
    }
    natives_libraries
}

/// A character a launch token is made of: lowercase hex or a hyphen.
pub open spec fn uuid_char(c: char) -> bool {
    c == '-' || ('0' <= c && c <= '9') || ('a' <= c && c <= 'f')
}

/// Relies on uuid::Uuid::new_v4 and its Display form: a fresh random
/// version-4 UUID rendered as 36 hyphenated lowercase-hex characters. The
/// value is random, so only its shape is stated.
#[verifier::external_body]
fn new_launch_token() -> (r: String)
    ensures
        r@.len() == 36,
        forall|i: int| 0 <= i < r@.len() ==> uuid_char(#[trigger] r@[i]),
{
    uuid::Uuid::new_v4().to_string()
}

/// Assembles one launch: a fresh natives directory under `bin/`, the
/// argument vector built against it, and the native archives to extract
/// into it.
pub fn get_minecraft_java_start_parameters(
    minecraft_assets: MinecraftAssets,
    ctx: &RuntimeContext,
) -> (r: MinecraftJavaStartParameters)
    ensures
        r.java_vm_path@ == ctx.java_vm_path@,
        r.natives_dir_path@.len() == ctx.common_dir_path@.len() + 41,
        r.natives_dir_path@.subrange(0, ctx.common_dir_path@.len() as int + 5)
            == ctx.common_dir_path@ + "/bin/"@,
        forall|i: int|
            ctx.common_dir_path@.len() + 5 <= i < r.natives_dir_path@.len() ==> uuid_char(
                #[trigger] r.natives_dir_path@[i],
            ),
        r.parameters.deep_view() == build_params_spec(
            minecraft_assets.deep_view(),
            ctx.deep_view(),
            r.natives_dir_path@,
        ),
        r.natives_files.deep_view() == natives_of_spec(minecraft_assets.deep_view().libraries),
{
    let token = new_launch_token();
    let natives_dir_path = concat_strs(ctx.common_dir_path.as_str(), "/bin/").concat(
        token.as_str(),
    );
    proof {
        reveal_strlit("/bin/");
        assert((ctx.common_dir_path@ + "/bin/"@ + token@).subrange(
            0,
            ctx.common_dir_path@.len() as int + 5,
        ) =~= ctx.common_dir_path@ + "/bin/"@);
    }
    let java_build_start_parameters = JavaBuildStartParameters {
        minecraft_assets,
        natives_dir_path,
    };
    let parameters = java_build_start_parameters.get_build_113above(ctx);
    let JavaBuildStartParameters { minecraft_assets: assets_out, natives_dir_path: natives_dir } =
        java_build_start_parameters;
    let natives_files = get_natives_file_paths(assets_out.libraries);
    MinecraftJavaStartParameters {
        java_vm_path: ctx.java_vm_path.clone(),
        natives_dir_path: natives_dir,
        natives_files,
        parameters,
    }
}

// ---------------------------------------------------------------------------
// No unresolved placeholders
// ---------------------------------------------------------------------------

/// Every string of the list is free of `${`.
pub open spec fn all_clean(ss: Seq<Seq<char>>) -> bool {
    forall|k: int| 0 <= k < ss.len() ==> !has_dollar_brace(#[trigger] ss[k])
}

/// Every template name of the list is free of `${`.
pub open spec fn args_clean(args: Seq<ArgumentV>) -> bool {
    forall|k: int| 0 <= k < args.len() ==> !has_dollar_brace((#[trigger] args[k]).name)
}

/// Every value of every conditional group is free of `${`.
pub open spec fn groups_clean(groups: Seq<ArgumentsJvmRulesV>) -> bool {
    forall|k: int| 0 <= k < groups.len() ==> all_clean((#[trigger] groups[k]).value)
}

/// Every library path is free of `${`.
pub open spec fn lib_paths_clean(libs: Seq<LibrariesV>) -> bool {
    forall|k: int| 0 <= k < libs.len() ==> !has_dollar_brace((#[trigger] libs[k]).file_path)
}

proof fn lemma_all_clean_concat(a: Seq<Seq<char>>, b: Seq<Seq<char>>)
    requires
        all_clean(a),
        all_clean(b),
    ensures
        all_clean(a + b),
{
    assert forall|k: int| 0 <= k < (a + b).len() implies !has_dollar_brace(
        #[trigger] (a + b)[k],
    ) by {
        if k < a.len() {
            assert((a + b)[k] == a[k]);
        } else {
            assert((a + b)[k] == b[k - a.len()]);
        }
    }
}

/// A substitution `name <mid> value` stays free of `${` when its parts are
/// and the single joining character is neither `$` nor `{`.
proof fn lemma_subst_clean(name: Seq<char>, mid: Seq<char>, value: Seq<char>)
    requires
        !has_dollar_brace(name),
        !has_dollar_brace(value),
        mid.len() == 1,
        mid[0] != '{',
        mid[0] != '$',
    ensures
        !has_dollar_brace(name + mid + value),
{
    assert(!has_dollar_brace(mid));
    lemma_concat_no_dollar_brace(name, mid);
    assert((name + mid).len() > 0);
    assert((name + mid).last() == mid[0]);
    lemma_concat_no_dollar_brace(name + mid, value);
}

proof fn lemma_group_rule_emission_clean(
    rule: ArgumentsJvmRulesValuesV,
    value: Seq<Seq<char>>,
    platform: Seq<char>,
    arch: Seq<char>,
)
    requires
        all_clean(value),
    ensures
        all_clean(group_rule_emission(rule, value, platform, arch)),
{
    lemma_all_clean_concat(value, value);
    assert(all_clean(Seq::<Seq<char>>::empty()));
}

proof fn lemma_group_emission_clean(
    rules: Seq<ArgumentsJvmRulesValuesV>,
    value: Seq<Seq<char>>,
    platform: Seq<char>,
    arch: Seq<char>,
)
    requires
        all_clean(value),
    ensures
        all_clean(group_emission(rules, value, platform, arch)),
    decreases rules.len(),
{
    if rules.len() == 0 {
        assert(all_clean(Seq::<Seq<char>>::empty()));
    } else {
        lemma_group_emission_clean(rules.drop_last(), value, platform, arch);
        lemma_group_rule_emission_clean(rules.last(), value, platform, arch);
        lemma_all_clean_concat(
            group_emission(rules.drop_last(), value, platform, arch),
            group_rule_emission(rules.last(), value, platform, arch),
        );
    }
}

proof fn lemma_jvm_groups_emission_clean(
    groups: Seq<ArgumentsJvmRulesV>,
    platform: Seq<char>,
    arch: Seq<char>,
)
    requires
        groups_clean(groups),
    ensures
        all_clean(jvm_groups_emission(groups, platform, arch)),
    decreases groups.len(),
{
    if groups.len() == 0 {
        assert(all_clean(Seq::<Seq<char>>::empty()));
    } else {
        assert forall|k: int| 0 <= k < groups.drop_last().len() implies all_clean(
            (#[trigger] groups.drop_last()[k]).value,
        ) by {
            assert(groups.drop_last()[k] == groups[k]);
        }
        lemma_jvm_groups_emission_clean(groups.drop_last(), platform, arch);
        assert(all_clean(groups[groups.len() - 1].value));
        lemma_group_emission_clean(groups.last().rules, groups.last().value, platform, arch);
        lemma_all_clean_concat(
            jvm_groups_emission(groups.drop_last(), platform, arch),
            group_emission(groups.last().rules, groups.last().value, platform, arch),
        );
    }
}

proof fn lemma_jvm_named_emission_clean(
    args: Seq<ArgumentV>,
    natives_dir: Seq<char>,
    launcher_name: Seq<char>,
    launcher_version: Seq<char>,
    classpath: Seq<char>,
)
    requires
        args_clean(args),
        !has_dollar_brace(natives_dir),
        !has_dollar_brace(launcher_name),
        !has_dollar_brace(launcher_version),
        !has_dollar_brace(classpath),
    ensures
        all_clean(
            jvm_named_emission(args, natives_dir, launcher_name, launcher_version, classpath),
        ),
    decreases args.len(),
{
    reveal_strlit("=");
    reveal_strlit(" ");
    if args.len() == 0 {
        assert(all_clean(Seq::<Seq<char>>::empty()));
    } else {
        assert forall|k: int| 0 <= k < args.drop_last().len() implies !has_dollar_brace(
            (#[trigger] args.drop_last()[k]).name,
        ) by {
            assert(args.drop_last()[k] == args[k]);
        }
        lemma_jvm_named_emission_clean(
            args.drop_last(),
            natives_dir,
            launcher_name,
            launcher_version,
            classpath,
        );
        let last = args.last();
        assert(!has_dollar_brace(args[args.len() - 1].name));
        let tail: Seq<Seq<char>> = match last.value {
            Some(key) => match jvm_var_spec(
                key,
                last.name,
                natives_dir,
                launcher_name,
                launcher_version,
                classpath,
            ) {
                Some(s) => seq![s],
                None => Seq::<Seq<char>>::empty(),
            },
            None => Seq::<Seq<char>>::empty(),
        };
        match last.value {
            Some(key) => {
                if key == "natives_directory"@ {
                    lemma_subst_clean(last.name, "="@, natives_dir);
                } else if key == "launcher_name"@ {
                    lemma_subst_clean(last.name, "="@, launcher_name);
                } else if key == "launcher_version"@ {
                    lemma_subst_clean(last.name, "="@, launcher_version);
                } else if key == "classpath"@ {
                    lemma_subst_clean(last.name, " "@, classpath);
                }
            },
            None => {},
        }
        assert(all_clean(tail));
        lemma_all_clean_concat(
            jvm_named_emission(
                args.drop_last(),
                natives_dir,
                launcher_name,
                launcher_version,
                classpath,
            ),
            tail,
        );
    }
}

proof fn lemma_dec_digits_clean(n: nat)
    ensures
        !has_dollar_brace(dec_digits(n)),
{
    lemma_dec_digits_are_digits(n);
    if has_dollar_brace(dec_digits(n)) {
        let i = choose|i: int|
            0 <= i && i + 1 < dec_digits(n).len() && (#[trigger] dec_digits(n)[i]) == '$'
                && dec_digits(n)[i + 1] == '{';
        assert('0' <= dec_digits(n)[i] <= '9');
    }
}

proof fn lemma_heap_args_clean(ram_size_max: u32, ram_size_min: u32)
    ensures
        all_clean(heap_args_spec(ram_size_max, ram_size_min)),
{
    reveal_strlit("-Xmx");
    reveal_strlit("-Xms");
    reveal_strlit("M");
    reveal_strlit("-Xmx2048M");
    reveal_strlit("-Xms1024M");
    assert(!has_dollar_brace("-Xmx"@)) by {
        if has_dollar_brace("-Xmx"@) {
            let i = choose|i: int|
                0 <= i && i + 1 < "-Xmx"@.len() && (#[trigger] "-Xmx"@[i]) == '$' && "-Xmx"@[i + 1]
                    == '{';
        }
    }
    assert(!has_dollar_brace("-Xms"@)) by {
        if has_dollar_brace("-Xms"@) {
            let i = choose|i: int|
                0 <= i && i + 1 < "-Xms"@.len() && (#[trigger] "-Xms"@[i]) == '$' && "-Xms"@[i + 1]
                    == '{';
        }
    }
    assert(!has_dollar_brace("-Xmx2048M"@)) by {
        if has_dollar_brace("-Xmx2048M"@) {
            let i = choose|i: int|
                0 <= i && i + 1 < "-Xmx2048M"@.len() && (#[trigger] "-Xmx2048M"@[i]) == '$'
                    && "-Xmx2048M"@[i + 1] == '{';
        }
    }
    assert(!has_dollar_brace("-Xms1024M"@)) by {
        if has_dollar_brace("-Xms1024M"@) {
            let i = choose|i: int|
                0 <= i && i + 1 < "-Xms1024M"@.len() && (#[trigger] "-Xms1024M"@[i]) == '$'
                    && "-Xms1024M"@[i + 1] == '{';
        }
    }
    if ram_size_max != 0 {
        lemma_dec_digits_clean(ram_size_max as nat);
        lemma_dec_digits_are_digits(ram_size_max as nat);
        lemma_concat_no_dollar_brace("-Xmx"@, dec_digits(ram_size_max as nat));
        let a = "-Xmx"@ + dec_digits(ram_size_max as nat);
        assert(a.last() == dec_digits(ram_size_max as nat).last());
        assert('0' <= a.last() <= '9');
        assert(!has_dollar_brace("M"@));
        lemma_concat_no_dollar_brace(a, "M"@);
    }
    if ram_size_min != 0 {
        lemma_dec_digits_clean(ram_size_min as nat);
        lemma_dec_digits_are_digits(ram_size_min as nat);
        lemma_concat_no_dollar_brace("-Xms"@, dec_digits(ram_size_min as nat));
        let a = "-Xms"@ + dec_digits(ram_size_min as nat);
        assert(a.last() == dec_digits(ram_size_min as nat).last());
        assert('0' <= a.last() <= '9');
        assert(!has_dollar_brace("M"@));
        lemma_concat_no_dollar_brace(a, "M"@);
    }
    let hs = heap_args_spec(ram_size_max, ram_size_min);
    assert forall|k: int| 0 <= k < hs.len() implies !has_dollar_brace(#[trigger] hs[k]) by {
        assert(hs[0] == (if ram_size_max != 0 {
            "-Xmx"@ + dec_digits(ram_size_max as nat) + "M"@
        } else {
            "-Xmx2048M"@
        }));
        assert(hs[1] == (if ram_size_min != 0 {
            "-Xms"@ + dec_digits(ram_size_min as nat) + "M"@
        } else {
            "-Xms1024M"@
        }));
    }
}

proof fn lemma_join_clean(items: Seq<Seq<char>>, sep: Seq<char>)
    requires
        all_clean(items),
        sep.len() == 1,
        sep[0] != '{',
        sep[0] != '$',
    ensures
        !has_dollar_brace(join_spec(items, sep)),
    decreases items.len(),
{
    if items.len() == 0 {
        assert(!has_dollar_brace(Seq::<char>::empty()));
    } else if items.len() == 1 {
        assert(!has_dollar_brace(items[0]));
    } else {
        assert forall|k: int| 0 <= k < items.drop_last().len() implies !has_dollar_brace(
            #[trigger] items.drop_last()[k],
        ) by {
            assert(items.drop_last()[k] == items[k]);
        }
        lemma_join_clean(items.drop_last(), sep);
        assert(!has_dollar_brace(sep));
        lemma_concat_no_dollar_brace(join_spec(items.drop_last(), sep), sep);
        let a = join_spec(items.drop_last(), sep) + sep;
        assert(a.last() == sep[0]);
        assert(!has_dollar_brace(items[items.len() - 1]));
        lemma_concat_no_dollar_brace(a, items.last());
    }
}

proof fn lemma_classpath_clean(libs: Seq<LibrariesV>, client: ClientV, os_type: Seq<char>)
    requires
        lib_paths_clean(libs),
        !has_dollar_brace(client.file_path),
    ensures
        !has_dollar_brace(classpath_spec(libs, client, os_type)),
{
    reveal_strlit(";");
    reveal_strlit(":");
    lemma_lib_paths_len(libs);
    assert forall|k: int| 0 <= k < lib_paths_spec(libs).len() implies !has_dollar_brace(
        #[trigger] lib_paths_spec(libs)[k],
    ) by {
        lemma_lib_paths_entries(libs, k);
    }
    let items = lib_paths_spec(libs).push(client.file_path);
    assert forall|k: int| 0 <= k < items.len() implies !has_dollar_brace(#[trigger] items[k]) by {
        if k < lib_paths_spec(libs).len() {
            assert(items[k] == lib_paths_spec(libs)[k]);
        } else {
            assert(items[k] == client.file_path);
        }
    }
    lemma_join_clean(items, classpath_sep_spec(os_type));
}

proof fn lemma_lib_paths_len(libs: Seq<LibrariesV>)
    ensures
        lib_paths_spec(libs).len() == libs.len(),
    decreases libs.len(),
{
    if libs.len() > 0 {
        lemma_lib_paths_len(libs.drop_last());
    }
}

/// Each entry of the path list is the path of the matching library.
proof fn lemma_lib_paths_entries(libs: Seq<LibrariesV>, k: int)
    requires
        0 <= k < libs.len(),
        lib_paths_clean(libs),
    ensures
        lib_paths_spec(libs).len() == libs.len(),
        !has_dollar_brace(lib_paths_spec(libs)[k]),
    decreases libs.len(),
{
    if libs.len() > 0 {
        assert forall|j: int| 0 <= j < libs.drop_last().len() implies !has_dollar_brace(
            (#[trigger] libs.drop_last()[j]).file_path,
        ) by {
            assert(libs.drop_last()[j] == libs[j]);
        }
        if k < libs.len() - 1 {
            lemma_lib_paths_entries(libs.drop_last(), k);
            assert(lib_paths_spec(libs)[k] == lib_paths_spec(libs.drop_last())[k]);
        } else {
            if libs.len() > 1 {
                lemma_lib_paths_entries(libs.drop_last(), 0);
            } else {
                assert(lib_paths_spec(libs.drop_last()).len() == 0);
            }
            assert(lib_paths_spec(libs)[k] == libs.last().file_path);
        }
    }
}

/// The fixed game substitution table of one launch is free of `${`.
pub open spec fn game_vars_clean(vars: GameVarsV) -> bool {
    &&& !has_dollar_brace(vars.player_name)
    &&& !has_dollar_brace(vars.version_name)
    &&& !has_dollar_brace(vars.game_directory)
    &&& !has_dollar_brace(vars.assets_root)
    &&& !has_dollar_brace(vars.assets_index_name)
    &&& !has_dollar_brace(vars.auth_uuid)
    &&& !has_dollar_brace(vars.auth_access_token)
    &&& !has_dollar_brace(vars.user_type)
    &&& !has_dollar_brace(vars.version_type)
}

proof fn lemma_game_args_emission_clean(args: Seq<ArgumentV>, vars: GameVarsV)
    requires
        args_clean(args),
        game_vars_clean(vars),
    ensures
        all_clean(game_args_emission(args, vars)),
    decreases args.len(),
{
    reveal_strlit("=");
    if args.len() == 0 {
        assert(all_clean(Seq::<Seq<char>>::empty()));
    } else {
        assert forall|k: int| 0 <= k < args.drop_last().len() implies !has_dollar_brace(
            (#[trigger] args.drop_last()[k]).name,
        ) by {
            assert(args.drop_last()[k] == args[k]);
        }
        lemma_game_args_emission_clean(args.drop_last(), vars);
        let last = args.last();
        assert(!has_dollar_brace(args[args.len() - 1].name));
        let tail: Seq<Seq<char>> = match last.value {
            Some(key) => match game_var_spec(key, vars) {
                Some(v) => seq![last.name + "="@ + v],
                None => Seq::<Seq<char>>::empty(),
            },
            None => seq![last.name],
        };
        match last.value {
            Some(key) => {
                match game_var_spec(key, vars) {
                    Some(v) => {
                        lemma_subst_clean(last.name, "="@, v);
                    },
                    None => {},
                }
            },
            None => {},
        }
        assert(all_clean(tail));
        lemma_all_clean_concat(game_args_emission(args.drop_last(), vars), tail);
    }
}

/// The built argument vector holds no unresolved substitution placeholder:
/// when no template name, group value, path or context string carries a
/// `${` of its own, no string of the output contains `${...}`.
pub proof fn lemma_build_no_unresolved_placeholder(
    assets: MinecraftAssetsV,
    ctx: RuntimeContextV,
    natives_dir: Seq<char>,
)
    requires
        args_clean(assets.arguments.jvm.arguments),
        groups_clean(assets.arguments.jvm.arguments_rules),
        args_clean(assets.arguments.game.arguments),
        lib_paths_clean(assets.libraries),
        !has_dollar_brace(assets.client.file_path),
        !has_dollar_brace(assets.main_class),
        !has_dollar_brace(natives_dir),
        !has_dollar_brace(ctx.launcher_name),
        !has_dollar_brace(ctx.launcher_version),
        game_vars_clean(game_vars_of(assets, ctx)),
    ensures
        forall|k: int|
            0 <= k < build_params_spec(assets, ctx, natives_dir).len() ==> !contains_placeholder(
                #[trigger] build_params_spec(assets, ctx, natives_dir)[k],
            ),
{
    let platform = platform_name_spec(ctx.os_type);
    let cp = classpath_spec(assets.libraries, assets.client, ctx.os_type);
    lemma_jvm_groups_emission_clean(assets.arguments.jvm.arguments_rules, platform, ctx.arch);
    lemma_classpath_clean(assets.libraries, assets.client, ctx.os_type);
    lemma_jvm_named_emission_clean(
        assets.arguments.jvm.arguments,
        natives_dir,
        ctx.launcher_name,
        ctx.launcher_version,
        cp,
    );
    lemma_heap_args_clean(ctx.ram_size_max, ctx.ram_size_min);
    lemma_game_args_emission_clean(
        assets.arguments.game.arguments,
        game_vars_of(assets, ctx),
    );
    let part_groups = jvm_groups_emission(assets.arguments.jvm.arguments_rules, platform, ctx.arch);
    let part_named = jvm_named_emission(
        assets.arguments.jvm.arguments,
        natives_dir,
        ctx.launcher_name,
        ctx.launcher_version,
        cp,
    );
    let part_heap = heap_args_spec(ctx.ram_size_max, ctx.ram_size_min);
    let part_main: Seq<Seq<char>> = seq![assets.main_class];
    let part_game = game_args_emission(assets.arguments.game.arguments, game_vars_of(assets, ctx));
    assert(all_clean(part_main));
    lemma_all_clean_concat(part_groups, part_named);
    lemma_all_clean_concat(part_groups + part_named, part_heap);
    lemma_all_clean_concat(part_groups + part_named + part_heap, part_main);
    lemma_all_clean_concat(part_groups + part_named + part_heap + part_main, part_game);
    let out = build_params_spec(assets, ctx, natives_dir);
    assert(out == part_groups + part_named + part_heap + part_main + part_game);
    assert forall|k: int| 0 <= k < out.len() implies !contains_placeholder(#[trigger] out[k]) by {
        assert(!has_dollar_brace(out[k]));
        lemma_no_dollar_brace_no_placeholder(out[k]);
    }
}

} // verus!
