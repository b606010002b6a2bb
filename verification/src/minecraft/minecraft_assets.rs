//! Resolves a version manifest document into the set of files the client
//! needs: asset objects, libraries filtered by platform rules, the client
//! jar, and the argument templates the parameter builder consumes.

use vstd::prelude::*;
use crate::LauncherError;
use crate::json::Json;
use crate::json::json_as_array;
use crate::json::json_as_int;
use crate::json::json_as_str;
use crate::json::json_get;
use crate::json::json_get_spec;
use crate::json::json_int_spec;
use crate::json::json_str_spec;
use crate::text::concat_strs;
use crate::text::contains_placeholder;
use crate::text::find_char;
use crate::text::find_char_from;
use crate::text::find_named_sep;
use crate::text::find_named_sep_from;
use crate::text::has_placeholder;
use crate::text::rfind_char;
use crate::text::rfind_char_exec;
use crate::text::str_eq;
use crate::text::substr_string;
use vstd::string::StrSliceExecFns;
use vstd::string::StringExecFns;

verus! {

// ---------------------------------------------------------------------------
// Data model
// ---------------------------------------------------------------------------

/// Whether a library entry is a plain dependency jar or a platform-native
/// archive that must be extracted before launch.
#[derive(Clone, Copy, Debug, PartialEq, Eq, Structural)]
pub enum LibrariesType {
    Artifact,
    Natives,
}

/// A required library file: where it lives locally and where it comes from.
#[derive(Debug)]
pub struct Libraries {
    pub lib_type: LibrariesType,
    pub file_name: String,
    pub file_path: String,
    pub sha1: String,
    pub size: i32,
    pub url: String,
}

/// The mathematical value of a `Libraries` entry.
pub struct LibrariesV {
    pub lib_type: LibrariesType,
    pub file_name: Seq<char>,
    pub file_path: Seq<char>,
    pub sha1: Seq<char>,
    pub size: int,
    pub url: Seq<char>,
}

impl DeepView for Libraries {
    type V = LibrariesV;

    open spec fn deep_view(&self) -> LibrariesV {
        LibrariesV {
            lib_type: self.lib_type,
            file_name: self.file_name@,
            file_path: self.file_path@,
            sha1: self.sha1@,
            size: self.size as int,
            url: self.url@,
        }
    }
}

/// A loose game resource file, stored under a hash-derived shard path.
#[derive(Debug)]
pub struct AssetObjects {
    pub file_name: String,
    pub file_path: String,
    pub sha1: String,
    pub size: i32,
    pub download_url: String,
}

/// The mathematical value of an `AssetObjects` entry.
pub struct AssetObjectsV {
    pub file_name: Seq<char>,
    pub file_path: Seq<char>,
    pub sha1: Seq<char>,
    pub size: int,
    pub download_url: Seq<char>,
}

impl DeepView for AssetObjects {
    type V = AssetObjectsV;

    open spec fn deep_view(&self) -> AssetObjectsV {
        AssetObjectsV {
            file_name: self.file_name@,
            file_path: self.file_path@,
            sha1: self.sha1@,
            size: self.size as int,
            download_url: self.download_url@,
        }
    }
}

/// The client jar download described by the manifest.
#[derive(Debug)]
pub struct ManifestClient {
    pub sha1: String,
    pub size: i32,
    pub url: String,
}

/// The mathematical value of a `ManifestClient`.
pub struct ManifestClientV {
    pub sha1: Seq<char>,
    pub size: int,
    pub url: Seq<char>,
}

impl DeepView for ManifestClient {
    type V = ManifestClientV;

    open spec fn deep_view(&self) -> ManifestClientV {
        ManifestClientV { sha1: self.sha1@, size: self.size as int, url: self.url@ }
    }
}

/// The client jar with its local location.
#[derive(Debug)]
pub struct Client {
    pub file_name: String,
    pub file_path: String,
    pub sha1: String,
    pub size: i32,
    pub url: String,
}

/// The mathematical value of a `Client`.
pub struct ClientV {
    pub file_name: Seq<char>,
    pub file_path: Seq<char>,
    pub sha1: Seq<char>,
    pub size: int,
    pub url: Seq<char>,
}

impl DeepView for Client {
    type V = ClientV;

    open spec fn deep_view(&self) -> ClientV {
        ClientV {
            file_name: self.file_name@,
            file_path: self.file_path@,
            sha1: self.sha1@,
            size: self.size as int,
            url: self.url@,
        }
    }
}

/// The asset index reference of the manifest.
#[derive(Debug)]
pub struct AssetIndex {
    pub id: String,
    pub sha1: String,
    pub size: i32,
    pub total_size: i32,
    pub url: String,
}

/// The mathematical value of an `AssetIndex`.
pub struct AssetIndexV {
    pub id: Seq<char>,
    pub sha1: Seq<char>,
    pub size: int,
    pub total_size: int,
    pub url: Seq<char>,
}

impl DeepView for AssetIndex {
    type V = AssetIndexV;

    open spec fn deep_view(&self) -> AssetIndexV {
        AssetIndexV {
            id: self.id@,
            sha1: self.sha1@,
            size: self.size as int,
            total_size: self.total_size as int,
            url: self.url@,
        }
    }
}

/// One argument template: a plain token, or a named template `name=${key}`
/// whose `value` holds the placeholder key resolved at build time.
#[derive(Debug)]
pub struct Argument {
    pub name: String,
    pub value: Option<String>,
}

/// The mathematical value of an `Argument`.
pub struct ArgumentV {
    pub name: Seq<char>,
    pub value: Option<Seq<char>>,
}

impl DeepView for Argument {
    type V = ArgumentV;

    open spec fn deep_view(&self) -> ArgumentV {
        ArgumentV { name: self.name@, value: self.value.deep_view() }
    }
}

/// The OS condition of a JVM argument rule.
#[derive(Debug)]
pub struct ArgumentsJvmRulesOSValues {
    pub name: Option<String>,
    pub arch: Option<String>,
}

/// The mathematical value of an `ArgumentsJvmRulesOSValues`.
pub struct ArgumentsJvmRulesOSValuesV {
    pub name: Option<Seq<char>>,
    pub arch: Option<Seq<char>>,
}

impl DeepView for ArgumentsJvmRulesOSValues {
    type V = ArgumentsJvmRulesOSValuesV;

    open spec fn deep_view(&self) -> ArgumentsJvmRulesOSValuesV {
        ArgumentsJvmRulesOSValuesV { name: self.name.deep_view(), arch: self.arch.deep_view() }
    }
}

/// One JVM argument rule: an action with an OS condition.
#[derive(Debug)]
pub struct ArgumentsJvmRulesValues {
    pub action: String,
    pub os: ArgumentsJvmRulesOSValues,
}

/// The mathematical value of an `ArgumentsJvmRulesValues`.
pub struct ArgumentsJvmRulesValuesV {
    pub action: Seq<char>,
    pub os: ArgumentsJvmRulesOSValuesV,
}

impl DeepView for ArgumentsJvmRulesValues {
    type V = ArgumentsJvmRulesValuesV;

    open spec fn deep_view(&self) -> ArgumentsJvmRulesValuesV {
        ArgumentsJvmRulesValuesV { action: self.action@, os: self.os.deep_view() }
    }
}

/// A conditional group of JVM argument values.
#[derive(Debug)]
pub struct ArgumentsJvmRules {
    pub rules: Vec<ArgumentsJvmRulesValues>,
    pub value: Vec<String>,
}

/// The mathematical value of an `ArgumentsJvmRules`.
pub struct ArgumentsJvmRulesV {
    pub rules: Seq<ArgumentsJvmRulesValuesV>,
    pub value: Seq<Seq<char>>,
}

impl DeepView for ArgumentsJvmRules {
    type V = ArgumentsJvmRulesV;

    open spec fn deep_view(&self) -> ArgumentsJvmRulesV {
        ArgumentsJvmRulesV { rules: self.rules.deep_view(), value: self.value.deep_view() }
    }
}

/// One game argument rule: its action. The rule's feature conditions must
/// be present in the document but are not consumed: the parameter builder
/// never emits conditional game groups.
#[derive(Debug)]
pub struct ArgumentsGameRulesValues {
    pub action: String,
}

/// The mathematical value of an `ArgumentsGameRulesValues`.
pub struct ArgumentsGameRulesValuesV {
    pub action: Seq<char>,
}

impl DeepView for ArgumentsGameRulesValues {
    type V = ArgumentsGameRulesValuesV;

    open spec fn deep_view(&self) -> ArgumentsGameRulesValuesV {
        ArgumentsGameRulesValuesV { action: self.action@ }
    }
}

/// A conditional group of game argument values.
#[derive(Debug)]
pub struct ArgumentsGameRules {
    pub rules: Vec<ArgumentsGameRulesValues>,
    pub value: Vec<String>,
}

/// The mathematical value of an `ArgumentsGameRules`.
pub struct ArgumentsGameRulesV {
    pub rules: Seq<ArgumentsGameRulesValuesV>,
    pub value: Seq<Seq<char>>,
}

impl DeepView for ArgumentsGameRules {
    type V = ArgumentsGameRulesV;

    open spec fn deep_view(&self) -> ArgumentsGameRulesV {
        ArgumentsGameRulesV { rules: self.rules.deep_view(), value: self.value.deep_view() }
    }
}

/// The game argument templates of the manifest.
#[derive(Debug)]
pub struct ArgumentGame {
    pub arguments: Vec<Argument>,
    pub arguments_rules: Vec<ArgumentsGameRules>,
}

/// The mathematical value of an `ArgumentGame`.
pub struct ArgumentGameV {
    pub arguments: Seq<ArgumentV>,
    pub arguments_rules: Seq<ArgumentsGameRulesV>,
}

impl DeepView for ArgumentGame {
    type V = ArgumentGameV;

    open spec fn deep_view(&self) -> ArgumentGameV {
        ArgumentGameV {
            arguments: self.arguments.deep_view(),
            arguments_rules: self.arguments_rules.deep_view(),
        }
    }
}

/// The JVM argument templates of the manifest.
#[derive(Debug)]
pub struct ArgumentJvm {
    pub arguments: Vec<Argument>,
    pub arguments_rules: Vec<ArgumentsJvmRules>,
}

/// The mathematical value of an `ArgumentJvm`.
pub struct ArgumentJvmV {
    pub arguments: Seq<ArgumentV>,
    pub arguments_rules: Seq<ArgumentsJvmRulesV>,
}

impl DeepView for ArgumentJvm {
    type V = ArgumentJvmV;

    open spec fn deep_view(&self) -> ArgumentJvmV {
        ArgumentJvmV {
            arguments: self.arguments.deep_view(),
            arguments_rules: self.arguments_rules.deep_view(),
        }
    }
}

/// Game and JVM argument templates together.
#[derive(Debug)]
pub struct Arguments {
    pub game: ArgumentGame,
    pub jvm: ArgumentJvm,
}

/// The mathematical value of an `Arguments`.
pub struct ArgumentsV {
    pub game: ArgumentGameV,
    pub jvm: ArgumentJvmV,
}

impl DeepView for Arguments {
    type V = ArgumentsV;

    open spec fn deep_view(&self) -> ArgumentsV {
        ArgumentsV { game: self.game.deep_view(), jvm: self.jvm.deep_view() }
    }
}

/// Everything a launch needs from one resolved version manifest.
#[derive(Debug)]
pub struct MinecraftAssets {
    pub arguments: Arguments,
    pub assets_objects: Vec<AssetObjects>,
    pub libraries: Vec<Libraries>,
    pub client: Client,
    pub main_class: String,
    pub minecraft_version: String,
    pub assets_version: String,
}

/// The mathematical value of a `MinecraftAssets`.
pub struct MinecraftAssetsV {
    pub arguments: ArgumentsV,
    pub assets_objects: Seq<AssetObjectsV>,
    pub libraries: Seq<LibrariesV>,
    pub client: ClientV,
    pub main_class: Seq<char>,
    pub minecraft_version: Seq<char>,
    pub assets_version: Seq<char>,
}

impl DeepView for MinecraftAssets {
    type V = MinecraftAssetsV;

    open spec fn deep_view(&self) -> MinecraftAssetsV {
        MinecraftAssetsV {
            arguments: self.arguments.deep_view(),
            assets_objects: self.assets_objects.deep_view(),
            libraries: self.libraries.deep_view(),
            client: self.client.deep_view(),
            main_class: self.main_class@,
            minecraft_version: self.minecraft_version@,
            assets_version: self.assets_version@,
        }
    }
}

// ---------------------------------------------------------------------------
// Rule evaluation
// ---------------------------------------------------------------------------

/// The classifier name a natives descriptor assigns to `platform`, if any.
pub open spec fn natives_classifier_spec(natives: Json, platform: Seq<char>) -> Option<Seq<char>> {
    match json_get_spec(natives, platform) {
        Some(v) => json_str_spec(v),
        None => None,
    }
}

pub open spec fn opt_natives_classifier_spec(natives: Option<Json>, platform: Seq<char>) -> Option<
    Seq<char>,
> {
    match natives {
        Some(n) => natives_classifier_spec(n, platform),
        None => None,
    }
}

/// The value behind an optional reference into a document.
pub open spec fn opt_deref(j: Option<&Json>) -> Option<Json> {
    match j {
        Some(v) => Some(*v),
        None => None,
    }
}

/// The action of a rule, where it is a string.
pub open spec fn rule_action_spec(rule: Json) -> Option<Seq<char>> {
    match json_get_spec(rule, "action"@) {
        Some(a) => json_str_spec(a),
        None => None,
    }
}

/// The OS name of a rule's condition, where it is a string.
pub open spec fn rule_os_name_spec(rule: Json) -> Option<Seq<char>> {
    match json_get_spec(rule, "os"@) {
        Some(os) => match json_get_spec(os, "name"@) {
            Some(n) => json_str_spec(n),
            None => None,
        },
        None => None,
    }
}

/// Whether a rule carries both an action and an OS name, and so decides.
pub open spec fn rule_decides_spec(rule: Json) -> bool {
    json_get_spec(rule, "action"@).is_some() && rule_os_name_spec(rule).is_some()
}

/// The verdict of a deciding rule: `allow` asks the OS name to equal the
/// platform, `disallow` asks it to differ, anything else refuses.
pub open spec fn rule_outcome_spec(rule: Json, platform: Seq<char>) -> bool {
    match (rule_action_spec(rule), rule_os_name_spec(rule)) {
        (Some(action), Some(name)) => if action == "allow"@ {
            name == platform
        } else if action == "disallow"@ {
            name != platform
        } else {
            false
        },
        _ => false,
    }
}

/// First-match-wins over a rule list: the first rule that decides gives the
/// verdict; a list where none decides allows.
pub open spec fn eval_rules_spec(rules: Seq<Json>, platform: Seq<char>) -> bool
    decreases rules.len(),
{
    if rules.len() == 0 {
        true
    } else if rule_decides_spec(rules.first()) {
        rule_outcome_spec(rules.first(), platform)
    } else {
        eval_rules_spec(rules.drop_first(), platform)
    }
}

pub open spec fn opt_rules_view(rules: Option<&Vec<Json>>) -> Option<Seq<Json>> {
    match rules {
        Some(v) => Some(v@),
        None => None,
    }
}

/// Whether a library entry applies to `platform`: with no rules, a natives
/// descriptor asks for a classifier for the platform and no descriptor
/// allows; with rules, the first deciding rule wins.
pub open spec fn is_lib_rules_spec(
    rules: Option<Seq<Json>>,
    natives: Option<Json>,
    platform: Seq<char>,
) -> bool {
    match rules {
        None => match natives {
            Some(n) => natives_classifier_spec(n, platform).is_some(),
            None => true,
        },
        Some(rs) => eval_rules_spec(rs, platform),
    }
}

/// Looks the current platform up in a natives descriptor.
pub fn get_natives_sys_obj_value(natives: Option<&Json>, system: &str) -> (r: Option<String>)
    ensures
        match r {
            Some(s) => opt_natives_classifier_spec(opt_deref(natives), system@) == Some(s@),
            None => opt_natives_classifier_spec(opt_deref(natives), system@).is_none(),
        },
{
    match natives {
        Some(n) => match json_get(n, system) {
            Some(v) => match json_as_str(v) {
                Some(s) => Some(s.clone()),
                None => None,
            },
            None => None,
        },
        None => None,
    }
}

/// The OS name of a rule's condition.
fn rule_os_name<'a>(rule: &'a Json) -> (r: Option<&'a String>)
    ensures
        match r {
            Some(s) => rule_os_name_spec(*rule) == Some(s@),
            None => rule_os_name_spec(*rule).is_none(),
        },
{
    match json_get(rule, "os") {
        Some(os) => match json_get(os, "name") {
            Some(n) => json_as_str(n),
            None => None,
        },
        None => None,
    }
}

/// Decides whether a library entry applies to `platform`.
pub fn is_lib_rules(rules: Option<&Vec<Json>>, natives: Option<&Json>, platform: &str) -> (r: bool)
    ensures
        r == is_lib_rules_spec(opt_rules_view(rules), opt_deref(natives), platform@),
{
    match rules {
        None => {
            if natives.is_some() {
                let system_value = get_natives_sys_obj_value(natives, platform);
                system_value.is_some()
            } else {
                true
            }
        },
        Some(rule_list) => {
            let n = rule_list.len();
            let mut i: usize = 0;
            proof {
                assert(rule_list@.skip(0) =~= rule_list@);
            }
            while i < n
                invariant
                    i <= n,
                    n == rule_list@.len(),
                    is_lib_rules_spec(opt_rules_view(rules), opt_deref(natives), platform@)
                        == eval_rules_spec(rule_list@, platform@),
                    eval_rules_spec(rule_list@, platform@) == eval_rules_spec(
                        rule_list@.skip(i as int),
                        platform@,
                    ),
                decreases n - i,
            {
                let rule = &rule_list[i];
                proof {
                    assert(rule_list@.skip(i as int).first() == rule_list@[i as int]);
                    assert(rule_list@.skip(i as int).drop_first() =~= rule_list@.skip(i + 1));
                }
                let action = json_get(rule, "action");
                let os_name = rule_os_name(rule);
                if action.is_some() && os_name.is_some() {
                    let verdict = match json_as_str(action.unwrap()) {
                        Some(a) => {
                            if str_eq(a.as_str(), "allow") {
                                str_eq(os_name.unwrap().as_str(), platform)
                            } else if str_eq(a.as_str(), "disallow") {
                                !str_eq(os_name.unwrap().as_str(), platform)
                            } else {
                                false
                            }
                        },
                        None => false,
                    };
                    return verdict;
                }
                i += 1;
            }
            true
        },
    }
}

/// An empty rule list allows whatever the natives descriptor says; a
/// rule-less entry with a natives descriptor allows exactly when the
/// platform has a classifier in it.
pub proof fn lemma_rule_evaluator_defaults(natives: Option<Json>, platform: Seq<char>, n: Json)
    ensures
        is_lib_rules_spec(Some(Seq::<Json>::empty()), natives, platform) == true,
        is_lib_rules_spec(None, Some(n), platform) == natives_classifier_spec(
            n,
            platform,
        ).is_some(),
{
}

// ---------------------------------------------------------------------------
// Required document fields
// ---------------------------------------------------------------------------

pub open spec fn in_i32_range(n: int) -> bool {
    -0x8000_0000 <= n <= 0x7fff_ffff
}

/// A member that must be present and a string.
pub open spec fn req_str_field(j: Json, key: Seq<char>) -> Result<Seq<char>, LauncherError> {
    match json_get_spec(j, key) {
        Some(v) => match json_str_spec(v) {
            Some(s) => Ok(s),
            None => Err(LauncherError::SchemaError),
        },
        None => Err(LauncherError::SchemaError),
    }
}

/// A member that must be present and an integer that fits a 32-bit size.
pub open spec fn req_i32_field(j: Json, key: Seq<char>) -> Result<int, LauncherError> {
    match json_get_spec(j, key) {
        Some(v) => match json_int_spec(v) {
            Some(n) => if in_i32_range(n) {
                Ok(n)
            } else {
                Err(LauncherError::SchemaError)
            },
            None => Err(LauncherError::SchemaError),
        },
        None => Err(LauncherError::SchemaError),
    }
}

/// Reads a required string member.
fn get_str_field(j: &Json, key: &str) -> (r: Result<String, LauncherError>)
    ensures
        match r {
            Ok(s) => req_str_field(*j, key@) == Ok::<Seq<char>, LauncherError>(s@),
            Err(e) => req_str_field(*j, key@) == Err::<Seq<char>, LauncherError>(e),
        },
{
    match json_get(j, key) {
        Some(v) => match json_as_str(v) {
            Some(s) => Ok(s.clone()),
            None => Err(LauncherError::SchemaError),
        },
        None => Err(LauncherError::SchemaError),
    }
}

/// Reads a required size member.
fn get_i32_field(j: &Json, key: &str) -> (r: Result<i32, LauncherError>)
    ensures
        match r {
            Ok(n) => req_i32_field(*j, key@) == Ok::<int, LauncherError>(n as int),
            Err(e) => req_i32_field(*j, key@) == Err::<int, LauncherError>(e),
        },
{
    match json_get(j, key) {
        Some(v) => match json_as_int(v) {
            Some(n) => {
                if n >= -0x8000_0000i64 && n <= 0x7fff_ffffi64 {
                    Ok(n as i32)
                } else {
                    Err(LauncherError::SchemaError)
                }
            },
            None => Err(LauncherError::SchemaError),
        },
        None => Err(LauncherError::SchemaError),
    }
}

// ---------------------------------------------------------------------------
// Argument templates
// ---------------------------------------------------------------------------

/// Where a bare string is a named template `name=${key}...}`: the position
/// of its separator and of the `}` that closes the key.
pub open spec fn named_match_spec(s: Seq<char>) -> Option<(int, int)> {
    match find_named_sep_from(s, 0) {
        Some(i0) => match find_char_from(s, '}', i0 + 3) {
            Some(j0) => Some((i0, j0)),
            None => None,
        },
        None => None,
    }
}

/// What becomes of a bare manifest argument string: a named template keeps
/// the text before `=${` and the placeholder key; a string without any
/// placeholder passes through; any other placeholder-bearing string is
/// dropped as unresolvable.
pub open spec fn parse_string_argument_spec(s: Seq<char>) -> Option<ArgumentV> {
    match named_match_spec(s) {
        Some((i0, j0)) => Some(
            ArgumentV { name: s.subrange(0, i0), value: Some(s.subrange(i0 + 3, j0)) },
        ),
        None => if contains_placeholder(s) {
            None
        } else {
            Some(ArgumentV { name: s, value: None })
        },
    }
}

/// Classifies one bare manifest argument string.
pub fn parse_string_argument(s: &str) -> (r: Option<Argument>)
    ensures
        match r {
            Some(a) => parse_string_argument_spec(s@) == Some(a.deep_view()),
            None => parse_string_argument_spec(s@).is_none(),
        },
{
    let len = s.unicode_len();
    match find_named_sep(s) {
        Some(i0) => {
            assert(i0 + 3 <= len);
            match find_char(s, '}', i0 + 3) {
                Some(j0) => {
                    let name = substr_string(s, 0, i0);
                    let key = substr_string(s, i0 + 3, j0);
                    Some(Argument { name, value: Some(key) })
                },
                None => {
                    if has_placeholder(s) {
                        None
                    } else {
                        Some(Argument { name: String::from_str(s), value: None })
                    }
                },
            }
        },
        None => {
            if has_placeholder(s) {
                None
            } else {
                Some(Argument { name: String::from_str(s), value: None })
            }
        },
    }
}

/// The texts of a sequence of string values; any other value is malformed.
pub open spec fn string_values_spec(vals: Seq<Json>) -> Result<Seq<Seq<char>>, LauncherError>
    decreases vals.len(),
{
    if vals.len() == 0 {
        Ok(Seq::<Seq<char>>::empty())
    } else {
        match string_values_spec(vals.drop_last()) {
            Err(e) => Err(e),
            Ok(pre) => match json_str_spec(vals.last()) {
                Some(s) => Ok(pre.push(s)),
                None => Err(LauncherError::SchemaError),
            },
        }
    }
}

proof fn lemma_string_values_err(vals: Seq<Json>, i: int)
    requires
        0 <= i <= vals.len(),
        string_values_spec(vals.subrange(0, i)).is_err(),
    ensures
        string_values_spec(vals) == string_values_spec(vals.subrange(0, i)),
    decreases vals.len() - i,
{
    if i < vals.len() {
        assert(vals.subrange(0, i + 1).drop_last() =~= vals.subrange(0, i));
        lemma_string_values_err(vals, i + 1);
    } else {
        assert(vals.subrange(0, i) =~= vals);
    }
}

/// Collects the texts of an array of string values.
fn json_string_values(vals: &Vec<Json>) -> (r: Result<Vec<String>, LauncherError>)
    ensures
        match r {
            Ok(v) => string_values_spec(vals@) == Ok::<_, LauncherError>(v.deep_view()),
            Err(e) => string_values_spec(vals@) == Err::<Seq<Seq<char>>, LauncherError>(e),
        },
{
    let mut out: Vec<String> = Vec::new();
    let mut i: usize = 0;
    proof {
        assert(vals@.subrange(0, 0) =~= Seq::<Json>::empty());
        assert(out.deep_view() =~= Seq::<Seq<char>>::empty());
    }
    while i < vals.len()
        invariant
            i <= vals@.len(),
            string_values_spec(vals@.subrange(0, i as int)) == Ok::<_, LauncherError>(
                out.deep_view(),
            ),
        decreases vals@.len() - i,
    {
        proof {
            assert(vals@.subrange(0, i + 1).drop_last() =~= vals@.subrange(0, i as int));
            assert(vals@.subrange(0, i + 1).last() == vals@[i as int]);
        }
        match json_as_str(&vals[i]) {
            Some(s) => {
                let ghost old_dv = out.deep_view();
                out.push(s.clone());
                proof {
                    assert(out.deep_view() =~= old_dv.push(vals@[i as int]->Str_0@));
                }
            },
            None => {
                proof {
                    lemma_string_values_err(vals@, i + 1);
                }
                return Err(LauncherError::SchemaError);
            },
        }
        i += 1;
    }
    proof {
        assert(vals@.subrange(0, vals@.len() as int) =~= vals@);
    }
    Ok(out)
}

/// The values of a conditional group: an array of strings, or one string.
pub open spec fn group_values_spec(value_j: Json) -> Result<Seq<Seq<char>>, LauncherError> {
    match value_j {
        Json::Arr(a) => string_values_spec(a@),
        Json::Str(s) => Ok(seq![s@]),
        _ => Err(LauncherError::SchemaError),
    }
}

/// Collects the values of a conditional group.
fn group_values(value_j: &Json) -> (r: Result<Vec<String>, LauncherError>)
    ensures
        match r {
            Ok(v) => group_values_spec(*value_j) == Ok::<_, LauncherError>(v.deep_view()),
            Err(e) => group_values_spec(*value_j) == Err::<Seq<Seq<char>>, LauncherError>(e),
        },
{
    match value_j {
        Json::Arr(a) => json_string_values(a),
        Json::Str(s) => {
            let out: Vec<String> = vec![s.clone()];
            proof {
                assert(out.deep_view() =~= seq![s@]);
            }
            Ok(out)
        },
        _ => Err(LauncherError::SchemaError),
    }
}

/// A string member of the rule's OS condition, if present.
pub open spec fn os_field_str_spec(rule: Json, field: Seq<char>) -> Option<Seq<char>> {
    match json_get_spec(rule, "os"@) {
        Some(os) => match json_get_spec(os, field) {
            Some(v) => json_str_spec(v),
            None => None,
        },
        None => None,
    }
}

fn rule_os_str(rule: &Json, field: &str) -> (r: Option<String>)
    ensures
        match r {
            Some(s) => os_field_str_spec(*rule, field@) == Some(s@),
            None => os_field_str_spec(*rule, field@).is_none(),
        },
{
    match json_get(rule, "os") {
        Some(os) => match json_get(os, field) {
            Some(v) => match json_as_str(v) {
                Some(s) => Some(s.clone()),
                None => None,
            },
            None => None,
        },
        None => None,
    }
}

/// The first rule of a conditional JVM group: its action and OS condition.
pub open spec fn jvm_rule0_spec(r0: Json) -> Result<ArgumentsJvmRulesValuesV, LauncherError> {
    match json_get_spec(r0, "action"@) {
        None => Err(LauncherError::SchemaError),
        Some(aj) => match json_str_spec(aj) {
            None => Err(LauncherError::SchemaError),
            Some(action) => Ok(
                ArgumentsJvmRulesValuesV {
                    action,
                    os: ArgumentsJvmRulesOSValuesV {
                        name: os_field_str_spec(r0, "name"@),
                        arch: os_field_str_spec(r0, "arch"@),
                    },
                },
            ),
        },
    }
}

/// A conditional JVM group: its first rule and its values; a group without
/// values is dropped.
pub open spec fn jvm_group_spec(e: Json) -> Result<Option<ArgumentsJvmRulesV>, LauncherError> {
    match json_get_spec(e, "rules"@) {
        None => Err(LauncherError::SchemaError),
        Some(rj) => match rj {
            Json::Arr(rl) => if rl@.len() == 0 {
                Err(LauncherError::SchemaError)
            } else {
                match jvm_rule0_spec(rl@[0]) {
                    Err(e2) => Err(e2),
                    Ok(rule) => match json_get_spec(e, "value"@) {
                        None => Err(LauncherError::SchemaError),
                        Some(vj) => match group_values_spec(vj) {
                            Err(e2) => Err(e2),
                            Ok(vals) => if vals.len() == 0 {
                                Ok(None)
                            } else {
                                Ok(Some(ArgumentsJvmRulesV { rules: seq![rule], value: vals }))
                            },
                        },
                    },
                }
            },
            _ => Err(LauncherError::SchemaError),
        },
    }
}

fn get_jvm_group(e: &Json) -> (r: Result<Option<ArgumentsJvmRules>, LauncherError>)
    ensures
        match r {
            Ok(Some(g)) => jvm_group_spec(*e) == Ok::<_, LauncherError>(Some(g.deep_view())),
            Ok(None) => jvm_group_spec(*e) == Ok::<Option<ArgumentsJvmRulesV>, LauncherError>(None),
            Err(e2) => jvm_group_spec(*e) == Err::<Option<ArgumentsJvmRulesV>, LauncherError>(e2),
        },
{
    let rules_j = match json_get(e, "rules") {
        Some(r) => r,
        None => {
            return Err(LauncherError::SchemaError);
        },
    };
    let rules_arr = match json_as_array(rules_j) {
        Some(a) => a,
        None => {
            return Err(LauncherError::SchemaError);
        },
    };
    if rules_arr.len() == 0 {
        return Err(LauncherError::SchemaError);
    }
    let r0 = &rules_arr[0];
    let action = match get_str_field(r0, "action") {
        Ok(a) => a,
        Err(e2) => {
            return Err(e2);
        },
    };
    let os_name = rule_os_str(r0, "name");
    let os_arch = rule_os_str(r0, "arch");
    let value_j = match json_get(e, "value") {
        Some(v) => v,
        None => {
            return Err(LauncherError::SchemaError);
        },
    };
    let values = match group_values(value_j) {
        Ok(v) => v,
        Err(e2) => {
            return Err(e2);
        },
    };
    if values.len() == 0 {
        return Ok(None);
    }
    let rule = ArgumentsJvmRulesValues {
        action,
        os: ArgumentsJvmRulesOSValues { name: os_name, arch: os_arch },
    };
    let rules_vec: Vec<ArgumentsJvmRulesValues> = vec![rule];
    proof {
        assert(rules_vec.deep_view() =~= seq![rules_vec@[0].deep_view()]);
    }
    Ok(Some(ArgumentsJvmRules { rules: rules_vec, value: values }))
}

/// The parsed JVM argument templates of a prefix of the manifest's list.
pub open spec fn jvm_args_spec(entries: Seq<Json>) -> Result<ArgumentJvmV, LauncherError>
    decreases entries.len(),
{
    if entries.len() == 0 {
        Ok(
            ArgumentJvmV {
                arguments: Seq::<ArgumentV>::empty(),
                arguments_rules: Seq::<ArgumentsJvmRulesV>::empty(),
            },
        )
    } else {
        match jvm_args_spec(entries.drop_last()) {
            Err(e) => Err(e),
            Ok(acc) => match entries.last() {
                Json::Str(s) => Ok(
                    ArgumentJvmV {
                        arguments: match parse_string_argument_spec(s@) {
                            Some(a) => acc.arguments.push(a),
                            None => acc.arguments,
                        },
                        arguments_rules: acc.arguments_rules,
                    },
                ),
                e => match jvm_group_spec(e) {
                    Err(e2) => Err(e2),
                    Ok(None) => Ok(acc),
                    Ok(Some(g)) => Ok(
                        ArgumentJvmV {
                            arguments: acc.arguments,
                            arguments_rules: acc.arguments_rules.push(g),
                        },
                    ),
                },
            },
        }
    }
}

proof fn lemma_jvm_args_err(entries: Seq<Json>, i: int)
    requires
        0 <= i <= entries.len(),
        jvm_args_spec(entries.subrange(0, i)).is_err(),
    ensures
        jvm_args_spec(entries) == jvm_args_spec(entries.subrange(0, i)),
    decreases entries.len() - i,
{
    if i < entries.len() {
        assert(entries.subrange(0, i + 1).drop_last() =~= entries.subrange(0, i));
        lemma_jvm_args_err(entries, i + 1);
    } else {
        assert(entries.subrange(0, i) =~= entries);
    }
}

/// Parses the manifest's JVM argument list: bare strings become plain or
/// named templates, objects become conditional groups.
pub fn get_jvm_arguments(arguments_jvm: &Vec<Json>) -> (r: Result<ArgumentJvm, LauncherError>)
    ensures
        match r {
            Ok(a) => jvm_args_spec(arguments_jvm@) == Ok::<_, LauncherError>(a.deep_view()),
            Err(e) => jvm_args_spec(arguments_jvm@) == Err::<ArgumentJvmV, LauncherError>(e),
        },
{
    let mut arguments: Vec<Argument> = Vec::new();
    let mut arguments_rules: Vec<ArgumentsJvmRules> = Vec::new();
    let mut i: usize = 0;
    proof {
        assert(arguments_jvm@.subrange(0, 0) =~= Seq::<Json>::empty());
        assert(arguments.deep_view() =~= Seq::<ArgumentV>::empty());
        assert(arguments_rules.deep_view() =~= Seq::<ArgumentsJvmRulesV>::empty());
    }
    while i < arguments_jvm.len()
        invariant
            i <= arguments_jvm@.len(),
            jvm_args_spec(arguments_jvm@.subrange(0, i as int)) == Ok::<_, LauncherError>(
                ArgumentJvmV {
                    arguments: arguments.deep_view(),
                    arguments_rules: arguments_rules.deep_view(),
                },
            ),
        decreases arguments_jvm@.len() - i,
    {
        proof {
            assert(arguments_jvm@.subrange(0, i + 1).drop_last() =~= arguments_jvm@.subrange(
                0,
                i as int,
            ));
            assert(arguments_jvm@.subrange(0, i + 1).last() == arguments_jvm@[i as int]);
        }
        let entry = &arguments_jvm[i];
        match entry {
            Json::Str(s) => {
                match parse_string_argument(s.as_str()) {
                    Some(a) => {
                        let ghost old_dv = arguments.deep_view();
                        let ghost av = a.deep_view();
                        arguments.push(a);
                        proof {
                            assert(arguments.deep_view() =~= old_dv.push(av));
                        }
                    },
                    None => {},
                }
            },
            _ => {
                match get_jvm_group(entry) {
                    Ok(Some(g)) => {
                        let ghost old_dv = arguments_rules.deep_view();
                        let ghost gv = g.deep_view();
                        arguments_rules.push(g);
                        proof {
                            assert(arguments_rules.deep_view() =~= old_dv.push(gv));
                        }
                    },
                    Ok(None) => {},
                    Err(e) => {
                        proof {
                            lemma_jvm_args_err(arguments_jvm@, i + 1);
                        }
                        return Err(e);
                    },
                }
            },
        }
        i += 1;
    }
    proof {
        assert(arguments_jvm@.subrange(0, arguments_jvm@.len() as int) =~= arguments_jvm@);
    }
    Ok(ArgumentJvm { arguments, arguments_rules })
}

/// The first rule of a conditional game group: its action; its feature
/// conditions must be present.
pub open spec fn game_rule0_spec(r0: Json) -> Result<ArgumentsGameRulesValuesV, LauncherError> {
    match json_get_spec(r0, "action"@) {
        None => Err(LauncherError::SchemaError),
        Some(aj) => match json_str_spec(aj) {
            None => Err(LauncherError::SchemaError),
            Some(action) => if json_get_spec(r0, "features"@).is_some() {
                Ok(ArgumentsGameRulesValuesV { action })
            } else {
                Err(LauncherError::SchemaError)
            },
        },
    }
}

/// A conditional game group: its first rule and its values; a group without
/// values is dropped.
pub open spec fn game_group_spec(e: Json) -> Result<Option<ArgumentsGameRulesV>, LauncherError> {
    match json_get_spec(e, "rules"@) {
        None => Err(LauncherError::SchemaError),
        Some(rj) => match rj {
            Json::Arr(rl) => if rl@.len() == 0 {
                Err(LauncherError::SchemaError)
            } else {
                match game_rule0_spec(rl@[0]) {
                    Err(e2) => Err(e2),
                    Ok(rule) => match json_get_spec(e, "value"@) {
                        None => Err(LauncherError::SchemaError),
                        Some(vj) => match group_values_spec(vj) {
                            Err(e2) => Err(e2),
                            Ok(vals) => if vals.len() == 0 {
                                Ok(None)
                            } else {
                                Ok(Some(ArgumentsGameRulesV { rules: seq![rule], value: vals }))
                            },
                        },
                    },
                }
            },
            _ => Err(LauncherError::SchemaError),
        },
    }
}

fn get_game_group(e: &Json) -> (r: Result<Option<ArgumentsGameRules>, LauncherError>)
    ensures
        match r {
            Ok(Some(g)) => game_group_spec(*e) == Ok::<_, LauncherError>(Some(g.deep_view())),
            Ok(None) => game_group_spec(*e) == Ok::<Option<ArgumentsGameRulesV>, LauncherError>(
                None,
            ),
            Err(e2) => game_group_spec(*e) == Err::<Option<ArgumentsGameRulesV>, LauncherError>(
                e2,
            ),
        },
{
    let rules_j = match json_get(e, "rules") {
        Some(r) => r,
        None => {
            return Err(LauncherError::SchemaError);
        },
    };
    let rules_arr = match json_as_array(rules_j) {
        Some(a) => a,
        None => {
            return Err(LauncherError::SchemaError);
        },
    };
    if rules_arr.len() == 0 {
        return Err(LauncherError::SchemaError);
    }
    let r0 = &rules_arr[0];
    let action = match get_str_field(r0, "action") {
        Ok(a) => a,
        Err(e2) => {
            return Err(e2);
        },
    };
    if json_get(r0, "features").is_none() {
        return Err(LauncherError::SchemaError);
    }
    let value_j = match json_get(e, "value") {
        Some(v) => v,
        None => {
            return Err(LauncherError::SchemaError);
        },
    };
    let values = match group_values(value_j) {
        Ok(v) => v,
        Err(e2) => {
            return Err(e2);
        },
    };
    if values.len() == 0 {
        return Ok(None);
    }
    let rules_vec: Vec<ArgumentsGameRulesValues> = vec![ArgumentsGameRulesValues { action }];
    proof {
        assert(rules_vec.deep_view() =~= seq![rules_vec@[0].deep_view()]);
    }
    Ok(Some(ArgumentsGameRules { rules: rules_vec, value: values }))
}

/// The parsed game argument templates of a prefix of the manifest's list.
pub open spec fn game_args_spec(entries: Seq<Json>) -> Result<ArgumentGameV, LauncherError>
    decreases entries.len(),
{
    if entries.len() == 0 {
        Ok(
            ArgumentGameV {
                arguments: Seq::<ArgumentV>::empty(),
                arguments_rules: Seq::<ArgumentsGameRulesV>::empty(),
            },
        )
    } else {
        match game_args_spec(entries.drop_last()) {
            Err(e) => Err(e),
            Ok(acc) => match entries.last() {
                Json::Str(s) => Ok(
                    ArgumentGameV {
                        arguments: match parse_string_argument_spec(s@) {
                            Some(a) => acc.arguments.push(a),
                            None => acc.arguments,
                        },
                        arguments_rules: acc.arguments_rules,
                    },
                ),
                e => match game_group_spec(e) {
                    Err(e2) => Err(e2),
                    Ok(None) => Ok(acc),
                    Ok(Some(g)) => Ok(
                        ArgumentGameV {
                            arguments: acc.arguments,
                            arguments_rules: acc.arguments_rules.push(g),
                        },
                    ),
                },
            },
        }
    }
}

proof fn lemma_game_args_err(entries: Seq<Json>, i: int)
    requires
        0 <= i <= entries.len(),
        game_args_spec(entries.subrange(0, i)).is_err(),
    ensures
        game_args_spec(entries) == game_args_spec(entries.subrange(0, i)),
    decreases entries.len() - i,
{
    if i < entries.len() {
        assert(entries.subrange(0, i + 1).drop_last() =~= entries.subrange(0, i));
        lemma_game_args_err(entries, i + 1);
    } else {
        assert(entries.subrange(0, i) =~= entries);
    }
}

/// Parses the manifest's game argument list.
pub fn get_game_arguments(arguments_game: &Vec<Json>) -> (r: Result<ArgumentGame, LauncherError>)
    ensures
        match r {
            Ok(a) => game_args_spec(arguments_game@) == Ok::<_, LauncherError>(a.deep_view()),
            Err(e) => game_args_spec(arguments_game@) == Err::<ArgumentGameV, LauncherError>(e),
        },
{
    let mut arguments: Vec<Argument> = Vec::new();
    let mut arguments_rules: Vec<ArgumentsGameRules> = Vec::new();
    let mut i: usize = 0;
    proof {
        assert(arguments_game@.subrange(0, 0) =~= Seq::<Json>::empty());
        assert(arguments.deep_view() =~= Seq::<ArgumentV>::empty());
        assert(arguments_rules.deep_view() =~= Seq::<ArgumentsGameRulesV>::empty());
    }
    while i < arguments_game.len()
        invariant
            i <= arguments_game@.len(),
            game_args_spec(arguments_game@.subrange(0, i as int)) == Ok::<_, LauncherError>(
                ArgumentGameV {
                    arguments: arguments.deep_view(),
                    arguments_rules: arguments_rules.deep_view(),
                },
            ),
        decreases arguments_game@.len() - i,
    {
        proof {
            assert(arguments_game@.subrange(0, i + 1).drop_last() =~= arguments_game@.subrange(
                0,
                i as int,
            ));
            assert(arguments_game@.subrange(0, i + 1).last() == arguments_game@[i as int]);
        }
        let entry = &arguments_game[i];
        match entry {
            Json::Str(s) => {
                match parse_string_argument(s.as_str()) {
                    Some(a) => {
                        let ghost old_dv = arguments.deep_view();
                        let ghost av = a.deep_view();
                        arguments.push(a);
                        proof {
                            assert(arguments.deep_view() =~= old_dv.push(av));
                        }
                    },
                    None => {},
                }
            },
            _ => {
                match get_game_group(entry) {
                    Ok(Some(g)) => {
                        let ghost old_dv = arguments_rules.deep_view();
                        let ghost gv = g.deep_view();
                        arguments_rules.push(g);
                        proof {
                            assert(arguments_rules.deep_view() =~= old_dv.push(gv));
                        }
                    },
                    Ok(None) => {},
                    Err(e) => {
                        proof {
                            lemma_game_args_err(arguments_game@, i + 1);
                        }
                        return Err(e);
                    },
                }
            },
        }
        i += 1;
    }
    proof {
        assert(arguments_game@.subrange(0, arguments_game@.len() as int) =~= arguments_game@);
    }
    Ok(ArgumentGame { arguments, arguments_rules })
}

/// The game and JVM argument templates of the manifest's `arguments` member.
pub open spec fn arguments_spec(m: Json) -> Result<ArgumentsV, LauncherError> {
    match json_get_spec(m, "game"@) {
        Some(Json::Arr(g)) => match game_args_spec(g@) {
            Err(e) => Err(e),
            Ok(game) => match json_get_spec(m, "jvm"@) {
                Some(Json::Arr(jv)) => match jvm_args_spec(jv@) {
                    Err(e) => Err(e),
                    Ok(jvm) => Ok(ArgumentsV { game, jvm }),
                },
                _ => Err(LauncherError::SchemaError),
            },
        },
        _ => Err(LauncherError::SchemaError),
    }
}

/// Parses the manifest's `arguments` member.
pub fn get_arguments(manifest_arguments: &Json) -> (r: Result<Arguments, LauncherError>)
    ensures
        match r {
            Ok(a) => arguments_spec(*manifest_arguments) == Ok::<_, LauncherError>(a.deep_view()),
            Err(e) => arguments_spec(*manifest_arguments) == Err::<ArgumentsV, LauncherError>(e),
        },
{
    let game_j = match json_get(manifest_arguments, "game") {
        Some(v) => v,
        None => {
            return Err(LauncherError::SchemaError);
        },
    };
    let game_arr = match json_as_array(game_j) {
        Some(a) => a,
        None => {
            return Err(LauncherError::SchemaError);
        },
    };
    let game = match get_game_arguments(game_arr) {
        Ok(g) => g,
        Err(e) => {
            return Err(e);
        },
    };
    let jvm_j = match json_get(manifest_arguments, "jvm") {
        Some(v) => v,
        None => {
            return Err(LauncherError::SchemaError);
        },
    };
    let jvm_arr = match json_as_array(jvm_j) {
        Some(a) => a,
        None => {
            return Err(LauncherError::SchemaError);
        },
    };
    let jvm = match get_jvm_arguments(jvm_arr) {
        Ok(g) => g,
        Err(e) => {
            return Err(e);
        },
    };
    Ok(Arguments { game, jvm })
}

// ---------------------------------------------------------------------------
// Libraries
// ---------------------------------------------------------------------------

/// The last `/`-separated segment of a path: its file name.
pub open spec fn last_segment_spec(path: Seq<char>) -> Seq<char> {
    match rfind_char(path, '/') {
        Some(i) => path.subrange(i + 1, path.len() as int),
        None => path,
    }
}

/// Copies the file name out of a `/`-separated path.
fn last_segment(path: &str) -> (r: String)
    ensures
        r@ == last_segment_spec(path@),
{
    let len = path.unicode_len();
    match rfind_char_exec(path, '/') {
        Some(i) => substr_string(path, i + 1, len),
        None => String::from_str(path),
    }
}

/// A downloadable artifact member: its repository path, digest, size and
/// source URL, shaped into a library entry.
pub open spec fn artifact_entry_spec(
    j: Json,
    lib_type: LibrariesType,
    common_dir: Seq<char>,
) -> Result<LibrariesV, LauncherError> {
    match req_str_field(j, "path"@) {
        Err(e) => Err(e),
        Ok(path) => match req_str_field(j, "sha1"@) {
            Err(e) => Err(e),
            Ok(sha1) => match req_i32_field(j, "size"@) {
                Err(e) => Err(e),
                Ok(size) => match req_str_field(j, "url"@) {
                    Err(e) => Err(e),
                    Ok(url) => Ok(
                        LibrariesV {
                            lib_type,
                            file_name: last_segment_spec(path),
                            file_path: common_dir + "/libraries/"@ + path,
                            sha1,
                            size,
                            url,
                        },
                    ),
                },
            },
        },
    }
}

fn parse_lib_artifact(j: &Json, lib_type: LibrariesType, common_dir: &str) -> (r: Result<
    Libraries,
    LauncherError,
>)
    ensures
        match r {
            Ok(l) => artifact_entry_spec(*j, lib_type, common_dir@) == Ok::<_, LauncherError>(
                l.deep_view(),
            ),
            Err(e) => artifact_entry_spec(*j, lib_type, common_dir@) == Err::<
                LibrariesV,
                LauncherError,
            >(e),
        },
{
    let path = match get_str_field(j, "path") {
        Ok(s) => s,
        Err(e) => {
            return Err(e);
        },
    };
    let sha1 = match get_str_field(j, "sha1") {
        Ok(s) => s,
        Err(e) => {
            return Err(e);
        },
    };
    let size = match get_i32_field(j, "size") {
        Ok(n) => n,
        Err(e) => {
            return Err(e);
        },
    };
    let url = match get_str_field(j, "url") {
        Ok(s) => s,
        Err(e) => {
            return Err(e);
        },
    };
    let file_name = last_segment(path.as_str());
    let file_path = concat_strs(common_dir, "/libraries/").concat(path.as_str());
    Ok(Libraries { lib_type, file_name, file_path, sha1, size, url })
}

/// What one manifest library entry yields on `platform`: a library entry,
/// or nothing when its rules or missing classifier exclude it.
pub open spec fn library_entry_spec(
    lib: Json,
    platform: Seq<char>,
    common_dir: Seq<char>,
) -> Result<Option<LibrariesV>, LauncherError> {
    match json_get_spec(lib, "rules"@) {
        Some(rj) => match rj {
            Json::Arr(v) => library_entry_body_spec(lib, Some(v@), platform, common_dir),
            _ => Err(LauncherError::SchemaError),
        },
        None => library_entry_body_spec(lib, None, platform, common_dir),
    }
}

pub open spec fn library_entry_body_spec(
    lib: Json,
    rules: Option<Seq<Json>>,
    platform: Seq<char>,
    common_dir: Seq<char>,
) -> Result<Option<LibrariesV>, LauncherError> {
    let natives = json_get_spec(lib, "natives"@);
    if !is_lib_rules_spec(rules, natives, platform) {
        Ok(None)
    } else {
        match json_get_spec(lib, "downloads"@) {
            None => Err(LauncherError::SchemaError),
            Some(dl) => match natives {
                None => match json_get_spec(dl, "artifact"@) {
                    None => Err(LauncherError::SchemaError),
                    Some(aj) => match artifact_entry_spec(aj, LibrariesType::Artifact, common_dir) {
                        Err(e) => Err(e),
                        Ok(l) => Ok(Some(l)),
                    },
                },
                Some(natives_j) => match natives_classifier_spec(natives_j, platform) {
                    None => Ok(None),
                    Some(cls) => match json_get_spec(dl, "classifiers"@) {
                        None => Err(LauncherError::SchemaError),
                        Some(cj) => match json_get_spec(cj, cls) {
                            None => Ok(None),
                            Some(aj) => match artifact_entry_spec(
                                aj,
                                LibrariesType::Natives,
                                common_dir,
                            ) {
                                Err(e) => Err(e),
                                Ok(l) => Ok(Some(l)),
                            },
                        },
                    },
                },
            },
        }
    }
}

fn library_entry(lib: &Json, platform: &str, common_dir: &str) -> (r: Result<
    Option<Libraries>,
    LauncherError,
>)
    ensures
        match r {
            Ok(Some(l)) => library_entry_spec(*lib, platform@, common_dir@) == Ok::<
                _,
                LauncherError,
            >(Some(l.deep_view())),
            Ok(None) => library_entry_spec(*lib, platform@, common_dir@) == Ok::<
                Option<LibrariesV>,
                LauncherError,
            >(None),
            Err(e) => library_entry_spec(*lib, platform@, common_dir@) == Err::<
                Option<LibrariesV>,
                LauncherError,
            >(e),
        },
{
    let rules: Option<&Vec<Json>> = match json_get(lib, "rules") {
        Some(rj) => match json_as_array(rj) {
            Some(v) => Some(v),
            None => {
                return Err(LauncherError::SchemaError);
            },
        },
        None => None,
    };
    let natives = json_get(lib, "natives");
    if !is_lib_rules(rules, natives, platform) {
        return Ok(None);
    }
    let dl = match json_get(lib, "downloads") {
        Some(d) => d,
        None => {
            return Err(LauncherError::SchemaError);
        },
    };
    match natives {
        None => {
            let aj = match json_get(dl, "artifact") {
                Some(a) => a,
                None => {
                    return Err(LauncherError::SchemaError);
                },
            };
            match parse_lib_artifact(aj, LibrariesType::Artifact, common_dir) {
                Ok(l) => Ok(Some(l)),
                Err(e) => Err(e),
            }
        },
        Some(_) => {
            let cls = match get_natives_sys_obj_value(natives, platform) {
                Some(c) => c,
                None => {
                    return Ok(None);
                },
            };
            let cj = match json_get(dl, "classifiers") {
                Some(c) => c,
                None => {
                    return Err(LauncherError::SchemaError);
                },
            };
            let aj = match json_get(cj, cls.as_str()) {
                Some(a) => a,
                None => {
                    return Ok(None);
                },
            };
            match parse_lib_artifact(aj, LibrariesType::Natives, common_dir) {
                Ok(l) => Ok(Some(l)),
                Err(e) => Err(e),
            }
        },
    }
}

/// The libraries a prefix of the manifest's list yields on `platform`.
pub open spec fn get_libraries_spec(
    libs: Seq<Json>,
    platform: Seq<char>,
    common_dir: Seq<char>,
) -> Result<Seq<LibrariesV>, LauncherError>
    decreases libs.len(),
{
    if libs.len() == 0 {
        Ok(Seq::<LibrariesV>::empty())
    } else {
        match get_libraries_spec(libs.drop_last(), platform, common_dir) {
            Err(e) => Err(e),
            Ok(pre) => match library_entry_spec(libs.last(), platform, common_dir) {
                Err(e) => Err(e),
                Ok(Some(l)) => Ok(pre.push(l)),
                Ok(None) => Ok(pre),
            },
        }
    }
}

proof fn lemma_get_libraries_err(libs: Seq<Json>, platform: Seq<char>, common_dir: Seq<char>, i: int)
    requires
        0 <= i <= libs.len(),
        get_libraries_spec(libs.subrange(0, i), platform, common_dir).is_err(),
    ensures
        get_libraries_spec(libs, platform, common_dir) == get_libraries_spec(
            libs.subrange(0, i),
            platform,
            common_dir,
        ),
    decreases libs.len() - i,
{
    if i < libs.len() {
        assert(libs.subrange(0, i + 1).drop_last() =~= libs.subrange(0, i));
        lemma_get_libraries_err(libs, platform, common_dir, i + 1);
    } else {
        assert(libs.subrange(0, i) =~= libs);
    }
}

/// Walks the manifest's library list and keeps what applies to `platform`.
pub fn get_libraries(manifest_libraries: &Vec<Json>, platform: &str, common_dir: &str) -> (r:
    Result<Vec<Libraries>, LauncherError>)
    ensures
        match r {
            Ok(v) => get_libraries_spec(manifest_libraries@, platform@, common_dir@) == Ok::<
                _,
                LauncherError,
            >(v.deep_view()),
            Err(e) => get_libraries_spec(manifest_libraries@, platform@, common_dir@) == Err::<
                Seq<LibrariesV>,
                LauncherError,
            >(e),
        },
{
    let mut libraries: Vec<Libraries> = Vec::new();
    let mut i: usize = 0;
    proof {
        assert(manifest_libraries@.subrange(0, 0) =~= Seq::<Json>::empty());
        assert(libraries.deep_view() =~= Seq::<LibrariesV>::empty());
    }
    while i < manifest_libraries.len()
        invariant
            i <= manifest_libraries@.len(),
            get_libraries_spec(manifest_libraries@.subrange(0, i as int), platform@, common_dir@)
                == Ok::<_, LauncherError>(libraries.deep_view()),
        decreases manifest_libraries@.len() - i,
    {
        proof {
            assert(manifest_libraries@.subrange(0, i + 1).drop_last()
                =~= manifest_libraries@.subrange(0, i as int));
            assert(manifest_libraries@.subrange(0, i + 1).last() == manifest_libraries@[i as int]);
        }
        match library_entry(&manifest_libraries[i], platform, common_dir) {
            Ok(Some(l)) => {
                let ghost old_dv = libraries.deep_view();
                let ghost lv = l.deep_view();
                libraries.push(l);
                proof {
                    assert(libraries.deep_view() =~= old_dv.push(lv));
                }
            },
            Ok(None) => {},
            Err(e) => {
                proof {
                    lemma_get_libraries_err(manifest_libraries@, platform@, common_dir@, i + 1);
                }
                return Err(e);
            },
        }
        i += 1;
    }
    proof {
        assert(manifest_libraries@.subrange(0, manifest_libraries@.len() as int)
            =~= manifest_libraries@);
    }
    Ok(libraries)
}

// ---------------------------------------------------------------------------
// Asset objects
// ---------------------------------------------------------------------------

/// The shard prefix of a content hash: its first two characters.
pub open spec fn shard_spec(hash: Seq<char>) -> Seq<char> {
    if hash.len() < 2 {
        hash
    } else {
        hash.subrange(0, 2)
    }
}

/// One object-index entry shaped into a download: stored and fetched under
/// the content-addressable path `<shard>/<hash>`.
pub open spec fn asset_object_spec(data: Json, common_dir: Seq<char>) -> Result<
    AssetObjectsV,
    LauncherError,
> {
    match req_str_field(data, "hash"@) {
        Err(e) => Err(e),
        Ok(hash) => match req_i32_field(data, "size"@) {
            Err(e) => Err(e),
            Ok(size) => Ok(
                AssetObjectsV {
                    file_name: hash,
                    file_path: common_dir + "/assets/objects/"@ + shard_spec(hash) + "/"@ + hash,
                    sha1: hash,
                    size,
                    download_url: "https://resources.download.minecraft.net/"@ + shard_spec(hash)
                        + "/"@ + hash,
                },
            ),
        },
    }
}

fn parse_asset_object(data: &Json, common_dir: &str) -> (r: Result<AssetObjects, LauncherError>)
    ensures
        match r {
            Ok(o) => asset_object_spec(*data, common_dir@) == Ok::<_, LauncherError>(o.deep_view()),
            Err(e) => asset_object_spec(*data, common_dir@) == Err::<AssetObjectsV, LauncherError>(
                e,
            ),
        },
{
    let hash = match get_str_field(data, "hash") {
        Ok(s) => s,
        Err(e) => {
            return Err(e);
        },
    };
    let size = match get_i32_field(data, "size") {
        Ok(n) => n,
        Err(e) => {
            return Err(e);
        },
    };
    let hash_len = hash.as_str().unicode_len();
    let dir_name: String = if hash_len < 2 {
        hash.clone()
    } else {
        substr_string(hash.as_str(), 0, 2)
    };
    let file_path = concat_strs(common_dir, "/assets/objects/").concat(dir_name.as_str()).concat(
        "/",
    ).concat(hash.as_str());
    let download_url = concat_strs(
        "https://resources.download.minecraft.net/",
        dir_name.as_str(),
    ).concat("/").concat(hash.as_str());
    Ok(
        AssetObjects {
            file_name: hash.clone(),
            file_path,
            sha1: hash,
            size,
            download_url,
        },
    )
}

/// The downloads of a prefix of the object index, in document order.
pub open spec fn objects_fold_spec(
    fields: Seq<(String, Json)>,
    common_dir: Seq<char>,
) -> Result<Seq<AssetObjectsV>, LauncherError>
    decreases fields.len(),
{
    if fields.len() == 0 {
        Ok(Seq::<AssetObjectsV>::empty())
    } else {
        match objects_fold_spec(fields.drop_last(), common_dir) {
            Err(e) => Err(e),
            Ok(pre) => match asset_object_spec(fields.last().1, common_dir) {
                Err(e) => Err(e),
                Ok(o) => Ok(pre.push(o)),
            },
        }
    }
}

proof fn lemma_objects_fold_err(fields: Seq<(String, Json)>, common_dir: Seq<char>, i: int)
    requires
        0 <= i <= fields.len(),
        objects_fold_spec(fields.subrange(0, i), common_dir).is_err(),
    ensures
        objects_fold_spec(fields, common_dir) == objects_fold_spec(
            fields.subrange(0, i),
            common_dir,
        ),
    decreases fields.len() - i,
{
    if i < fields.len() {
        assert(fields.subrange(0, i + 1).drop_last() =~= fields.subrange(0, i));
        lemma_objects_fold_err(fields, common_dir, i + 1);
    } else {
        assert(fields.subrange(0, i) =~= fields);
    }
}

fn objects_entries(fields: &Vec<(String, Json)>, common_dir: &str) -> (r: Result<
    Vec<AssetObjects>,
    LauncherError,
>)
    ensures
        match r {
            Ok(v) => objects_fold_spec(fields@, common_dir@) == Ok::<_, LauncherError>(
                v.deep_view(),
            ),
            Err(e) => objects_fold_spec(fields@, common_dir@) == Err::<
                Seq<AssetObjectsV>,
                LauncherError,
            >(e),
        },
{
    let mut out: Vec<AssetObjects> = Vec::new();
    let mut i: usize = 0;
    proof {
        assert(fields@.subrange(0, 0) =~= Seq::<(String, Json)>::empty());
        assert(out.deep_view() =~= Seq::<AssetObjectsV>::empty());
    }
    while i < fields.len()
        invariant
            i <= fields@.len(),
            objects_fold_spec(fields@.subrange(0, i as int), common_dir@) == Ok::<
                _,
                LauncherError,
            >(out.deep_view()),
        decreases fields@.len() - i,
    {
        proof {
            assert(fields@.subrange(0, i + 1).drop_last() =~= fields@.subrange(0, i as int));
            assert(fields@.subrange(0, i + 1).last() == fields@[i as int]);
        }
        match parse_asset_object(&fields[i].1, common_dir) {
            Ok(o) => {
                let ghost old_dv = out.deep_view();
                let ghost ov = o.deep_view();
                out.push(o);
                proof {
                    assert(out.deep_view() =~= old_dv.push(ov));
                }
            },
            Err(e) => {
                proof {
                    lemma_objects_fold_err(fields@, common_dir@, i + 1);
                }
                return Err(e);
            },
        }
        i += 1;
    }
    proof {
        assert(fields@.subrange(0, fields@.len() as int) =~= fields@);
    }
    Ok(out)
}

/// The downloads described by a fetched object-index document.
pub open spec fn assets_objects_spec(objects_doc: Json, common_dir: Seq<char>) -> Result<
    Seq<AssetObjectsV>,
    LauncherError,
> {
    match json_get_spec(objects_doc, "objects"@) {
        Some(Json::Obj(fields)) => objects_fold_spec(fields@, common_dir),
        _ => Err(LauncherError::SchemaError),
    }
}

/// Turns a fetched object-index document into its downloads, one per entry,
/// each under its content-addressable shard path.
pub fn get_assets_objects(objects_doc: &Json, common_dir: &str) -> (r: Result<
    Vec<AssetObjects>,
    LauncherError,
>)
    ensures
        match r {
            Ok(v) => assets_objects_spec(*objects_doc, common_dir@) == Ok::<_, LauncherError>(
                v.deep_view(),
            ),
            Err(e) => assets_objects_spec(*objects_doc, common_dir@) == Err::<
                Seq<AssetObjectsV>,
                LauncherError,
            >(e),
        },
{
    let objs = match json_get(objects_doc, "objects") {
        Some(o) => o,
        None => {
            return Err(LauncherError::SchemaError);
        },
    };
    match objs {
        Json::Obj(fields) => objects_entries(fields, common_dir),
        _ => Err(LauncherError::SchemaError),
    }
}

// ---------------------------------------------------------------------------
// Asset index, client, catalog
// ---------------------------------------------------------------------------

/// The manifest's asset-index reference.
pub open spec fn asset_index_spec(j: Json) -> Result<AssetIndexV, LauncherError> {
    match req_str_field(j, "id"@) {
        Err(e) => Err(e),
        Ok(id) => match req_str_field(j, "sha1"@) {
            Err(e) => Err(e),
            Ok(sha1) => match req_i32_field(j, "size"@) {
                Err(e) => Err(e),
                Ok(size) => match req_i32_field(j, "totalSize"@) {
                    Err(e) => Err(e),
                    Ok(total_size) => match req_str_field(j, "url"@) {
                        Err(e) => Err(e),
                        Ok(url) => Ok(AssetIndexV { id, sha1, size, total_size, url }),
                    },
                },
            },
        },
    }
}

/// Parses the manifest's asset-index reference.
pub fn parse_asset_index(j: &Json) -> (r: Result<AssetIndex, LauncherError>)
    ensures
        match r {
            Ok(a) => asset_index_spec(*j) == Ok::<_, LauncherError>(a.deep_view()),
            Err(e) => asset_index_spec(*j) == Err::<AssetIndexV, LauncherError>(e),
        },
{
    let id = match get_str_field(j, "id") {
        Ok(s) => s,
        Err(e) => {
            return Err(e);
        },
    };
    let sha1 = match get_str_field(j, "sha1") {
        Ok(s) => s,
        Err(e) => {
            return Err(e);
        },
    };
    let size = match get_i32_field(j, "size") {
        Ok(n) => n,
        Err(e) => {
            return Err(e);
        },
    };
    let total_size = match get_i32_field(j, "totalSize") {
        Ok(n) => n,
        Err(e) => {
            return Err(e);
        },
    };
    let url = match get_str_field(j, "url") {
        Ok(s) => s,
        Err(e) => {
            return Err(e);
        },
    };
    Ok(AssetIndex { id, sha1, size, total_size, url })
}

/// The manifest's client download member.
pub open spec fn manifest_client_spec(j: Json) -> Result<ManifestClientV, LauncherError> {
    match req_str_field(j, "sha1"@) {
        Err(e) => Err(e),
        Ok(sha1) => match req_i32_field(j, "size"@) {
            Err(e) => Err(e),
            Ok(size) => match req_str_field(j, "url"@) {
                Err(e) => Err(e),
                Ok(url) => Ok(ManifestClientV { sha1, size, url }),
            },
        },
    }
}

/// Parses the manifest's client download member.
pub fn parse_manifest_client(j: &Json) -> (r: Result<ManifestClient, LauncherError>)
    ensures
        match r {
            Ok(c) => manifest_client_spec(*j) == Ok::<_, LauncherError>(c.deep_view()),
            Err(e) => manifest_client_spec(*j) == Err::<ManifestClientV, LauncherError>(e),
        },
{
    let sha1 = match get_str_field(j, "sha1") {
        Ok(s) => s,
        Err(e) => {
            return Err(e);
        },
    };
    let size = match get_i32_field(j, "size") {
        Ok(n) => n,
        Err(e) => {
            return Err(e);
        },
    };
    let url = match get_str_field(j, "url") {
        Ok(s) => s,
        Err(e) => {
            return Err(e);
        },
    };
    Ok(ManifestClient { sha1, size, url })
}

/// The client jar placed under `versions/<version>/<version>.jar`.
pub open spec fn client_spec(
    mc: ManifestClientV,
    version: Seq<char>,
    common_dir: Seq<char>,
) -> ClientV {
    ClientV {
        file_name: version + ".jar"@,
        file_path: common_dir + "/versions/"@ + version + "/"@ + version + ".jar"@,
        sha1: mc.sha1,
        size: mc.size,
        url: mc.url,
    }
}

/// Places the client jar under the shared versions directory.
pub fn get_client(manifest_client: ManifestClient, version: &str, common_dir: &str) -> (r: Client)
    ensures
        r.deep_view() == client_spec(manifest_client.deep_view(), version@, common_dir@),
{
    let file_name = concat_strs(version, ".jar");
    let file_path = concat_strs(common_dir, "/versions/").concat(version).concat("/").concat(
        version,
    ).concat(".jar");
    Client {
        file_name,
        file_path,
        sha1: manifest_client.sha1,
        size: manifest_client.size,
        url: manifest_client.url,
    }
}

/// The manifest URL the catalog gives for `version`: the first entry whose
/// `id` is `version`; a catalog without it is `ManifestNotFound`.
pub open spec fn find_version_spec(vs: Seq<Json>, version: Seq<char>) -> Result<
    Seq<char>,
    LauncherError,
>
    decreases vs.len(),
{
    if vs.len() == 0 {
        Err(LauncherError::ManifestNotFound)
    } else {
        let entry = vs.first();
        match json_get_spec(entry, "id"@) {
            Some(idj) => match json_str_spec(idj) {
                Some(id) => if id == version {
                    req_str_field(entry, "url"@)
                } else {
                    find_version_spec(vs.drop_first(), version)
                },
                None => find_version_spec(vs.drop_first(), version),
            },
            None => find_version_spec(vs.drop_first(), version),
        }
    }
}

fn find_version_in(vs: &Vec<Json>, version: &str) -> (r: Result<String, LauncherError>)
    ensures
        match r {
            Ok(u) => find_version_spec(vs@, version@) == Ok::<_, LauncherError>(u@),
            Err(e) => find_version_spec(vs@, version@) == Err::<Seq<char>, LauncherError>(e),
        },
{
    let n = vs.len();
    let mut i: usize = 0;
    proof {
        assert(vs@.skip(0) =~= vs@);
    }
    while i < n
        invariant
            i <= n,
            n == vs@.len(),
            find_version_spec(vs@, version@) == find_version_spec(vs@.skip(i as int), version@),
        decreases n - i,
    {
        proof {
            assert(vs@.skip(i as int).first() == vs@[i as int]);
            assert(vs@.skip(i as int).drop_first() =~= vs@.skip(i + 1));
        }
        let entry = &vs[i];
        match json_get(entry, "id") {
            Some(idj) => match json_as_str(idj) {
                Some(id) => {
                    if str_eq(id.as_str(), version) {
                        return get_str_field(entry, "url");
                    }
                },
                None => {},
            },
            None => {},
        }
        i += 1;
    }
    Err(LauncherError::ManifestNotFound)
}

/// What the catalog document gives for `version`.
pub open spec fn find_version_url_spec(catalog: Json, version: Seq<char>) -> Result<
    Seq<char>,
    LauncherError,
> {
    match json_get_spec(catalog, "versions"@) {
        Some(Json::Arr(vs)) => find_version_spec(vs@, version),
        _ => Err(LauncherError::SchemaError),
    }
}

/// Looks `version` up in the catalog document that maps version ids to
/// per-version manifest URLs.
pub fn find_version_url(catalog: &Json, version: &str) -> (r: Result<String, LauncherError>)
    ensures
        match r {
            Ok(u) => find_version_url_spec(*catalog, version@) == Ok::<_, LauncherError>(u@),
            Err(e) => find_version_url_spec(*catalog, version@) == Err::<Seq<char>, LauncherError>(
                e,
            ),
        },
{
    let vs = match json_get(catalog, "versions") {
        Some(v) => v,
        None => {
            return Err(LauncherError::SchemaError);
        },
    };
    match vs {
        Json::Arr(arr) => find_version_in(arr, version),
        _ => Err(LauncherError::SchemaError),
    }
}

// ---------------------------------------------------------------------------
// Resolution
// ---------------------------------------------------------------------------

/// Everything a launch needs, resolved from the manifest document, the
/// fetched object-index document, the version id, the platform name and the
/// shared data directory. A missing or malformed member is a `SchemaError`
/// and nothing partial is returned.
pub open spec fn assets_spec(
    manifest: Json,
    objects_doc: Json,
    version: Seq<char>,
    platform: Seq<char>,
    common_dir: Seq<char>,
) -> Result<MinecraftAssetsV, LauncherError> {
    match json_get_spec(manifest, "arguments"@) {
        None => Err(LauncherError::SchemaError),
        Some(aj) => match arguments_spec(aj) {
            Err(e) => Err(e),
            Ok(arguments) => match json_get_spec(manifest, "assetIndex"@) {
                None => Err(LauncherError::SchemaError),
                Some(ij) => match asset_index_spec(ij) {
                    Err(e) => Err(e),
                    Ok(index) => match assets_objects_spec(objects_doc, common_dir) {
                        Err(e) => Err(e),
                        Ok(objs) => match json_get_spec(manifest, "libraries"@) {
                            Some(Json::Arr(libs)) => match get_libraries_spec(
                                libs@,
                                platform,
                                common_dir,
                            ) {
                                Err(e) => Err(e),
                                Ok(libraries) => match json_get_spec(manifest, "downloads"@) {
                                    None => Err(LauncherError::SchemaError),
                                    Some(dj) => match json_get_spec(dj, "client"@) {
                                        None => Err(LauncherError::SchemaError),
                                        Some(cj) => match manifest_client_spec(cj) {
                                            Err(e) => Err(e),
                                            Ok(mc) => match req_str_field(
                                                manifest,
                                                "mainClass"@,
                                            ) {
                                                Err(e) => Err(e),
                                                Ok(main_class) => Ok(
                                                    MinecraftAssetsV {
                                                        arguments,
                                                        assets_objects: objs,
                                                        libraries,
                                                        client: client_spec(
                                                            mc,
                                                            version,
                                                            common_dir,
                                                        ),
                                                        main_class,
                                                        minecraft_version: version,
                                                        assets_version: index.id,
                                                    },
                                                ),
                                            },
                                        },
                                    },
                                },
                            },
                            _ => Err(LauncherError::SchemaError),
                        },
                    },
                },
            },
        },
    }
}

/// Resolves a version manifest document, with its fetched object index,
/// into the files and argument templates one launch needs.
pub fn assets(
    manifest: &Json,
    objects_doc: &Json,
    version: &str,
    platform: &str,
    common_dir: &str,
) -> (r: Result<MinecraftAssets, LauncherError>)
    ensures
        match r {
            Ok(a) => assets_spec(*manifest, *objects_doc, version@, platform@, common_dir@) == Ok::<
                _,
                LauncherError,
            >(a.deep_view()),
            Err(e) => assets_spec(*manifest, *objects_doc, version@, platform@, common_dir@)
                == Err::<MinecraftAssetsV, LauncherError>(e),
        },
{
    let aj = match json_get(manifest, "arguments") {
        Some(v) => v,
        None => {
            return Err(LauncherError::SchemaError);
        },
    };
    let arguments = match get_arguments(aj) {
        Ok(a) => a,
        Err(e) => {
            return Err(e);
        },
    };
    let ij = match json_get(manifest, "assetIndex") {
        Some(v) => v,
        None => {
            return Err(LauncherError::SchemaError);
        },
    };
    let index = match parse_asset_index(ij) {
        Ok(a) => a,
        Err(e) => {
            return Err(e);
        },
    };
    let assets_objects = match get_assets_objects(objects_doc, common_dir) {
        Ok(v) => v,
        Err(e) => {
            return Err(e);
        },
    };
    let libs_j = match json_get(manifest, "libraries") {
        Some(v) => v,
        None => {
            return Err(LauncherError::SchemaError);
        },
    };
    let libs_arr = match json_as_array(libs_j) {
        Some(a) => a,
        None => {
            return Err(LauncherError::SchemaError);
        },
    };
    let libraries = match get_libraries(libs_arr, platform, common_dir) {
        Ok(v) => v,
        Err(e) => {
            return Err(e);
        },
    };
    let dj = match json_get(manifest, "downloads") {
        Some(v) => v,
        None => {
            return Err(LauncherError::SchemaError);
        },
    };
    let cj = match json_get(dj, "client") {
        Some(v) => v,
        None => {
            return Err(LauncherError::SchemaError);
        },
    };
    let manifest_client = match parse_manifest_client(cj) {
        Ok(c) => c,
        Err(e) => {
            return Err(e);
        },
    };
    let main_class = match get_str_field(manifest, "mainClass") {
        Ok(s) => s,
        Err(e) => {
            return Err(e);
        },
    };
    let client = get_client(manifest_client, version, common_dir);
    Ok(
        MinecraftAssets {
            arguments,
            assets_objects,
            libraries,
            client,
            main_class,
            minecraft_version: String::from_str(version),
            assets_version: index.id,
        },
    )
}

/// Resolution is deterministic: the resolved value is a function of the
/// manifest document, the object index, the version, the platform and the
/// shared data directory alone, so equal inputs resolve equally.
pub proof fn lemma_assets_deterministic(
    manifest: Json,
    objects_doc: Json,
    version: Seq<char>,
    platform: Seq<char>,
    common_dir: Seq<char>,
    r1: Result<MinecraftAssetsV, LauncherError>,
    r2: Result<MinecraftAssetsV, LauncherError>,
)
    requires
        r1 == assets_spec(manifest, objects_doc, version, platform, common_dir),
        r2 == assets_spec(manifest, objects_doc, version, platform, common_dir),
    ensures
        r1 == r2,
{
}

} // verus!
