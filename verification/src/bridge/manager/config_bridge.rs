//! The bridge that loads a configuration file.

use crate::bridge::env_keys;
use crate::bridge::error::BridgeError;
use crate::bridge::runtime::process::env_view;
use crate::json::{inspect, json_document, members_view, Json, JsonShape, JsonShapeView};
use crate::text::{chars_of, same_text, string_of};
use vstd::prelude::*;

verus! {

/// The name of the bridge that loads configuration files.
pub const CONFIG_BRIDGE_NAME: &'static str = "config-bridge";

/// The method of the bridge script that returns the configuration.
pub const CONFIG_GET: &'static str = "config.get";

/// `true` or `false`, as the bridge script reads it.
pub open spec fn flag_text(b: bool) -> Seq<char> {
    if b {
        "true"@
    } else {
        "false"@
    }
}

/// Whether a configuration file with this extension is a CommonJS module:
/// `cjs` or `cts`.
pub open spec fn is_commonjs_extension(extension: Seq<char>) -> bool {
    extension == "cjs"@ || extension == "cts"@
}

/// The environment that tells the bridge script which configuration file
/// to load, in this order: the path of the file, the root of its project,
/// whether it is TypeScript, whether it is CommonJS, and that the host runs
/// in development mode.
pub open spec fn config_env_of(
    config_path: Seq<char>,
    project_root: Seq<char>,
    is_typescript: bool,
    extension: Seq<char>,
) -> Seq<(Seq<char>, Seq<char>)> {
    seq![
        (env_keys::CONFIG_PATH@, config_path),
        (env_keys::PROJECT_ROOT@, project_root),
        (env_keys::CONFIG_IS_TYPESCRIPT@, flag_text(is_typescript)),
        (env_keys::CONFIG_IS_COMMONJS@, flag_text(is_commonjs_extension(extension))),
        (env_keys::IS_DEV@, "true"@),
    ]
}

/// `true` or `false`.
fn flag(b: bool) -> (s: String)
    ensures
        s@ == flag_text(b),
{
    if b {
        String::from_str("true")
    } else {
        String::from_str("false")
    }
}

/// The environment for the bridge script that loads the configuration file
/// at the absolute path `config_path`, in the project at `project_root`.
/// `extension` is the file extension of the configuration file, empty if it
/// has none.
pub fn config_env(config_path: &str, project_root: &str, is_typescript: bool, extension: &str) -> (env:
    Vec<(String, String)>)
    ensures
        env_view(env@) == config_env_of(
            config_path@,
            project_root@,
            is_typescript,
            extension@,
        ),
{
    let is_commonjs = same_text(extension, "cjs") || same_text(extension, "cts");
    let mut env: Vec<(String, String)> = Vec::new();
    env.push((String::from_str(env_keys::CONFIG_PATH), String::from_str(config_path)));
    env.push((String::from_str(env_keys::PROJECT_ROOT), String::from_str(project_root)));
    env.push((String::from_str(env_keys::CONFIG_IS_TYPESCRIPT), flag(is_typescript)));
    env.push((String::from_str(env_keys::CONFIG_IS_COMMONJS), flag(is_commonjs)));
    env.push((String::from_str(env_keys::IS_DEV), String::from_str("true")));
    assert(env_view(env@) =~= config_env_of(
        config_path@,
        project_root@,
        is_typescript,
        extension@,
    ));
    env
}

/// The name under which the bridge for the configuration file at
/// `config_path` is registered: `config_` and the path, with `_` in place of
/// each `/` and `\`.
pub open spec fn bridge_name_of(config_path: Seq<char>) -> Seq<char> {
    "config_"@ + config_path.map_values(
        |c: char|
            if c == '/' || c == '\\' {
                '_'
            } else {
                c
            },
    )
}

/// The name under which the bridge for the configuration file at
/// `config_path` is registered.
pub fn bridge_name(config_path: &str) -> (name: String)
    ensures
        name@ == bridge_name_of(config_path@),
{
    let chars = chars_of(config_path);
    let mut out: Vec<char> = Vec::new();
    let mut i: usize = 0;
    while i < chars.len()
        invariant
            i <= chars.len(),
            out@ == chars@.take(i as int).map_values(
                |c: char|
                    if c == '/' || c == '\\' {
                        '_'
                    } else {
                        c
                    },
            ),
        decreases chars.len() - i,
    {
        let c = chars[i];
        if c == '/' || c == '\\' {
            out.push('_');
        } else {
            out.push(c);
        }
        i += 1;
        assert(chars@.take(i as int) == chars@.take(i - 1).push(c));
        assert(out@ =~= chars@.take(i as int).map_values(
            |c: char|
                if c == '/' || c == '\\' {
                    '_'
                } else {
                    c
                },
        ));
    }
    assert(chars@.take(chars.len() as int) == chars@);
    let mut name = String::from_str("config_");
    let n = out.len();
    let rest = string_of(&out, 0, n);
    assert(out@.subrange(0, n as int) == out@);
    name.append(rest.as_str());
    name
}

/// The message for a configuration that is no object.
pub open spec fn not_an_object_message() -> Seq<char> {
    "Config bridge returned non-object value"@
}

/// The values of a configuration by name: the members of the object that
/// the bridge script returned. A result that is no object is an error.
pub fn config_values(result: &Json) -> (r: Result<Vec<(String, Json)>, BridgeError>)
    ensures
        match json_document(result@) {
            Some(d) => match d.shape {
                JsonShapeView::Object(members) => r matches Ok(values) && members_view(values@)
                    == members,
                _ => r matches Err(BridgeError::Other(m)) && m@ == not_an_object_message(),
            },
            None => r matches Err(BridgeError::Other(m)) && m@ == not_an_object_message(),
        },
{
    match inspect(result.as_str()) {
        Ok(d) => match d.shape {
            JsonShape::Object(members) => Ok(members),
            _ => Err(BridgeError::Other(String::from_str("Config bridge returned non-object value"))),
        },
        Err(_) => Err(BridgeError::Other(String::from_str("Config bridge returned non-object value"))),
    }
}

} // verus!
