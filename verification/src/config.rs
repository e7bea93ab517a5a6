//! The configuration that a Liaison FMU carries in `binaries/config.json`:
//! the responder to reach, the model's name, and the Zenoh configuration
//! that the FMU was built with. The Zenoh configuration is embedded with
//! `metadata.name` set to the model's name, and with each TLS file that it
//! names replaced by the file's name inside the archive.
use crate::fmu_creator::{opt_string_view, tls_key_spec, TlsFile};
use vstd::prelude::*;

verus! {

/// A JSON document. Objects keep their fields in order.
#[derive(Debug, PartialEq)]
pub enum Json {
    Null,
    Bool(bool),
    /// A number, by its JSON text.
    Number(String),
    Text(String),
    Array(Vec<Json>),
    Object(Vec<(String, Json)>),
}

/// Why a configuration could not be used.
#[derive(Debug, Clone, Copy, PartialEq, Eq, Structural)]
pub enum ConfigError {
    /// The Zenoh configuration file holds no JSON document.
    InvalidJson,
    /// The Zenoh configuration is no object (nor null), or its `metadata` is
    /// no object (nor null), so the model's name cannot be set in it.
    NotAnObject,
    /// The text is no Zenoh configuration.
    InvalidZenohConfig,
}

#[verifier::external_type_specification]
#[verifier::external_body]
pub struct ExJsonValue(serde_json::Value);

#[verifier::external_type_specification]
#[verifier::external_body]
pub struct ExZenohConfig(zenoh::Config);

/// The JSON document that a text holds, if it holds one.
pub uninterp spec fn json_of_text(text: Seq<char>) -> Option<Json>;

/// The pretty-printed text of a JSON document.
pub uninterp spec fn pretty_json_text(j: Json) -> Seq<char>;

/// Whether a text is a valid Zenoh configuration in JSON.
pub uninterp spec fn zenoh_config_parses(text: Seq<char>) -> bool;

/// Converts a parsed document into a `Json`, field for field; objects come
/// in the order in which `serde_json` keeps their keys.
#[verifier::external_body]
fn json_from_value(v: serde_json::Value) -> Json {
    match v {
        serde_json::Value::Null => Json::Null,
        serde_json::Value::Bool(b) => Json::Bool(b),
        serde_json::Value::Number(n) => Json::Number(n.to_string()),
        serde_json::Value::String(s) => Json::Text(s),
        serde_json::Value::Array(a) => Json::Array(a.into_iter().map(json_from_value).collect()),
        serde_json::Value::Object(o) => Json::Object(
            o.into_iter().map(|(k, x)| (k, json_from_value(x))).collect(),
        ),
    }
}

/// Converts a `Json` into a `serde_json` document, field for field; a
/// number's text is read back with `serde_json::from_str` (the texts that
/// `json_from_value` writes are JSON numbers), and a text that holds no JSON
/// document becomes null.
#[verifier::external_body]
fn value_from_json(j: &Json) -> serde_json::Value {
    match j {
        Json::Null => serde_json::Value::Null,
        Json::Bool(b) => serde_json::Value::Bool(*b),
        Json::Number(n) => serde_json::from_str(n).unwrap_or(serde_json::Value::Null),
        Json::Text(s) => serde_json::Value::String(s.clone()),
        Json::Array(a) => serde_json::Value::Array(a.iter().map(value_from_json).collect()),
        Json::Object(f) => serde_json::Value::Object(
            f.iter().map(|(k, x)| (k.clone(), value_from_json(x))).collect(),
        ),
    }
}

/// Parses `text` with `serde_json::from_str` into a document; `None` where
/// `serde_json` refuses the text. What it accepts is left to the name
/// `json_of_text`.
#[verifier::external_body]
fn parse_json(text: &str) -> (r: Option<Json>)
    ensures
        r == json_of_text(text@),
{
    match serde_json::from_str::<serde_json::Value>(text) {
        Ok(v) => Some(json_from_value(v)),
        Err(_) => None,
    }
}

/// Prints a document with `serde_json::to_string_pretty`, which cannot fail
/// on a `serde_json::Value` (its keys are strings). The text is left to the
/// name `pretty_json_text`.
#[verifier::external_body]
fn pretty_json(j: &Json) -> (r: String)
    ensures
        r@ == pretty_json_text(*j),
{
    match serde_json::to_string_pretty(&value_from_json(j)) {
        Ok(s) => s,
        Err(_) => String::new(),
    }
}

/// Parses `text` with `serde_json::from_str` into a `zenoh::Config`; `None`
/// where that refuses it. Which texts it accepts is left to the name
/// `zenoh_config_parses`.
#[verifier::external_body]
fn parse_zenoh_config(text: &str) -> (r: Option<zenoh::Config>)
    ensures
        r is Some == zenoh_config_parses(text@),
{
    serde_json::from_str::<zenoh::Config>(text).ok()
}

/// The first position at or after `i` of a field named `key`.
pub open spec fn find_key_from(fields: Seq<(String, Json)>, key: Seq<char>, i: int) -> Option<int>
    decreases fields.len() - i,
{
    if i < 0 || i >= fields.len() {
        None
    } else if fields[i].0@ == key {
        Some(i)
    } else {
        find_key_from(fields, key, i + 1)
    }
}

/// The position of the first field named `key`.
pub open spec fn find_key(fields: Seq<(String, Json)>, key: Seq<char>) -> Option<int> {
    find_key_from(fields, key, 0)
}

/// The value of field `key` of an object; `None` for a missing field or a
/// document that is no object.
pub open spec fn get_field(j: Json, key: Seq<char>) -> Option<Json> {
    match j {
        Json::Object(f) => match find_key(f@, key) {
            Some(i) => Some(f@[i].1),
            None => None,
        },
        _ => None,
    }
}

/// The value reached from `j` through the fields named by `path`.
pub open spec fn get_path(j: Json, path: Seq<Seq<char>>) -> Option<Json>
    decreases path.len(),
{
    if path.len() == 0 {
        Some(j)
    } else {
        match get_field(j, path[0]) {
            Some(c) => get_path(c, path.drop_first()),
            None => None,
        }
    }
}

/// Whether `j` is the text `t`.
pub open spec fn is_text(j: Json, t: Seq<char>) -> bool {
    match j {
        Json::Text(s) => s@ == t,
        _ => false,
    }
}

/// The text that `j` holds, if it is a text.
pub open spec fn text_of(j: Json) -> Option<Seq<char>> {
    match j {
        Json::Text(s) => Some(s@),
        _ => None,
    }
}

/// Whether `j` is an object with the single field `name`, the text `name`.
pub open spec fn is_name_object(j: Json, name: Seq<char>) -> bool {
    match j {
        Json::Object(f) => f@.len() == 1 && f@[0].0@ == "name"@ && is_text(f@[0].1, name),
        _ => false,
    }
}

/// Whether `new` holds the same fields as `old` but at position `i`.
pub open spec fn same_but_at(old: Seq<(String, Json)>, new: Seq<(String, Json)>, i: int) -> bool {
    &&& new.len() == old.len()
    &&& new[i].0 == old[i].0
    &&& forall|k: int| 0 <= k < old.len() && k != i ==> #[trigger] new[k] == old[k]
}

/// `r` is `old` (an object, or null read as an empty object) with field
/// `name` set to the text `name`: in place where it is present, appended
/// otherwise.
pub open spec fn name_set(old: Json, name: Seq<char>, r: Json) -> bool {
    match old {
        Json::Null => is_name_object(r, name),
        Json::Object(of) => match r {
            Json::Object(rf) => match find_key(of@, "name"@) {
                Some(i) => same_but_at(of@, rf@, i) && is_text(rf@[i].1, name),
                None => rf@.len() == of@.len() + 1 && rf@.take(of@.len() as int) == of@
                    && rf@.last().0@ == "name"@ && is_text(rf@.last().1, name),
            },
            _ => false,
        },
        _ => false,
    }
}

/// Whether `metadata.name` can be set in a configuration: it is an object
/// (or null), and so is its `metadata` where it has one.
pub open spec fn metadata_settable(config: Json) -> bool {
    match config {
        Json::Null => true,
        Json::Object(f) => match find_key(f@, "metadata"@) {
            Some(i) => f@[i].1 is Null || f@[i].1 is Object,
            None => true,
        },
        _ => false,
    }
}

/// `r` is `config` with `metadata.name` set to `name`: a missing `metadata`
/// is appended as an object holding only the name, an existing one keeps
/// its other fields, and a null configuration reads as an empty object.
pub open spec fn with_metadata_name(config: Json, name: Seq<char>, r: Json) -> bool {
    match config {
        Json::Null => match r {
            Json::Object(rf) => rf@.len() == 1 && rf@[0].0@ == "metadata"@ && is_name_object(
                rf@[0].1,
                name,
            ),
            _ => false,
        },
        Json::Object(of) => match r {
            Json::Object(rf) => match find_key(of@, "metadata"@) {
                Some(i) => same_but_at(of@, rf@, i) && name_set(of@[i].1, name, rf@[i].1),
                None => rf@.len() == of@.len() + 1 && rf@.take(of@.len() as int) == of@
                    && rf@.last().0@ == "metadata"@ && is_name_object(rf@.last().1, name),
            },
            _ => false,
        },
        _ => false,
    }
}

/// `r` is `old` with the value at `path` (which exists) replaced by the
/// text `text`, and everything else unchanged.
pub open spec fn text_replaced_at(old: Json, path: Seq<Seq<char>>, r: Json, text: Seq<char>) -> bool
    decreases path.len(),
{
    if path.len() == 0 {
        is_text(r, text)
    } else {
        match old {
            Json::Object(of) => match r {
                Json::Object(rf) => match find_key(of@, path[0]) {
                    Some(i) => same_but_at(of@, rf@, i) && text_replaced_at(
                        of@[i].1,
                        path.drop_first(),
                        rf@[i].1,
                        text,
                    ),
                    None => false,
                },
                _ => false,
            },
            _ => false,
        }
    }
}

/// The field names that lead to a TLS file's path in a Zenoh configuration:
/// `transport.link.tls.<key>`.
pub open spec fn tls_path_keys(file: TlsFile) -> Seq<Seq<char>> {
    seq!["transport"@, "link"@, "tls"@, tls_key_spec(file)]
}

/// The path of a TLS file that a Zenoh configuration names, where it names
/// one as a text.
pub open spec fn tls_path_spec(config: Json, file: TlsFile) -> Option<Seq<char>> {
    match get_path(config, tls_path_keys(file)) {
        Some(v) => text_of(v),
        None => None,
    }
}

/// The configuration file of a Liaison FMU: `responderId` and `name`, and
/// `zenohConfig` where the FMU was built with a Zenoh configuration.
pub open spec fn liaison_config_ok(
    responder_id: Seq<char>,
    model_name: Seq<char>,
    zenoh_config: Option<Json>,
    r: Json,
) -> bool {
    match r {
        Json::Object(f) => {
            &&& f@.len() >= 2
            &&& f@[0].0@ == "responderId"@
            &&& is_text(f@[0].1, responder_id)
            &&& f@[1].0@ == "name"@
            &&& is_text(f@[1].1, model_name)
            &&& match zenoh_config {
                None => f@.len() == 2,
                Some(z) => f@.len() == 3 && f@[2].0@ == "zenohConfig"@ && f@[2].1 == z,
            }
        },
        _ => false,
    }
}

/// The names of a sequence of keys.
pub open spec fn keys_view(p: Seq<String>) -> Seq<Seq<char>> {
    p.map_values(|s: String| s@)
}

proof fn lemma_find_key_from(fields: Seq<(String, Json)>, key: Seq<char>, i: int)
    requires
        0 <= i,
    ensures
        match find_key_from(fields, key, i) {
            Some(j) => i <= j < fields.len() && fields[j].0@ == key,
            None => true,
        },
    decreases fields.len() - i,
{
    if i < fields.len() && fields[i].0@ != key {
        lemma_find_key_from(fields, key, i + 1);
    }
}

/// The position of the first field named `key`.
fn find_field(fields: &Vec<(String, Json)>, key: &String) -> (r: Option<usize>)
    ensures
        match r {
            Some(i) => find_key(fields@, key@) == Some(i as int) && i < fields@.len(),
            None => find_key(fields@, key@) is None,
        },
{
    let mut i: usize = 0;
    while i < fields.len()
        invariant
            i <= fields@.len(),
            find_key(fields@, key@) == find_key_from(fields@, key@, i as int),
        decreases fields@.len() - i,
    {
        if fields[i].0 == *key {
            return Some(i);
        }
        i = i + 1;
    }
    None
}

/// An object with the single field `name`, the text `name`.
fn name_object(name: &str) -> (r: Json)
    ensures
        is_name_object(r, name@),
{
    let mut f: Vec<(String, Json)> = Vec::new();
    f.push((String::from_str("name"), Json::Text(String::from_str(name))));
    Json::Object(f)
}

/// Sets field `name` of `meta` (an object, or null) to the text `name`.
fn with_name(meta: Json, name: &str) -> (r: Json)
    requires
        meta is Null || meta is Object,
    ensures
        name_set(meta, name@, r),
{
    match meta {
        Json::Object(f) => {
            let mut f = f;
            let ghost of = f@;
            let key = String::from_str("name");
            match find_field(&f, &key) {
                Some(i) => {
                    proof {
                        lemma_find_key_from(of, "name"@, 0);
                    }
                    let (k, _old) = f.remove(i);
                    f.insert(i, (k, Json::Text(String::from_str(name))));
                    proof {
                        assert forall|k: int| 0 <= k < of.len() && k != i implies #[trigger] f@[k]
                            == of[k] by {
                            if k < i {
                            } else {
                            }
                        }
                    }
                },
                None => {
                    f.push((key, Json::Text(String::from_str(name))));
                    proof {
                        assert(f@.take(of.len() as int) =~= of);
                    }
                },
            }
            Json::Object(f)
        },
        _ => name_object(name),
    }
}

impl Json {
    /// The value of field `key`, where this is an object that has one.
    pub fn get(&self, key: &str) -> (r: Option<&Json>)
        ensures
            match r {
                Some(v) => get_field(*self, key@) == Some(*v),
                None => get_field(*self, key@) is None,
            },
    {
        match self {
            Json::Object(f) => {
                let k = String::from_str(key);
                match find_field(f, &k) {
                    Some(i) => Some(&f[i].1),
                    None => None,
                }
            },
            _ => None,
        }
    }

    /// The text that this value holds, where it is a text.
    pub fn as_str(&self) -> (r: Option<&str>)
        ensures
            match r {
                Some(s) => text_of(*self) == Some(s@),
                None => text_of(*self) is None,
            },
    {
        match self {
            Json::Text(s) => Some(s.as_str()),
            _ => None,
        }
    }

    /// Whether this value is null.
    pub fn is_null(&self) -> (b: bool)
        ensures
            b == (*self is Null),
    {
        match self {
            Json::Null => true,
            _ => false,
        }
    }
}

/// Sets `metadata.name` of a Zenoh configuration to the model's name,
/// creating `metadata` where it is missing and keeping its other fields.
pub fn zenoh_config_for_model(config: Json, model_name: &str) -> (r: Json)
    requires
        metadata_settable(config),
    ensures
        with_metadata_name(config, model_name@, r),
{
    match config {
        Json::Object(f) => {
            let mut f = f;
            let ghost of = f@;
            let key = String::from_str("metadata");
            match find_field(&f, &key) {
                Some(i) => {
                    proof {
                        lemma_find_key_from(of, "metadata"@, 0);
                    }
                    let (k, meta) = f.remove(i);
                    let meta = with_name(meta, model_name);
                    f.insert(i, (k, meta));
                    proof {
                        assert forall|k: int| 0 <= k < of.len() && k != i implies #[trigger] f@[k]
                            == of[k] by {
                            if k < i {
                            } else {
                            }
                        }
                    }
                },
                None => {
                    f.push((key, name_object(model_name)));
                    proof {
                        assert(f@.take(of.len() as int) =~= of);
                    }
                },
            }
            Json::Object(f)
        },
        _ => {
            let mut f: Vec<(String, Json)> = Vec::new();
            f.push((String::from_str("metadata"), name_object(model_name)));
            Json::Object(f)
        },
    }
}

/// The Zenoh configuration that a Liaison FMU embeds, from the text of the
/// configuration file: its document with `metadata.name` set to the model's
/// name. `InvalidJson` where the text holds no JSON document, `NotAnObject`
/// where the name cannot be set in it.
pub fn embedded_zenoh_config(text: &str, model_name: &str) -> (r: Result<Json, ConfigError>)
    ensures
        match json_of_text(text@) {
            None => r == Err::<Json, ConfigError>(ConfigError::InvalidJson),
            Some(j) => if metadata_settable(j) {
                match r {
                    Ok(c) => with_metadata_name(j, model_name@, c),
                    Err(_) => false,
                }
            } else {
                r == Err::<Json, ConfigError>(ConfigError::NotAnObject)
            },
        },
{
    match parse_json(text) {
        None => Err(ConfigError::InvalidJson),
        Some(j) => {
            if settable(&j) {
                Ok(zenoh_config_for_model(j, model_name))
            } else {
                Err(ConfigError::NotAnObject)
            }
        },
    }
}

/// Whether `metadata.name` can be set in `config`.
fn settable(config: &Json) -> (b: bool)
    ensures
        b == metadata_settable(*config),
{
    match config {
        Json::Null => true,
        Json::Object(f) => {
            let key = String::from_str("metadata");
            match find_field(f, &key) {
                Some(i) => match &f[i].1 {
                    Json::Null => true,
                    Json::Object(_) => true,
                    _ => false,
                },
                None => true,
            }
        },
        _ => false,
    }
}

/// The field names `transport`, `link`, `tls` and the key of `file`.
fn tls_path_vec(file: TlsFile) -> (p: Vec<String>)
    ensures
        keys_view(p@) == tls_path_keys(file),
{
    let mut p: Vec<String> = Vec::new();
    p.push(String::from_str("transport"));
    p.push(String::from_str("link"));
    p.push(String::from_str("tls"));
    p.push(String::from_str(file.key()));
    proof {
        assert(keys_view(p@) =~= tls_path_keys(file));
    }
    p
}

/// The value reached from `j` through the fields `path[from..]`.
fn value_at<'a>(j: &'a Json, path: &Vec<String>, from: usize) -> (r: Option<&'a Json>)
    requires
        from <= path@.len(),
    ensures
        match r {
            Some(v) => get_path(*j, keys_view(path@).subrange(from as int, path@.len() as int))
                == Some(*v),
            None => get_path(*j, keys_view(path@).subrange(from as int, path@.len() as int)) is None,
        },
    decreases path@.len() - from,
{
    let ghost sub = keys_view(path@).subrange(from as int, path@.len() as int);
    if from == path.len() {
        return Some(j);
    }
    proof {
        assert(sub[0] == path@[from as int]@);
        assert(sub.drop_first() =~= keys_view(path@).subrange(from + 1, path@.len() as int));
    }
    match j {
        Json::Object(f) => match find_field(f, &path[from]) {
            Some(i) => value_at(&f[i].1, path, from + 1),
            None => None,
        },
        _ => None,
    }
}

/// Replaces the value at `path[from..]` in `j`, which exists, by the text
/// `text`.
fn replace_text_at(j: Json, path: &Vec<String>, from: usize, text: &str) -> (r: Json)
    requires
        from <= path@.len(),
        get_path(j, keys_view(path@).subrange(from as int, path@.len() as int)) is Some,
    ensures
        text_replaced_at(j, keys_view(path@).subrange(from as int, path@.len() as int), r, text@),
    decreases path@.len() - from,
{
    let ghost sub = keys_view(path@).subrange(from as int, path@.len() as int);
    if from == path.len() {
        return Json::Text(String::from_str(text));
    }
    proof {
        assert(sub[0] == path@[from as int]@);
        assert(sub.drop_first() =~= keys_view(path@).subrange(from + 1, path@.len() as int));
    }
    match j {
        Json::Object(f) => {
            let mut f = f;
            let ghost of = f@;
            match find_field(&f, &path[from]) {
                Some(i) => {
                    proof {
                        lemma_find_key_from(of, sub[0], 0);
                    }
                    let (k, child) = f.remove(i);
                    let child = replace_text_at(child, path, from + 1, text);
                    f.insert(i, (k, child));
                    proof {
                        assert forall|k: int| 0 <= k < of.len() && k != i implies #[trigger] f@[k]
                            == of[k] by {
                            if k < i {
                            } else {
                            }
                        }
                    }
                    Json::Object(f)
                },
                None => Json::Object(f),
            }
        },
        other => other,
    }
}

/// The path of the TLS file `file` that a Zenoh configuration names, where
/// `transport.link.tls.<key>` holds a text.
pub fn tls_path(config: &Json, file: TlsFile) -> (r: Option<String>)
    ensures
        opt_string_view(r) == tls_path_spec(*config, file),
{
    let p = tls_path_vec(file);
    proof {
        assert(keys_view(p@).subrange(0, p@.len() as int) =~= keys_view(p@));
    }
    match value_at(config, &p, 0) {
        Some(v) => match v {
            Json::Text(s) => Some(s.clone()),
            _ => None,
        },
        None => None,
    }
}

/// Lets a Zenoh configuration name the TLS file `file` by `file_name`, its
/// name inside the archive; the configuration names the file already.
pub fn with_tls_file_name(config: Json, file: TlsFile, file_name: &str) -> (r: Json)
    requires
        tls_path_spec(config, file) is Some,
    ensures
        text_replaced_at(config, tls_path_keys(file), r, file_name@),
{
    let p = tls_path_vec(file);
    proof {
        assert(keys_view(p@).subrange(0, p@.len() as int) =~= keys_view(p@));
    }
    replace_text_at(config, &p, 0, file_name)
}

/// The configuration file of a Liaison FMU: `responderId`, `name`, and the
/// embedded Zenoh configuration where there is one.
pub fn liaison_config(responder_id: &str, model_name: &str, zenoh_config: Option<Json>) -> (r:
    Json)
    ensures
        liaison_config_ok(responder_id@, model_name@, zenoh_config, r),
{
    let mut f: Vec<(String, Json)> = Vec::new();
    f.push((String::from_str("responderId"), Json::Text(String::from_str(responder_id))));
    f.push((String::from_str("name"), Json::Text(String::from_str(model_name))));
    match zenoh_config {
        Some(z) => {
            f.push((String::from_str("zenohConfig"), z));
        },
        None => {},
    }
    Json::Object(f)
}

/// The text of the configuration file of a Liaison FMU, pretty-printed.
pub fn liaison_config_text(responder_id: &str, model_name: &str, zenoh_config: Option<Json>) -> (r:
    String)
    ensures
        exists|c: Json|
            liaison_config_ok(responder_id@, model_name@, zenoh_config, c) && r@
                == pretty_json_text(c),
{
    let c = liaison_config(responder_id, model_name, zenoh_config);
    pretty_json(&c)
}

/// The Zenoh configuration that the server opens its session with, from
/// the text of its configuration file; `InvalidZenohConfig` where the text
/// is no Zenoh configuration in JSON.
pub fn zenoh_config_from_text(text: &str) -> (r: Result<zenoh::Config, ConfigError>)
    ensures
        r is Ok == zenoh_config_parses(text@),
        r is Err ==> r == Err::<zenoh::Config, ConfigError>(ConfigError::InvalidZenohConfig),
{
    match parse_zenoh_config(text) {
        Some(c) => Ok(c),
        None => Err(ConfigError::InvalidZenohConfig),
    }
}

/// Two field lists with the same names, position by position, find every
/// name at the same position.
proof fn lemma_find_key_same_names(
    a: Seq<(String, Json)>,
    b: Seq<(String, Json)>,
    key: Seq<char>,
    i: int,
)
    requires
        a.len() == b.len(),
        forall|j: int| 0 <= j < a.len() ==> #[trigger] a[j].0@ == b[j].0@,
    ensures
        find_key_from(a, key, i) == find_key_from(b, key, i),
    decreases a.len() - i,
{
    if 0 <= i < a.len() {
        lemma_find_key_same_names(a, b, key, i + 1);
    }
}

/// A field appended under another name does not change where a name is
/// found.
proof fn lemma_find_key_after_push(
    a: Seq<(String, Json)>,
    b: Seq<(String, Json)>,
    key: Seq<char>,
    i: int,
)
    requires
        b.len() == a.len() + 1,
        b.take(a.len() as int) == a,
        b.last().0@ != key,
    ensures
        find_key_from(b, key, i) == find_key_from(a, key, i),
    decreases b.len() - i,
{
    if 0 <= i < a.len() {
        assert(b[i] == b.take(a.len() as int)[i]);
        lemma_find_key_after_push(a, b, key, i + 1);
    } else if i == a.len() {
        assert(b[i] == b.last());
        assert(find_key_from(b, key, i + 1) is None);
    }
}

/// A field appended under a name that the list lacks is where that name is
/// found.
proof fn lemma_find_key_appended(a: Seq<(String, Json)>, b: Seq<(String, Json)>, key: Seq<char>, i: int)
    requires
        b.len() == a.len() + 1,
        b.take(a.len() as int) == a,
        b.last().0@ == key,
        0 <= i <= a.len(),
        find_key_from(a, key, i) is None,
    ensures
        find_key_from(b, key, i) == Some(a.len() as int),
    decreases b.len() - i,
{
    if i < a.len() {
        assert(b[i] == b.take(a.len() as int)[i]);
        lemma_find_key_appended(a, b, key, i + 1);
    }
}

/// Where `new` is `old` with only the value at position `i` changed, every
/// other name reads the same value.
proof fn lemma_same_but_at_fields(
    old: Seq<(String, Json)>,
    new: Seq<(String, Json)>,
    i: int,
    key: Seq<char>,
)
    requires
        0 <= i < old.len(),
        same_but_at(old, new, i),
        old[i].0@ != key,
    ensures
        match find_key(new, key) {
            Some(j) => find_key(old, key) == Some(j) && new[j] == old[j],
            None => find_key(old, key) is None,
        },
{
    assert forall|j: int| 0 <= j < old.len() implies #[trigger] old[j].0@ == new[j].0@ by {
        if j != i {
            assert(new[j] == old[j]);
        }
    }
    lemma_find_key_same_names(old, new, key, 0);
    lemma_find_key_from(old, key, 0);
}

/// Where `new` is `old` with one field of another name appended, every
/// name of `old` reads the same value.
proof fn lemma_pushed_fields(old: Seq<(String, Json)>, new: Seq<(String, Json)>, key: Seq<char>)
    requires
        new.len() == old.len() + 1,
        new.take(old.len() as int) == old,
        new.last().0@ != key,
    ensures
        match find_key(new, key) {
            Some(j) => find_key(old, key) == Some(j) && j < old.len() && new[j] == old[j],
            None => find_key(old, key) is None,
        },
{
    lemma_find_key_after_push(old, new, key, 0);
    lemma_find_key_from(old, key, 0);
    match find_key(old, key) {
        Some(j) => {
            assert(new[j] == new.take(old.len() as int)[j]);
        },
        None => {},
    }
}

/// After the model's name is set, `metadata.name` reads the name, and every
/// other field of the configuration reads what it read before: setting the
/// name changes nothing else of the user's configuration.
pub proof fn lemma_metadata_name_set(config: Json, name: Seq<char>, r: Json, key: Seq<char>)
    requires
        with_metadata_name(config, name, r),
        config is Object,
        key != "metadata"@,
    ensures
        get_field(r, key) == get_field(config, key),
        match get_field(r, "metadata"@) {
            Some(m) => match get_field(m, "name"@) {
                Some(v) => is_text(v, name),
                None => false,
            },
            None => false,
        },
{
    match config {
        Json::Object(of) => match r {
            Json::Object(rf) => {
                match find_key(of@, "metadata"@) {
                    Some(i) => {
                        lemma_find_key_from(of@, "metadata"@, 0);
                        lemma_same_but_at_fields(of@, rf@, i, key);
                        assert forall|j: int| 0 <= j < of@.len() implies #[trigger] of@[j].0@
                            == rf@[j].0@ by {
                            if j != i {
                                assert(rf@[j] == of@[j]);
                            }
                        }
                        lemma_find_key_same_names(of@, rf@, "metadata"@, 0);
                        lemma_name_set_reads(of@[i].1, name, rf@[i].1);
                    },
                    None => {
                        lemma_pushed_fields(of@, rf@, key);
                        lemma_find_key_appended(of@, rf@, "metadata"@, 0);
                        lemma_name_set_reads(Json::Null, name, rf@.last().1);
                    },
                }
            },
            _ => {},
        },
        _ => {},
    }
}

/// After `name` is set in a metadata object, its field `name` reads it.
proof fn lemma_name_set_reads(old: Json, name: Seq<char>, r: Json)
    requires
        name_set(old, name, r),
    ensures
        match get_field(r, "name"@) {
            Some(v) => is_text(v, name),
            None => false,
        },
{
    match old {
        Json::Null => {
            match r {
                Json::Object(rf) => {
                    assert(find_key_from(rf@, "name"@, 0) == Some(0int));
                },
                _ => {},
            }
        },
        Json::Object(of) => match r {
            Json::Object(rf) => match find_key(of@, "name"@) {
                Some(i) => {
                    lemma_find_key_from(of@, "name"@, 0);
                    assert forall|j: int| 0 <= j < of@.len() implies #[trigger] of@[j].0@
                        == rf@[j].0@ by {
                        if j != i {
                            assert(rf@[j] == of@[j]);
                        }
                    }
                    lemma_find_key_same_names(of@, rf@, "name"@, 0);
                },
                None => {
                    lemma_find_key_appended(of@, rf@, "name"@, 0);
                },
            },
            _ => {},
        },
        _ => {},
    }
}

} // verus!
