//! The home directory and the installation root named by the settings
//! document `setting.json`.
use crate::paths::{join_path, join_spec, Platform};
use vstd::prelude::*;

verus! {

/// One member of a JSON object: its key, and its value where that is a string.
#[derive(Debug)]
pub struct JsonField {
    pub key: String,
    pub text: Option<String>,
}

/// What the settings reader sees of a JSON document.
#[derive(Debug)]
pub enum JsonDocument {
    /// The text is not JSON.
    Malformed,
    /// The text is JSON, but not an object.
    NotObject,
    /// A JSON object, with its members.
    Object(Vec<JsonField>),
}

/// A member of a JSON object as plain text.
pub struct JsonFieldView {
    pub key: Seq<char>,
    pub text: Option<Seq<char>>,
}

/// A JSON document as the settings reader sees it, as plain text.
pub enum JsonDocumentView {
    Malformed,
    NotObject,
    Object(Seq<JsonFieldView>),
}

impl View for JsonField {
    type V = JsonFieldView;

    open spec fn view(&self) -> JsonFieldView {
        JsonFieldView {
            key: self.key@,
            text: match self.text {
                Some(t) => Some(t@),
                None => None,
            },
        }
    }
}

impl View for JsonDocument {
    type V = JsonDocumentView;

    open spec fn view(&self) -> JsonDocumentView {
        match self {
            JsonDocument::Malformed => JsonDocumentView::Malformed,
            JsonDocument::NotObject => JsonDocumentView::NotObject,
            JsonDocument::Object(fields) => JsonDocumentView::Object(
                fields@.map_values(|f: JsonField| f@),
            ),
        }
    }
}

/// The document that serde_json reads from a text.
pub uninterp spec fn json_document_of(text: Seq<char>) -> JsonDocumentView;

/// Relies on serde_json::from_str::<serde_json::Value>: the text parsed as
/// JSON, with the members of a top-level object and their string values.
#[verifier::external_body]
fn parse_json_document(text: &str) -> (r: JsonDocument)
    ensures
        r@ == json_document_of(text@),
{
    match serde_json::from_str::<serde_json::Value>(text) {
        Err(_) => JsonDocument::Malformed,
        Ok(serde_json::Value::Object(m)) => JsonDocument::Object(
            m.into_iter().map(|(key, v)| match v {
                serde_json::Value::String(s) => JsonField { key, text: Some(s) },
                _ => JsonField { key, text: None },
            }).collect(),
        ),
        Ok(_) => JsonDocument::NotObject,
    }
}

/// The text of the first member named `key`, where that member's value is a string.
pub open spec fn field_text(fields: Seq<JsonFieldView>, key: Seq<char>) -> Option<Seq<char>>
    decreases fields.len(),
{
    if fields.len() == 0 {
        None
    } else if fields[0].key == key {
        fields[0].text
    } else {
        field_text(fields.drop_first(), key)
    }
}

/// The member of the settings document that names the installation root.
pub open spec fn directory_key() -> Seq<char> {
    seq!['d', 'i', 'r', 'e', 'c', 't', 'o', 'r', 'y']
}

/// The installation root that a document names: its string member `directory`.
pub open spec fn document_directory(doc: JsonDocumentView) -> Option<Seq<char>> {
    match doc {
        JsonDocumentView::Object(fields) => field_text(fields, directory_key()),
        _ => None,
    }
}

/// `<home>/versions`, where versions are installed unless the settings say otherwise.
pub open spec fn default_root_spec(home: Seq<char>, p: Platform) -> Seq<char> {
    join_spec(home, seq!['v', 'e', 'r', 's', 'i', 'o', 'n', 's'], p)
}

/// The installation root given the settings text (`None` where it could not
/// be read): the document's `directory` where it names one, else `default_root`.
pub open spec fn installation_root_spec(content: Option<Seq<char>>, default_root: Seq<char>) -> Seq<char> {
    match content {
        Some(text) if text.len() > 0 => match document_directory(json_document_of(text)) {
            Some(dir) => dir,
            None => default_root,
        },
        _ => default_root,
    }
}

/// The home directory of the tool: `<user home>/.nvmd`, or empty where the
/// user's home is not known.
pub open spec fn nvmd_path_spec(user_home: Option<Seq<char>>, p: Platform) -> Seq<char> {
    match user_home {
        Some(h) => join_spec(h, seq!['.', 'n', 'v', 'm', 'd'], p),
        None => Seq::empty(),
    }
}

/// The text of the first member named `key` whose value is a string.
pub fn find_field_text(fields: &Vec<JsonField>, key: &String) -> (r: Option<String>)
    ensures
        match r {
            Some(t) => field_text(fields@.map_values(|f: JsonField| f@), key@) == Some(t@),
            None => field_text(fields@.map_values(|f: JsonField| f@), key@) is None,
        },
{
    let ghost fs = fields@.map_values(|f: JsonField| f@);
    let mut i: usize = 0;
    assert(fs.skip(0) =~= fs);
    while i < fields.len()
        invariant
            fs == fields@.map_values(|f: JsonField| f@),
            i <= fields.len(),
            field_text(fs, key@) == field_text(fs.skip(i as int), key@),
        decreases fields.len() - i,
    {
        assert(fs.skip(i as int)[0] == fields@[i as int]@);
        if fields[i].key == *key {
            return fields[i].text.clone();
        }
        assert(fs.skip(i as int).drop_first() =~= fs.skip(i + 1));
        i = i + 1;
    }
    None
}

/// The installation root that a parsed settings document gives.
pub fn installation_root_from_document(doc: &JsonDocument, default_root: &str) -> (r: String)
    ensures
        r@ == match document_directory(doc@) {
            Some(dir) => dir,
            None => default_root@,
        },
{
    match doc {
        JsonDocument::Object(fields) => {
            let key = String::from_str("directory");
            proof {
                reveal_strlit("directory");
            }
            assert(key@ =~= directory_key());
            match find_field_text(fields, &key) {
                Some(dir) => dir,
                None => String::from_str(default_root),
            }
        },
        _ => String::from_str(default_root),
    }
}

/// `<home>/versions`.
pub fn get_default_installtion_path(nvmd_path: &str, p: Platform) -> (r: String)
    ensures
        r@ == default_root_spec(nvmd_path@, p),
{
    let v = "versions";
    proof {
        reveal_strlit("versions");
    }
    join_path(nvmd_path, v, p)
}

/// The installation root: the `directory` of the settings document read
/// from `<home>/setting.json` (`content`, `None` where the file could not be
/// read) where it names one; else `<home>/versions`. A missing, empty or
/// malformed document, or one without a string `directory`, gives the default.
pub fn get_installtion_path(nvmd_path: &str, content: Option<String>, p: Platform) -> (r: String)
    ensures
        r@ == installation_root_spec(
            match content {
                Some(c) => Some(c@),
                None => None,
            },
            default_root_spec(nvmd_path@, p),
        ),
{
    let default_root = get_default_installtion_path(nvmd_path, p);
    match content {
        None => default_root,
        Some(text) => {
            if text.as_str().is_empty() {
                return default_root;
            }
            let doc = parse_json_document(text.as_str());
            installation_root_from_document(&doc, default_root.as_str())
        },
    }
}

/// Relies on dirs::home_dir: the user's home directory, where it is known
/// and is valid Unicode. It depends on the environment.
#[verifier::external_body]
fn user_home_dir() -> (r: Option<String>) {
    dirs::home_dir().and_then(|h| h.into_os_string().into_string().ok())
}

/// The tool's home directory `<user home>/.nvmd` for a known user home.
pub fn default_home_dir(user_home: Option<String>, p: Platform) -> (r: Option<String>)
    ensures
        match user_home {
            Some(h) => r is Some && r->0@ == nvmd_path_spec(Some(h@), p),
            None => r is None,
        },
{
    match user_home {
        Some(h) => {
            let d = ".nvmd";
            proof {
                reveal_strlit(".nvmd");
            }
            Some(join_path(h.as_str(), d, p))
        },
        None => None,
    }
}

/// The tool's home directory `<user home>/.nvmd`, or empty where the user's
/// home is not known.
pub fn get_nvmd_path(p: Platform) -> (r: String)
    ensures
        exists|h: Option<Seq<char>>| r@ == nvmd_path_spec(h, p),
{
    let home = user_home_dir();
    let ghost h = if home is Some {
        Some(home->0@)
    } else {
        None
    };
    let r = match default_home_dir(home, p) {
        Some(path) => path,
        None => String::new(),
    };
    assert(r@ == nvmd_path_spec(h, p));
    r
}

} // verus!

verus! {

/// A settings document that parses as a JSON object with a string member
/// `directory` gives exactly that directory as the installation root.
pub proof fn lemma_directory_setting_is_used(home: Seq<char>, text: Seq<char>, dir: Seq<char>, p: Platform)
    requires
        text.len() > 0,
        json_document_of(text) matches JsonDocumentView::Object(fields) && field_text(
            fields,
            directory_key(),
        ) == Some(dir),
    ensures
        installation_root_spec(Some(text), default_root_spec(home, p)) == dir,
{
}

/// A missing, empty or malformed settings document (not JSON, not an
/// object, without `directory`, or with a `directory` that is not a string)
/// gives `<home>/versions` as the installation root.
pub proof fn lemma_malformed_settings_give_default(home: Seq<char>, content: Option<Seq<char>>, p: Platform)
    requires
        match content {
            None => true,
            Some(text) => text.len() == 0 || match json_document_of(text) {
                JsonDocumentView::Malformed => true,
                JsonDocumentView::NotObject => true,
                JsonDocumentView::Object(fields) => field_text(fields, directory_key()) is None,
            },
        },
    ensures
        installation_root_spec(content, default_root_spec(home, p)) == default_root_spec(home, p),
{
}

} // verus!
