//! Per-collection configuration and commit-identity resolution.
//!
//! A collection's configuration is a JSON document whose top-level `"git"`
//! object may hold `"use.default"` (a boolean), `"user.name"` and
//! `"user.email"` (strings).  The library reduces the document to exactly
//! those entries: an entry that is absent, or present with a value of the
//! wrong type, counts as absent.  Beside the document, a configuration
//! carries a snapshot of the environment-wide git identity, captured once
//! at construction and never persisted.

use vstd::prelude::*;
use vstd::string::StringExecFns;

use serde_json::Value;
use serde_json::Map as JsonMap;

use crate::error::Error;
use crate::error::ErrorCategory;
use crate::fsio;

verus! {

/// The `"git"` section of a configuration document, reduced to the entries
/// identity resolution reads.
#[derive(Debug)]
pub struct GitSection {
    /// `"use.default"`: present and boolean, or counted absent.
    pub use_default: Option<bool>,
    /// `"user.name"`: present and a string, or counted absent.
    pub user_name: Option<String>,
    /// `"user.email"`: present and a string, or counted absent.
    pub user_email: Option<String>,
}

/// A configuration document reduced to what identity resolution reads.
#[derive(Debug)]
pub struct ConfigDoc {
    /// The `"git"` section; present whenever the document has a `"git"` key.
    pub git: Option<GitSection>,
}

/// The mathematical content of a [`GitSection`].
pub ghost struct GitSectionV {
    pub use_default: Option<bool>,
    pub user_name: Option<Seq<char>>,
    pub user_email: Option<Seq<char>>,
}

/// The mathematical content of a [`ConfigDoc`].
pub ghost struct ConfigDocV {
    pub git: Option<GitSectionV>,
}

impl View for GitSection {
    type V = GitSectionV;

    open spec fn view(&self) -> GitSectionV {
        GitSectionV {
            use_default: self.use_default,
            user_name: match self.user_name {
                Some(s) => Some(s@),
                None => None,
            },
            user_email: match self.user_email {
                Some(s) => Some(s@),
                None => None,
            },
        }
    }
}

impl View for ConfigDoc {
    type V = ConfigDocV;

    open spec fn view(&self) -> ConfigDocV {
        ConfigDocV {
            git: match self.git {
                Some(g) => Some(g@),
                None => None,
            },
        }
    }
}

/// A snapshot of the environment-wide git identity.
#[derive(Debug)]
pub struct EnvIdentity {
    /// The environment's `user.name`, when it holds one.
    pub name: Option<String>,
    /// The environment's `user.email`, when it holds one.
    pub email: Option<String>,
}

/// The mathematical content of an [`EnvIdentity`].
pub ghost struct EnvIdentityV {
    pub name: Option<Seq<char>>,
    pub email: Option<Seq<char>>,
}

impl View for EnvIdentity {
    type V = EnvIdentityV;

    open spec fn view(&self) -> EnvIdentityV {
        EnvIdentityV {
            name: match self.name {
                Some(s) => Some(s@),
                None => None,
            },
            email: match self.email {
                Some(s) => Some(s@),
                None => None,
            },
        }
    }
}

/// The two identity entries a commit needs.
#[derive(Clone, Copy, PartialEq, Eq, Structural, Debug)]
pub enum IdentityField {
    /// The author's name (`"user.name"`).
    Name,
    /// The author's email (`"user.email"`).
    Email,
}

/// The entry of a git section that `field` names.
pub open spec fn section_field(g: GitSectionV, field: IdentityField) -> Option<Seq<char>> {
    match field {
        IdentityField::Name => g.user_name,
        IdentityField::Email => g.user_email,
    }
}

/// The entry of an environment identity that `field` names.
pub open spec fn env_field(e: EnvIdentityV, field: IdentityField) -> Option<Seq<char>> {
    match field {
        IdentityField::Name => e.name,
        IdentityField::Email => e.email,
    }
}

/// What identity resolution returns, and with which error category it
/// fails: without a `"git"` section it fails as a configuration error; with
/// `"use.default"` set to `true` the value comes from the environment
/// snapshot alone (missing there: a git error); otherwise it comes from the
/// document alone (missing there: a configuration error).
pub open spec fn resolve_spec(doc: ConfigDocV, env: EnvIdentityV, field: IdentityField) -> Result<
    Seq<char>,
    ErrorCategory,
> {
    match doc.git {
        None => Err(ErrorCategory::Config),
        Some(g) => {
            if g.use_default == Some(true) {
                match env_field(env, field) {
                    Some(v) => Ok(v),
                    None => Err(ErrorCategory::Git),
                }
            } else {
                match section_field(g, field) {
                    Some(v) => Ok(v),
                    None => Err(ErrorCategory::Config),
                }
            }
        },
    }
}

/// With `"use.default"` set to `true`, resolution reads the environment
/// snapshot alone: two configurations sharing one environment resolve
/// alike, whatever identity entries their documents hold.
pub proof fn lemma_default_ignores_document(
    g1: GitSectionV,
    g2: GitSectionV,
    env: EnvIdentityV,
    field: IdentityField,
)
    requires
        g1.use_default == Some(true),
        g2.use_default == Some(true),
    ensures
        resolve_spec((ConfigDocV { git: Some(g1) }), env, field) == resolve_spec(
            (ConfigDocV { git: Some(g2) }),
            env,
            field,
        ),
{
}

/// Without `"use.default"` set to `true`, resolution reads the document
/// alone: an entry missing there fails as a configuration error, whatever
/// the environment holds, and a present entry resolves to exactly its
/// value.
pub proof fn lemma_document_resolution(g: GitSectionV, env: EnvIdentityV, field: IdentityField)
    requires
        g.use_default != Some(true),
    ensures
        section_field(g, field) is None ==> resolve_spec((ConfigDocV { git: Some(g) }), env, field)
            == Err::<Seq<char>, ErrorCategory>(ErrorCategory::Config),
        (section_field(g, field) matches Some(v) ==> resolve_spec(
            (ConfigDocV { git: Some(g) }),
            env,
            field,
        ) == Ok::<Seq<char>, ErrorCategory>(v)),
{
}

/// The document a fresh configuration starts from: a `"git"` section that
/// opts into the environment identity and holds nothing else.
pub open spec fn default_doc() -> ConfigDocV {
    ConfigDocV {
        git: Some(
            GitSectionV { use_default: Some(true), user_name: None, user_email: None },
        ),
    }
}

/// What a byte sequence parses to: the reduced document when the bytes are
/// a valid JSON document, and nothing when they are not.
pub uninterp spec fn parse_doc(bytes: Seq<u8>) -> Option<ConfigDocV>;

/// Relies on `serde_json::from_slice` and the accessors of
/// `serde_json::Value`: whether bytes parse as JSON, and what the document's
/// `"git"` section holds, depend on the bytes alone.
#[verifier::external_body]
fn parse_config_bytes(bytes: &Vec<u8>) -> (r: Result<ConfigDoc, String>)
    ensures
        r matches Ok(d) ==> parse_doc(bytes@) == Some(d@),
        r is Err ==> parse_doc(bytes@) is None,
{
    let v: Value = serde_json::from_slice(bytes).map_err(|e| e.to_string())?;
    let git = v.get("git");
    Ok(ConfigDoc {
        git: git.map(|g| GitSection {
            use_default: g.get("use.default").and_then(Value::as_bool),
            user_name: g.get("user.name").and_then(Value::as_str).map(|s| s.to_owned()),
            user_email: g.get("user.email").and_then(Value::as_str).map(|s| s.to_owned()),
        }),
    })
}

/// Relies on `serde_json::to_string_pretty`: the pretty-printed text of the
/// document, which parses back to the document it was made from.
#[verifier::external_body]
fn doc_to_pretty_bytes(doc: &ConfigDoc) -> (r: Result<Vec<u8>, String>)
    ensures
        r matches Ok(b) ==> parse_doc(b@) == Some(doc@),
{
    let mut root = JsonMap::new();
    if let Some(g) = &doc.git {
        let mut sect = JsonMap::new();
        if let Some(b) = g.use_default {
            sect.insert("use.default".to_owned(), Value::Bool(b));
        }
        if let Some(n) = &g.user_name {
            sect.insert("user.name".to_owned(), Value::String(n.clone()));
        }
        if let Some(m) = &g.user_email {
            sect.insert("user.email".to_owned(), Value::String(m.clone()));
        }
        root.insert("git".to_owned(), Value::Object(sect));
    }
    serde_json::to_string_pretty(&Value::Object(root)).map(String::into_bytes).map_err(|e| e.to_string())
}

/// Relies on `git2::Config::open_default`, `snapshot` and `get_string`:
/// freezes the environment-wide git configuration and reads its
/// `user.name` and `user.email`, each `None` when missing or not text.
#[verifier::external_body]
fn snapshot_env_identity() -> Result<EnvIdentity, String> {
    let snapshot = git2::Config::open_default()
        .and_then(|mut c| c.snapshot())
        .map_err(|e| e.message().to_owned())?;
    Ok(EnvIdentity {
        name: snapshot.get_string("user.name").ok(),
        email: snapshot.get_string("user.email").ok(),
    })
}

/// Captures the environment-wide git identity.  Fails as a configuration
/// error when the environment configuration cannot be snapshotted.
fn capture_env_identity() -> (r: Result<EnvIdentity, Error>)
    ensures
        r matches Err(e) ==> e@.category == ErrorCategory::Config,
{
    match snapshot_env_identity() {
        Ok(env) => Ok(env),
        Err(msg) => Err(Error::from_string(msg.as_str(), ErrorCategory::Config)),
    }
}

/// The mathematical content of a [`Config`].
pub ghost struct ConfigV {
    pub doc: ConfigDocV,
    pub env: EnvIdentityV,
}

/// A collection's configuration: the reduced document together with the
/// environment identity snapshot taken when it was built.
#[derive(Debug)]
pub struct Config {
    doc: ConfigDoc,
    env: EnvIdentity,
}

impl View for Config {
    type V = ConfigV;

    closed spec fn view(&self) -> ConfigV {
        ConfigV { doc: self.doc@, env: self.env@ }
    }
}

impl Config {
    /// Builds the default configuration and captures the environment
    /// identity.
    pub fn new() -> (r: Result<Config, Error>)
        ensures
            r matches Ok(c) ==> c@.doc == default_doc(),
            r matches Err(e) ==> e@.category == ErrorCategory::Config,
    {
        let doc = ConfigDoc {
            git: Some(
                GitSection { use_default: Some(true), user_name: None, user_email: None },
            ),
        };
        Config::from_doc(doc)
    }

    /// Validates a document's structure.  Only presence is checked today,
    /// so every document passes.
    fn validate(_doc: &ConfigDoc) -> (r: Result<(), Error>)
        ensures
            r is Ok,
    {
        Ok(())
    }

    /// Wraps a validated document and captures the environment identity.
    pub fn from_doc(doc: ConfigDoc) -> (r: Result<Config, Error>)
        ensures
            r matches Ok(c) ==> c@.doc == doc@,
            r matches Err(e) ==> e@.category == ErrorCategory::Config,
    {
        Config::validate(&doc)?;
        let env = capture_env_identity()?;
        Ok(Config { doc, env })
    }

    /// Builds a configuration from an already-captured environment
    /// identity, so a caller can substitute a fixed one.
    pub fn from_parts(doc: ConfigDoc, env: EnvIdentity) -> (r: Config)
        ensures
            r@.doc == doc@,
            r@.env == env@,
    {
        Config { doc, env }
    }

    /// Parses a configuration document from raw bytes and captures the
    /// environment identity.  Malformed bytes fail as a serialization
    /// error.
    pub fn load_bytes(bytes: &Vec<u8>) -> (r: Result<Config, Error>)
        ensures
            r matches Ok(c) ==> parse_doc(bytes@) == Some(c@.doc),
            parse_doc(bytes@) is None ==> (r matches Err(e) && e@.category == ErrorCategory::IO),
            r matches Err(e) ==> e@.category == ErrorCategory::IO || e@.category
                == ErrorCategory::Config,
    {
        match parse_config_bytes(bytes) {
            Ok(doc) => Config::from_doc(doc),
            Err(msg) => Err(Error::from_string(msg.as_str(), ErrorCategory::IO)),
        }
    }

    /// Loads a configuration from a file.  An unreadable file fails as a
    /// filesystem error; malformed content as a serialization error.
    pub fn load(config_file: &str) -> (r: Result<Config, Error>)
        ensures
            r matches Err(e) ==> e@.category == ErrorCategory::Os || e@.category
                == ErrorCategory::IO || e@.category == ErrorCategory::Config,
    {
        match fsio::read_file(config_file) {
            Ok(bytes) => Config::load_bytes(&bytes),
            Err(msg) => Err(Error::from_string(msg.as_str(), ErrorCategory::Os)),
        }
    }

    /// The pretty-printed text of the document, as bytes that parse back to
    /// it.  The environment snapshot is never serialized.
    pub fn to_pretty_bytes(&self) -> (r: Result<Vec<u8>, Error>)
        ensures
            r matches Ok(b) ==> parse_doc(b@) == Some(self@.doc),
            r matches Err(e) ==> e@.category == ErrorCategory::IO,
    {
        match doc_to_pretty_bytes(&self.doc) {
            Ok(bytes) => Ok(bytes),
            Err(msg) => Err(Error::from_string(msg.as_str(), ErrorCategory::IO)),
        }
    }

    /// Saves the document to a file in one write call.
    pub fn save(&self, config_file: &str) -> (r: Result<(), Error>)
        ensures
            r matches Err(e) ==> e@.category == ErrorCategory::IO || e@.category
                == ErrorCategory::Os,
    {
        let bytes = self.to_pretty_bytes()?;
        match fsio::write_file(config_file, &bytes) {
            Ok(_) => Ok(()),
            Err(msg) => Err(Error::from_string(msg.as_str(), ErrorCategory::Os)),
        }
    }

    /// The reduced document this configuration holds.
    pub fn doc(&self) -> (r: &ConfigDoc)
        ensures
            r@ == self@.doc,
    {
        &self.doc
    }

    /// The environment identity snapshot this configuration holds.
    pub fn env(&self) -> (r: &EnvIdentity)
        ensures
            r@ == self@.env,
    {
        &self.env
    }

    /// Resolves one identity entry, exactly as [`resolve_spec`] says: from
    /// the environment snapshot when the document opts into defaults, from
    /// the document otherwise.
    pub fn resolve_identity_field(&self, field: IdentityField) -> (r: Result<String, Error>)
        ensures
            match resolve_spec(self@.doc, self@.env, field) {
                Ok(v) => r matches Ok(s) && s@ == v,
                Err(c) => r matches Err(e) && e@.category == c,
            },
    {
        match &self.doc.git {
            None => Err(Error::from_string("missing git section in config", ErrorCategory::Config)),
            Some(section) => {
                let use_default = match section.use_default {
                    Some(b) => b,
                    None => false,
                };
                if use_default {
                    let value = match field {
                        IdentityField::Name => &self.env.name,
                        IdentityField::Email => &self.env.email,
                    };
                    match value {
                        Some(s) => Ok(s.clone()),
                        None => Err(
                            Error::from_string(
                                Config::missing_field_message(field, " not found in default git config").as_str(),
                                ErrorCategory::Git,
                            ),
                        ),
                    }
                } else {
                    let value = match field {
                        IdentityField::Name => &section.user_name,
                        IdentityField::Email => &section.user_email,
                    };
                    match value {
                        Some(s) => Ok(s.clone()),
                        None => Err(
                            Error::from_string(
                                Config::missing_field_message(field, " parameter missing in git section").as_str(),
                                ErrorCategory::Config,
                            ),
                        ),
                    }
                }
            },
        }
    }

    /// Builds an error description naming the identity entry.
    fn missing_field_message(field: IdentityField, what: &str) -> String {
        let mut msg = match field {
            IdentityField::Name => "user.name".to_owned(),
            IdentityField::Email => "user.email".to_owned(),
        };
        msg.append(what);
        msg
    }

    /// Resolves the author name, as [`resolve_spec`] says.
    pub fn resolve_name(&self) -> (r: Result<String, Error>)
        ensures
            match resolve_spec(self@.doc, self@.env, IdentityField::Name) {
                Ok(v) => r matches Ok(s) && s@ == v,
                Err(c) => r matches Err(e) && e@.category == c,
            },
    {
        self.resolve_identity_field(IdentityField::Name)
    }

    /// Resolves the author email, as [`resolve_spec`] says.
    pub fn resolve_email(&self) -> (r: Result<String, Error>)
        ensures
            match resolve_spec(self@.doc, self@.env, IdentityField::Email) {
                Ok(v) => r matches Ok(s) && s@ == v,
                Err(c) => r matches Err(e) && e@.category == c,
            },
    {
        self.resolve_identity_field(IdentityField::Email)
    }
}

} // verus!
