//! What can be dumped from an artifact, and the shape of a dump.

use vstd::prelude::*;
use vstd::string::StringExecFns;

use crate::asset::{root_script, Assets, FeAsset, RootScript};
use crate::scrape::ScrapeError;
use crate::text::str_eq;
use crate::webpack::ParseError;

verus! {

/// Something that can be dumped from an artifact.
#[derive(Debug, Clone, Copy, PartialEq, Eq, Hash, Structural)]
#[non_exhaustive]
pub enum DumpItem {
    /// A representation of the artifact itself.
    Itself,
    /// The class mappings of the modules, by module identifier.
    CssClasses,
    /// The modules within the artifact.
    WebpackModules,
}

impl DumpItem {
    /// The item that `s` names, if any.
    pub open spec fn named(s: Seq<char>) -> Option<DumpItem> {
        if s == "classes"@ {
            Some(DumpItem::CssClasses)
        } else if s == "modules"@ {
            Some(DumpItem::WebpackModules)
        } else if s == "self"@ {
            Some(DumpItem::Itself)
        } else {
            None
        }
    }

    /// Reads an item from its name: `classes`, `modules` or `self`.
    pub fn from_str(s: &str) -> (r: Result<DumpItem, ()>)
        ensures
            match DumpItem::named(s@) {
                Some(item) => r == Ok::<DumpItem, ()>(item),
                None => r is Err,
            },
    {
        if str_eq(s, "classes") {
            Ok(DumpItem::CssClasses)
        } else if str_eq(s, "modules") {
            Ok(DumpItem::WebpackModules)
        } else if str_eq(s, "self") {
            Ok(DumpItem::Itself)
        } else {
            Err(())
        }
    }
}

/// Types of dump results.
#[derive(Debug, Clone, Copy, PartialEq, Eq, Hash, Structural)]
pub enum DumpResultType {
    Js,
    Json,
}

impl DumpResultType {
    /// The file extension of the type.
    pub open spec fn extension(self) -> Seq<char> {
        match self {
            DumpResultType::Js => "js"@,
            DumpResultType::Json => "json"@,
        }
    }

    /// Returns the file extension of the type.
    pub fn ext(&self) -> (r: &'static str)
        ensures
            r@ == self.extension(),
    {
        match self {
            DumpResultType::Js => "js",
            DumpResultType::Json => "json",
        }
    }
}

/// The content of a dump.
#[derive(Debug, Clone, PartialEq, Eq)]
pub enum DumpContent {
    /// A value written as JSON text.
    Json(String),
    /// Text, with the extension of the file that is to hold it.
    Text { content: String, extension: String },
}

impl DumpContent {
    /// The extension of the file that is to hold the content.
    pub open spec fn extension(self) -> Seq<char> {
        match self {
            DumpContent::Json(_) => "json"@,
            DumpContent::Text { extension, .. } => extension@,
        }
    }

    /// The text that is written to the file.
    pub open spec fn text(self) -> Seq<char> {
        match self {
            DumpContent::Json(text) => text@,
            DumpContent::Text { content, .. } => content@,
        }
    }
}

/// A dump result: a named piece of content.
#[derive(Debug, Clone, PartialEq, Eq)]
pub struct DumpResult {
    pub name: String,
    pub content: DumpContent,
}

impl DumpResult {
    /// The name of the file that is to hold the dump: the name of the dump,
    /// a period and the extension of its content.
    pub open spec fn file(self) -> Seq<char> {
        self.name@ + "."@ + self.content.extension()
    }

    /// A dump of JSON text under `name`.
    pub fn from_json(json: String, name: &str) -> (r: DumpResult)
        ensures
            r.name@ == name@,
            r.content == DumpContent::Json(json),
    {
        DumpResult { name: name.to_owned(), content: DumpContent::Json(json) }
    }

    /// A dump of text under `name`, for a file with the given extension.
    pub fn from_text(content: String, extension: &str, name: &str) -> (r: DumpResult)
        ensures
            r.name@ == name@,
            r.content matches DumpContent::Text { content: c, extension: e } && c == content && e@
                == extension@,
    {
        DumpResult {
            name: name.to_owned(),
            content: DumpContent::Text { content, extension: extension.to_owned() },
        }
    }

    /// Returns the name of the file that is to hold the dump.
    pub fn filename(&self) -> (r: String)
        ensures
            r@ == self.file(),
    {
        let mut out = self.name.clone();
        out.append(".");
        match &self.content {
            DumpContent::Json(_) => out.append("json"),
            DumpContent::Text { extension, .. } => out.append(extension.as_str()),
        }
        out
    }

    /// Returns the text that is written to the file.
    pub fn writable_content(&self) -> (r: &str)
        ensures
            r@ == self.content.text(),
    {
        match &self.content {
            DumpContent::Json(text) => text.as_str(),
            DumpContent::Text { content, .. } => content.as_str(),
        }
    }
}

/// The name of the file that a dump from an artifact goes to, below the
/// working directory: `havoc_`, the artifact's prefix, `_` and the dump's
/// file name.
pub open spec fn dump_path(prefix: Seq<char>, file: Seq<char>) -> Seq<char> {
    "havoc_"@ + prefix + "_"@ + file
}

/// Returns the name of the file that a dump from an artifact goes to.
pub fn dump_file_name(prefix: &str, result: &DumpResult) -> (r: String)
    ensures
        r@ == dump_path(prefix@, result.file()),
{
    let mut out = "havoc_".to_owned();
    out.append(prefix);
    out.append("_");
    let file = result.filename();
    out.append(file.as_str());
    out
}

/// Why a dump failed.
#[derive(Debug, Clone, PartialEq, Eq)]
pub enum DumpError {
    /// The scrape of what was to be dumped failed.
    ScrapeFailed(ScrapeError),
    /// The preprocessor of an asset failed; the message is its own.
    Preprocessing(String),
    /// The value could not be written as JSON; the message is the
    /// writer's.
    SerializationFailed(String),
    /// The script could not be parsed or walked.
    JSParseError(ParseError),
}

impl DumpError {
    /// The message of the error.
    pub fn to_string(&self) -> (r: String)
        ensures
            r@ == match *self {
                DumpError::ScrapeFailed(_) => "failed to scrape"@,
                DumpError::Preprocessing(_) => "failed to preprocess asset"@,
                DumpError::SerializationFailed(_) => "failed to serialize to JSON"@,
                DumpError::JSParseError(_) => "failed to parse/traverse JS"@,
            },
    {
        match self {
            DumpError::ScrapeFailed(_) => "failed to scrape".to_owned(),
            DumpError::Preprocessing(_) => "failed to preprocess asset".to_owned(),
            DumpError::SerializationFailed(_) => "failed to serialize to JSON".to_owned(),
            DumpError::JSParseError(_) => "failed to parse/traverse JS".to_owned(),
        }
    }
}

/// The script that a dump reads: the one that is assumed to have the role
/// `role`. Where there is none the failure is told with `why`.
fn dumped_script(assets: &Assets, role: RootScript, why: &'static str) -> (r: Result<
    FeAsset,
    DumpError,
>)
    ensures
        match root_script(assets@, role) {
            Some(a) => r matches Ok(found) && found@ == a,
            None => r matches Err(
                DumpError::ScrapeFailed(ScrapeError::MissingBranchPageAssets(reason)),
            ) && reason@ == why@,
        },
{
    match assets.find_root_script(role) {
        Some(asset) => Ok(asset),
        None => Err(DumpError::ScrapeFailed(ScrapeError::MissingBranchPageAssets(why))),
    }
}

/// The dump of the class mappings of the modules.
#[derive(Debug, Clone, Copy, PartialEq, Eq)]
pub struct CSSClasses;

impl CSSClasses {
    /// The script that holds the class mappings: the first script.
    pub fn script(assets: &Assets) -> (r: Result<FeAsset, DumpError>)
        ensures
            match root_script(assets@, RootScript::Classes) {
                Some(a) => r matches Ok(found) && found@ == a,
                None => r matches Err(
                    DumpError::ScrapeFailed(ScrapeError::MissingBranchPageAssets(reason)),
                ) && reason@
                    == "failed to locate root classes script; discord has updated their /channels/@me"@,
            },
    {
        dumped_script(
            assets,
            RootScript::Classes,
            "failed to locate root classes script; discord has updated their /channels/@me",
        )
    }

    /// The dump of class mappings written as JSON.
    pub fn dump(json: String) -> (r: DumpResult)
        ensures
            r.name@ == "classes"@,
            r.content == DumpContent::Json(json),
    {
        DumpResult::from_json(json, "classes")
    }
}

/// The dump of the modules of the entry point.
#[derive(Debug, Clone, Copy, PartialEq, Eq)]
pub struct WebpackModules;

impl WebpackModules {
    /// The script that holds the modules: the one before the last.
    pub fn script(assets: &Assets) -> (r: Result<FeAsset, DumpError>)
        ensures
            match root_script(assets@, RootScript::Entrypoint) {
                Some(a) => r matches Ok(found) && found@ == a,
                None => r matches Err(
                    DumpError::ScrapeFailed(ScrapeError::MissingBranchPageAssets(reason)),
                ) && reason@
                    == "failed to locate root entrypoint script; discord has updated their HTML"@,
            },
    {
        dumped_script(
            assets,
            RootScript::Entrypoint,
            "failed to locate root entrypoint script; discord has updated their HTML",
        )
    }

    /// The dump of module texts written as JSON.
    pub fn dump(json: String) -> (r: DumpResult)
        ensures
            r.name@ == "entrypoint_modules"@,
            r.content == DumpContent::Json(json),
    {
        DumpResult::from_json(json, "entrypoint_modules")
    }
}

} // verus!
