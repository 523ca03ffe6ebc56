//! The lines that describe a build and its assets to people.

use vstd::prelude::*;
use vstd::string::StringExecFns;

use crate::asset::{filter_by_type, of_type, AssetSpec, FeAsset, FeAssetType, RootScript};
use crate::manifest::{BuildSpec, FeBuild};
use crate::text::{decimal, u64_to_string};

verus! {

/// The escape sequence that starts a hyperlink in a terminal.
pub open spec fn link_start(url: Seq<char>) -> Seq<char> {
    "\x1b]8;;"@ + url + "\x1b\\"@
}

/// The escape sequence that ends a hyperlink in a terminal.
pub open spec fn link_end() -> Seq<char> {
    "\x1b]8;;\x1b\\"@
}

/// What follows the filename on the line of an asset: the detail in round
/// brackets, if there is one.
pub open spec fn detail_suffix(detail: Option<Seq<char>>) -> Seq<char> {
    match detail {
        Some(detail) => " ("@ + detail + ")"@,
        None => Seq::empty(),
    }
}

/// The filename of an asset as its line shows it: as it is, or wrapped in a
/// hyperlink to the address of the asset.
pub open spec fn shown_name(asset: AssetSpec, hyperlinking: bool) -> Seq<char> {
    if hyperlinking {
        link_start(asset.url()) + asset.filename() + link_end()
    } else {
        asset.filename()
    }
}

/// The role under which a script is listed: where the page has exactly four
/// scripts, the role at the script's place in the order in which such a
/// page was once laid out; none on any other page.
pub open spec fn listed_role(index: nat, n_scripts: nat) -> Option<RootScript> {
    if n_scripts == 4 && index < 4 {
        Some(RootScript::legacy_ordering()[index as int])
    } else {
        None
    }
}

/// The detail of the chunk loader where its chunks were looked into.
pub open spec fn chunk_loader_detail(n_chunks: nat) -> Seq<char> {
    "chunk loader, "@ + decimal(n_chunks) + " script chunks"@
}

/// The heading of the list of surface assets.
pub open spec fn surface_heading(n_assets: nat) -> Seq<char> {
    "surface assets ("@ + decimal(n_assets) + "):"@
}

/// The optional detail as characters.
pub open spec fn detail_view(detail: Option<&str>) -> Option<Seq<char>> {
    match detail {
        Some(text) => Some(text@),
        None => None,
    }
}

/// Writes the filename of an asset as its line shows it.
pub fn asset_name(asset: &FeAsset, hyperlinking: bool) -> (r: String)
    ensures
        r@ == shown_name(asset@, hyperlinking),
{
    let filename = asset.filename();
    if !hyperlinking {
        return filename;
    }
    let mut out = "\x1b]8;;".to_owned();
    let url = asset.url();
    out.append(url.as_str());
    out.append("\x1b\\");
    out.append(filename.as_str());
    out.append("\x1b]8;;\x1b\\");
    out
}

/// Writes what follows the filename on the line of an asset.
pub fn asset_detail(detail: Option<&str>) -> (r: String)
    ensures
        r@ == detail_suffix(detail_view(detail)),
{
    match detail {
        Some(text) => {
            let mut out = " (".to_owned();
            out.append(text);
            out.append(")");
            out
        },
        None => String::new(),
    }
}

/// Tells the role under which the script at `index` among `n_scripts` is
/// listed.
pub fn role_to_list(index: usize, n_scripts: usize) -> (r: Option<RootScript>)
    ensures
        r == listed_role(index as nat, n_scripts as nat),
{
    if n_scripts == 4 && index < 4 {
        let ordering = RootScript::assumed_ordering();
        Some(ordering[index])
    } else {
        None
    }
}

/// Writes the detail of the chunk loader where its chunks were looked into.
pub fn describe_chunk_loader(n_chunks: usize) -> (r: String)
    ensures
        r@ == chunk_loader_detail(n_chunks as nat),
{
    let mut out = "chunk loader, ".to_owned();
    let count = u64_to_string(n_chunks as u64);
    out.append(count.as_str());
    out.append(" script chunks");
    out
}

/// Writes the heading of the list of the surface assets of a build.
pub fn print_build(build: &FeBuild) -> (r: String)
    ensures
        r@ == surface_heading(build@.manifest.assets.len()),
{
    let mut out = "surface assets (".to_owned();
    let count = u64_to_string(build.manifest.assets.len() as u64);
    out.append(count.as_str());
    out.append("):");
    out
}

/// The surface assets of a build in the order in which they are listed: the
/// scripts, each with the role it is listed under, then the stylesheets.
pub open spec fn listed_assets(build: BuildSpec) -> Seq<(AssetSpec, Option<RootScript>)> {
    let scripts = of_type(build.manifest.assets, FeAssetType::Js);
    let stylesheets = of_type(build.manifest.assets, FeAssetType::Css);
    Seq::new(scripts.len(), |i: int| (scripts[i], listed_role(i as nat, scripts.len())))
        + Seq::new(stylesheets.len(), |i: int| (stylesheets[i], None::<RootScript>))
}

/// Lists the surface assets of a build: the scripts, each with the role it
/// is listed under, then the stylesheets.
pub fn list_assets(build: &FeBuild) -> (r: Vec<(FeAsset, Option<RootScript>)>)
    ensures
        r@.len() == listed_assets(build@).len(),
        forall|i: int|
            0 <= i < r@.len() ==> ((#[trigger] r@[i]).0@, r@[i].1) == listed_assets(build@)[i],
{
    let scripts = filter_by_type(&build.manifest.assets.inner, FeAssetType::Js);
    let stylesheets = filter_by_type(&build.manifest.assets.inner, FeAssetType::Css);
    let ghost listed = listed_assets(build@);
    let mut out: Vec<(FeAsset, Option<RootScript>)> = Vec::new();
    let mut i: usize = 0;
    while i < scripts.len()
        invariant
            i <= scripts@.len(),
            scripts.deep_view() == of_type(build@.manifest.assets, FeAssetType::Js),
            stylesheets.deep_view() == of_type(build@.manifest.assets, FeAssetType::Css),
            scripts.deep_view().len() == scripts@.len(),
            listed == listed_assets(build@),
            out@.len() == i,
            forall|k: int| 0 <= k < i ==> ((#[trigger] out@[k]).0@, out@[k].1) == listed[k],
        decreases scripts@.len() - i,
    {
        assert(scripts.deep_view()[i as int] == scripts@[i as int]@);
        let role = role_to_list(i, scripts.len());
        out.push((scripts[i].duplicate(), role));
        i += 1;
    }
    let mut j: usize = 0;
    while j < stylesheets.len()
        invariant
            j <= stylesheets@.len(),
            scripts.deep_view() == of_type(build@.manifest.assets, FeAssetType::Js),
            stylesheets.deep_view() == of_type(build@.manifest.assets, FeAssetType::Css),
            scripts.deep_view().len() == scripts@.len(),
            stylesheets.deep_view().len() == stylesheets@.len(),
            listed == listed_assets(build@),
            out@.len() == scripts@.len() + j,
            forall|k: int|
                0 <= k < out@.len() ==> ((#[trigger] out@[k]).0@, out@[k].1) == listed[k],
        decreases stylesheets@.len() - j,
    {
        assert(stylesheets.deep_view()[j as int] == stylesheets@[j as int]@);
        out.push((stylesheets[j].duplicate(), None));
        j += 1;
    }
    out
}

} // verus!
