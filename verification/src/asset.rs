//! Assets of a frontend build: their kinds, names and addresses, and the
//! positional roles of the scripts that the entry page references.

use vstd::prelude::*;
use vstd::string::StringExecFns;

use crate::text::to_chars;

verus! {

/// A kind of frontend asset.
#[derive(Debug, Clone, Copy, PartialEq, Eq, Hash, Structural)]
pub enum FeAssetType {
    Css,
    Js,
    Ico,
    Svg,
    Webm,
    Webp,
    Gif,
}

impl FeAssetType {
    /// The canonical lowercase file extension of the kind.
    pub open spec fn extension(self) -> Seq<char> {
        match self {
            FeAssetType::Css => "css"@,
            FeAssetType::Js => "js"@,
            FeAssetType::Ico => "ico"@,
            FeAssetType::Svg => "svg"@,
            FeAssetType::Webm => "webm"@,
            FeAssetType::Webp => "webp"@,
            FeAssetType::Gif => "gif"@,
        }
    }

    /// Returns the file extension of this asset type.
    pub fn ext(&self) -> (r: &'static str)
        ensures
            r@ == self.extension(),
    {
        match self {
            FeAssetType::Css => "css",
            FeAssetType::Js => "js",
            FeAssetType::Ico => "ico",
            FeAssetType::Svg => "svg",
            FeAssetType::Webm => "webm",
            FeAssetType::Webp => "webp",
            FeAssetType::Gif => "gif",
        }
    }
}

/// Whether `c` may stand in an asset name: a period, a digit or a lowercase
/// ASCII letter.
pub open spec fn is_name_char(c: char) -> bool {
    c == '.' || ('0' <= c && c <= '9') || ('a' <= c && c <= 'z')
}

/// Whether `name` is a well-formed asset name: not empty, and made of name
/// characters only.
pub open spec fn is_asset_name(name: Seq<char>) -> bool {
    name.len() > 0 && forall|i: int| 0 <= i < name.len() ==> is_name_char(#[trigger] name[i])
}

/// The origin that serves the assets of every branch.
pub open spec fn asset_origin() -> Seq<char> {
    "https://discord.com"@
}

/// The directory of the assets below the origin.
pub open spec fn asset_directory() -> Seq<char> {
    "/assets/"@
}

/// What an asset is, as mathematics: its name and its kind.
pub struct AssetSpec {
    pub name: Seq<char>,
    pub typ: FeAssetType,
}

impl AssetSpec {
    /// The name, a period and the extension.
    pub open spec fn filename(self) -> Seq<char> {
        self.name + seq!['.'] + self.typ.extension()
    }

    /// The path under which the asset is served.
    pub open spec fn path(self) -> Seq<char> {
        asset_directory() + self.filename()
    }

    /// The address of the asset: the canonical origin followed by its path.
    pub open spec fn url(self) -> Seq<char> {
        asset_origin() + self.path()
    }
}

/// A frontend asset: a file deployed for a build.
#[derive(Debug, Clone, PartialEq, Eq, Hash)]
pub struct FeAsset {
    pub name: String,
    pub typ: FeAssetType,
}

impl View for FeAsset {
    type V = AssetSpec;

    open spec fn view(&self) -> AssetSpec {
        AssetSpec { name: self.name@, typ: self.typ }
    }
}

impl DeepView for FeAsset {
    type V = AssetSpec;

    open spec fn deep_view(&self) -> AssetSpec {
        self@
    }
}

impl FeAsset {
    /// An asset of the given name and kind.
    pub fn new(name: &str, typ: FeAssetType) -> (r: FeAsset)
        ensures
            r@ == (AssetSpec { name: name@, typ }),
    {
        FeAsset { name: name.to_owned(), typ }
    }

    /// A copy of the asset.
    pub fn duplicate(&self) -> (r: FeAsset)
        ensures
            r@ == self@,
    {
        FeAsset { name: self.name.clone(), typ: self.typ }
    }

    /// Whether the name is well formed: one or more of `.`, `0`-`9`, `a`-`z`.
    pub fn has_valid_name(&self) -> (r: bool)
        ensures
            r == is_asset_name(self@.name),
    {
        is_valid_name(self.name.as_str())
    }

    /// Returns the combined name and extension of this asset separated by a
    /// period, akin to a filename.
    pub fn filename(&self) -> (r: String)
        ensures
            r@ == self@.filename(),
    {
        let mut out = self.name.clone();
        out.push('.');
        out.append(self.typ.ext());
        out
    }

    /// Returns the address of this asset: the canonical origin, the asset
    /// directory and the filename.
    pub fn url(&self) -> (r: String)
        ensures
            r@ == self@.url(),
            r@ == asset_origin() + asset_directory() + self@.name + seq!['.']
                + self.typ.extension(),
    {
        let mut out = "https://discord.com".to_owned();
        out.append("/assets/");
        let filename = self.filename();
        out.append(filename.as_str());
        out
    }
}

/// Whether `name` is a well-formed asset name.
pub fn is_valid_name(name: &str) -> (r: bool)
    ensures
        r == is_asset_name(name@),
{
    let chars = to_chars(name);
    if chars.len() == 0 {
        return false;
    }
    let mut i: usize = 0;
    while i < chars.len()
        invariant
            i <= chars@.len(),
            chars@ == name@,
            chars@.len() > 0,
            forall|j: int| 0 <= j < i ==> is_name_char(#[trigger] chars@[j]),
        decreases chars@.len() - i,
    {
        let c = chars[i];
        if !(c == '.' || ('0' <= c && c <= '9') || ('a' <= c && c <= 'z')) {
            assert(!is_name_char(chars@[i as int]));
            return false;
        }
        i += 1;
    }
    true
}

/// The positional roles of the `<script>` tags of the entry page. They are
/// assumptions about a layout that may change at any time.
#[derive(Debug, Clone, Copy, PartialEq, Eq, Hash, Structural)]
pub enum RootScript {
    /// The script that loads the chunks which the page does not reference.
    ChunkLoader,
    /// The chunk that holds the CSS class mappings.
    Classes,
    /// The chunk that holds vendored modules.
    Vendor,
    /// The principal chunk, which holds the bulk of the application.
    Entrypoint,
}

impl RootScript {
    /// The label shown to people.
    pub open spec fn label(self) -> Seq<char> {
        match self {
            RootScript::ChunkLoader => "chunk loader"@,
            RootScript::Classes => "classes"@,
            RootScript::Vendor => "vendor"@,
            RootScript::Entrypoint => "entrypoint"@,
        }
    }

    /// The lowercase name under which the catalog stores the role.
    pub open spec fn name(self) -> Seq<char> {
        match self {
            RootScript::ChunkLoader => "chunkloader"@,
            RootScript::Classes => "classes"@,
            RootScript::Vendor => "vendor"@,
            RootScript::Entrypoint => "entrypoint"@,
        }
    }

    /// Where the role is assumed to stand among `n_scripts` scripts: the
    /// class mappings first, the chunk loader last, the entry point just
    /// before it; vendored modules have no place of their own.
    pub open spec fn index_within(self, n_scripts: nat) -> Option<nat> {
        match self {
            RootScript::ChunkLoader => if n_scripts >= 1 {
                Some((n_scripts - 1) as nat)
            } else {
                None
            },
            RootScript::Classes => Some(0nat),
            RootScript::Entrypoint => if n_scripts >= 2 {
                Some((n_scripts - 2) as nat)
            } else {
                None
            },
            RootScript::Vendor => None,
        }
    }

    /// The order in which a page of exactly four scripts was once laid out.
    /// It serves to label such a page and nothing else.
    pub open spec fn legacy_ordering() -> Seq<RootScript> {
        seq![
            RootScript::ChunkLoader,
            RootScript::Classes,
            RootScript::Vendor,
            RootScript::Entrypoint,
        ]
    }

    /// The label: `chunk loader`, `classes`, `vendor` or `entrypoint`.
    pub fn to_string(&self) -> (r: String)
        ensures
            r@ == self.label(),
    {
        match self {
            RootScript::ChunkLoader => "chunk loader".to_owned(),
            RootScript::Classes => "classes".to_owned(),
            RootScript::Vendor => "vendor".to_owned(),
            RootScript::Entrypoint => "entrypoint".to_owned(),
        }
    }

    /// The catalog name: `chunkloader`, `classes`, `vendor` or `entrypoint`.
    pub fn as_str(&self) -> (r: &'static str)
        ensures
            r@ == self.name(),
    {
        match self {
            RootScript::ChunkLoader => "chunkloader",
            RootScript::Classes => "classes",
            RootScript::Vendor => "vendor",
            RootScript::Entrypoint => "entrypoint",
        }
    }

    /// Given the number of script tags present in the page, returns the
    /// assumed index of the script that has this role.
    pub fn assumed_index_within_scripts(&self, n_scripts: usize) -> (r: Option<usize>)
        ensures
            match self.index_within(n_scripts as nat) {
                Some(i) => r == Some(i as usize),
                None => r is None,
            },
            r matches Some(i) ==> i < n_scripts || (*self is Classes && i == 0),
    {
        match self {
            RootScript::ChunkLoader => n_scripts.checked_sub(1),
            RootScript::Classes => Some(0),
            RootScript::Entrypoint => n_scripts.checked_sub(2),
            RootScript::Vendor => None,
        }
    }

    /// The roles in the legacy order of a page of four scripts.
    pub fn assumed_ordering() -> (r: Vec<RootScript>)
        ensures
            r@ == RootScript::legacy_ordering(),
    {
        let mut out: Vec<RootScript> = Vec::new();
        out.push(RootScript::ChunkLoader);
        out.push(RootScript::Classes);
        out.push(RootScript::Vendor);
        out.push(RootScript::Entrypoint);
        assert(out@ =~= RootScript::legacy_ordering());
        out
    }

    /// The place of the role in the legacy order.
    pub fn asset_index(&self) -> (r: usize)
        ensures
            r < 4,
            RootScript::legacy_ordering()[r as int] == *self,
    {
        match self {
            RootScript::ChunkLoader => 0,
            RootScript::Classes => 1,
            RootScript::Vendor => 2,
            RootScript::Entrypoint => 3,
        }
    }
}

/// The assets of `assets` that are of kind `typ`, in their order.
pub open spec fn of_type(assets: Seq<AssetSpec>, typ: FeAssetType) -> Seq<AssetSpec> {
    assets.filter(|a: AssetSpec| a.typ == typ)
}

/// The script that is assumed to have the role `role` among `assets`.
pub open spec fn root_script(assets: Seq<AssetSpec>, role: RootScript) -> Option<AssetSpec> {
    let scripts = of_type(assets, FeAssetType::Js);
    match role.index_within(scripts.len()) {
        Some(i) => if i < scripts.len() {
            Some(scripts[i as int])
        } else {
            None
        },
        None => None,
    }
}

/// The assets of kind `typ` among `assets`, in their order.
pub fn filter_by_type(assets: &Vec<FeAsset>, typ: FeAssetType) -> (r: Vec<FeAsset>)
    ensures
        r.deep_view() == of_type(assets.deep_view(), typ),
{
    let mut out: Vec<FeAsset> = Vec::new();
    let mut i: usize = 0;
    let ghost pred = |a: AssetSpec| a.typ == typ;
    assert(assets.deep_view().take(0) =~= Seq::<AssetSpec>::empty());
    while i < assets.len()
        invariant
            i <= assets@.len(),
            pred == (|a: AssetSpec| a.typ == typ),
            out.deep_view() == assets.deep_view().take(i as int).filter(pred),
        decreases assets@.len() - i,
    {
        proof {
            let all = assets.deep_view();
            assert(all.take(i as int + 1) =~= all.take(i as int).push(all[i as int]));
            all.take(i as int).lemma_filter_push(all[i as int], pred);
        }
        if assets[i].typ == typ {
            let ghost before = out.deep_view();
            out.push(assets[i].duplicate());
            assert(out.deep_view() =~= before.push(assets@[i as int]@));
        }
        i += 1;
    }
    assert(assets.deep_view().take(i as int) =~= assets.deep_view());
    out
}

/// Tries to find the script that stands at the assumed index of a role.
pub fn find_root_script(assets: &Vec<FeAsset>, role: RootScript) -> (r: Option<FeAsset>)
    ensures
        match root_script(assets.deep_view(), role) {
            Some(a) => r matches Some(found) && found@ == a,
            None => r is None,
        },
{
    let scripts = filter_by_type(assets, FeAssetType::Js);
    assert(scripts.deep_view().len() == scripts@.len());
    match role.assumed_index_within_scripts(scripts.len()) {
        Some(i) => {
            if i < scripts.len() {
                assert(scripts.deep_view()[i as int] == scripts@[i as int]@);
                Some(scripts[i].duplicate())
            } else {
                None
            }
        },
        None => None,
    }
}

/// A collection of assets, in the order in which they were found.
#[derive(Debug, Clone, PartialEq, Eq, Hash)]
pub struct Assets {
    /// The contained assets.
    pub inner: Vec<FeAsset>,
}

impl View for Assets {
    type V = Seq<AssetSpec>;

    open spec fn view(&self) -> Seq<AssetSpec> {
        self.inner.deep_view()
    }
}

impl Assets {
    /// An empty collection.
    pub fn new() -> (r: Assets)
        ensures
            r@ == Seq::<AssetSpec>::empty(),
    {
        let r = Assets { inner: Vec::new() };
        assert(r@ =~= Seq::<AssetSpec>::empty());
        r
    }

    /// The collection of the given assets, in their order.
    pub fn with_assets(assets: Vec<FeAsset>) -> (r: Assets)
        ensures
            r@ == assets.deep_view(),
            r.inner == assets,
    {
        Assets { inner: assets }
    }

    /// The number of assets.
    pub fn len(&self) -> (r: usize)
        ensures
            r == self@.len(),
    {
        self.inner.len()
    }

    /// All assets of a certain kind within this collection, in their order.
    pub fn filter_by_type(&self, typ: FeAssetType) -> (r: Vec<FeAsset>)
        ensures
            r.deep_view() == of_type(self@, typ),
    {
        filter_by_type(&self.inner, typ)
    }

    /// Tries to find the script that stands at the assumed index of a role.
    pub fn find_root_script(&self, role: RootScript) -> (r: Option<FeAsset>)
        ensures
            match root_script(self@, role) {
                Some(a) => r matches Some(found) && found@ == a,
                None => r is None,
            },
    {
        find_root_script(&self.inner, role)
    }
}

/// What can be asked of any list of assets.
pub trait AssetsExt {
    /// The assets of the list, as mathematics.
    spec fn listed(&self) -> Seq<AssetSpec>;

    /// All assets of a certain kind within the list, in their order.
    fn filter_by_type(&self, typ: FeAssetType) -> (r: Vec<FeAsset>)
        ensures
            r.deep_view() == of_type(self.listed(), typ),
    ;

    /// Tries to find the script that stands at the assumed index of a role.
    fn find_root_script(&self, root_script_type: RootScript) -> (r: Option<FeAsset>)
        ensures
            match root_script(self.listed(), root_script_type) {
                Some(a) => r matches Some(found) && found@ == a,
                None => r is None,
            },
    ;
}

impl AssetsExt for Vec<FeAsset> {
    open spec fn listed(&self) -> Seq<AssetSpec> {
        self.deep_view()
    }

    fn filter_by_type(&self, typ: FeAssetType) -> (r: Vec<FeAsset>) {
        filter_by_type(self, typ)
    }

    fn find_root_script(&self, root_script_type: RootScript) -> (r: Option<FeAsset>) {
        find_root_script(self, root_script_type)
    }
}

impl AssetsExt for Assets {
    open spec fn listed(&self) -> Seq<AssetSpec> {
        self@
    }

    fn filter_by_type(&self, typ: FeAssetType) -> (r: Vec<FeAsset>) {
        filter_by_type(&self.inner, typ)
    }

    fn find_root_script(&self, root_script_type: RootScript) -> (r: Option<FeAsset>) {
        find_root_script(&self.inner, root_script_type)
    }
}

/// The path of an asset's address is the asset directory, the name, a period
/// and the extension; the address is that path behind the canonical origin.
pub proof fn url_path(a: AssetSpec)
    ensures
        a.path() == asset_directory() + a.name + seq!['.'] + a.typ.extension(),
        a.url() == asset_origin() + a.path(),
        a.url().subrange(asset_origin().len() as int, a.url().len() as int) == a.path(),
{
    assert(a.path() =~= asset_directory() + a.name + seq!['.'] + a.typ.extension());
    assert(a.url().subrange(asset_origin().len() as int, a.url().len() as int) =~= a.path());
}

} // verus!
