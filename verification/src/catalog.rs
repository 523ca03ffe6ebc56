//! What the detection of a build writes to the catalog: the rows of its
//! deploy and of its assets.

use vstd::prelude::*;
use vstd::string::StringExecFns;

use crate::asset::{filter_by_type, of_type, AssetSpec, FeAsset, FeAssetType, RootScript};
use crate::branch::Branch;
use crate::manifest::{BuildSpec, FeBuild};
use crate::webpack::ChunkId;

verus! {

/// How an asset was detected.
#[derive(Debug, Clone, Copy, PartialEq, Eq, Structural)]
pub enum DetectedAssetKind {
    /// Referenced only by the chunk loader.
    Deep,
    /// Referenced by the entry page.
    Surface,
    /// A script that the entry page references, with the role inferred for
    /// it.
    SurfaceScript(RootScript),
}

impl DetectedAssetKind {
    /// The role of the script, where the kind holds one.
    pub open spec fn role(self) -> Option<RootScript> {
        match self {
            DetectedAssetKind::SurfaceScript(role) => Some(role),
            _ => None,
        }
    }

    /// Whether the entry page references the asset.
    pub fn is_surface(&self) -> (r: bool)
        ensures
            r == !(*self is Deep),
    {
        matches!(self, DetectedAssetKind::Surface | DetectedAssetKind::SurfaceScript(..))
    }
}

/// A row of the `assets` table, as mathematics.
pub struct AssetRowSpec {
    pub name: Seq<char>,
    pub surface: bool,
    pub surface_script_type: Option<RootScript>,
    pub script_chunk_id: Option<i32>,
}

/// A row of the `assets` table. The name is the filename of the asset.
#[derive(Debug, Clone, PartialEq, Eq)]
pub struct AssetRow {
    pub name: String,
    pub surface: bool,
    pub surface_script_type: Option<RootScript>,
    pub script_chunk_id: Option<i32>,
}

impl View for AssetRow {
    type V = AssetRowSpec;

    open spec fn view(&self) -> AssetRowSpec {
        AssetRowSpec {
            name: self.name@,
            surface: self.surface,
            surface_script_type: self.surface_script_type,
            script_chunk_id: self.script_chunk_id,
        }
    }
}

impl DeepView for AssetRow {
    type V = AssetRowSpec;

    open spec fn deep_view(&self) -> AssetRowSpec {
        self@
    }
}

/// The row that stands for an asset detected as `kind`, from the chunk
/// `chunk_id` if any.
pub open spec fn asset_row(asset: AssetSpec, kind: DetectedAssetKind, chunk_id: Option<i32>)
    -> AssetRowSpec {
    AssetRowSpec {
        name: asset.filename(),
        surface: !(kind is Deep),
        surface_script_type: kind.role(),
        script_chunk_id: chunk_id,
    }
}

/// The SQL text that writes a role: `NULL` where there is none, else the
/// quoted name of the role, cast to the type of the column.
pub open spec fn role_sql(role: Option<RootScript>) -> Seq<char> {
    match role {
        Some(role) => "'"@ + role.name() + "'::surface_script_type"@,
        None => "NULL"@,
    }
}

/// The statement that inserts an asset of the role `role`. Its parameters
/// are the name, whether the asset is a surface asset, and the chunk
/// identifier.
pub open spec fn insert_asset_sql(role: Option<RootScript>) -> Seq<char> {
    "INSERT INTO assets (name, surface, surface_script_type, script_chunk_id) VALUES ($1, $2, "@
        + role_sql(role) + ", $3) ON CONFLICT DO NOTHING"@
}

impl AssetRow {
    /// The statement that inserts the row.
    pub fn insert_statement(&self) -> (r: String)
        ensures
            r@ == insert_asset_sql(self.surface_script_type),
    {
        let mut out =
            "INSERT INTO assets (name, surface, surface_script_type, script_chunk_id) VALUES ($1, $2, ".to_owned();
        match self.surface_script_type {
            Some(role) => {
                out.append("'");
                out.append(role.as_str());
                out.append("'::surface_script_type");
                assert(out@ =~=
                    "INSERT INTO assets (name, surface, surface_script_type, script_chunk_id) VALUES ($1, $2, "@
                    + role_sql(self.surface_script_type));
            },
            None => {
                out.append("NULL");
            },
        }
        out.append(", $3) ON CONFLICT DO NOTHING");
        out
    }
}

/// The statement that inserts a build unless the catalog holds it. Its
/// parameters are the hash and the number of the build.
pub const INSERT_BUILD_SQL: &'static str =
    "INSERT INTO builds (build_id, build_number) VALUES ($1, $2) ON CONFLICT DO NOTHING";

/// The statement that records a deploy. Its parameters are the hash of the
/// build and the lowercase name of the branch.
pub const INSERT_DEPLOY_SQL: &'static str =
    "INSERT INTO build_deploys (build_id, branch) VALUES ($1, $2::discord_branch)";

/// The statement that ties an asset to a build unless it is tied already.
/// Its parameters are the hash of the build and the name of the asset.
pub const ASSOCIATE_SQL: &'static str =
    "INSERT INTO build_assets (build_id, asset_name) VALUES ($1, $2) ON CONFLICT DO NOTHING";

/// The query for the hash of the build last deployed on a branch. Its
/// parameter is the lowercase name of the branch.
pub const LAST_KNOWN_HASH_SQL: &'static str =
    "SELECT build_id FROM build_deploys WHERE branch = $1::discord_branch ORDER BY detected_at DESC LIMIT 1";

/// The query that tells whether the catalog holds a build. Its parameter is
/// the hash of the build.
pub const BUILD_CATALOGUED_SQL: &'static str = "SELECT build_id FROM builds WHERE build_id = $1";

/// Prepares the row of one asset for the catalog.
#[derive(Debug, Clone)]
pub struct Cataloger {
    asset: FeAsset,
    chunk_id: Option<i32>,
    kind: DetectedAssetKind,
}

impl Cataloger {
    /// The asset to catalog.
    pub closed spec fn subject(&self) -> AssetSpec {
        self.asset@
    }

    /// The chunk that the asset is the script of, if any.
    pub closed spec fn chunk(&self) -> Option<i32> {
        self.chunk_id
    }

    /// How the asset was detected.
    pub closed spec fn detected(&self) -> DetectedAssetKind {
        self.kind
    }

    /// A cataloger for a surface asset of no chunk.
    pub fn new(asset: &FeAsset) -> (r: Cataloger)
        ensures
            r.subject() == asset@,
            r.chunk() is None,
            r.detected() == DetectedAssetKind::Surface,
    {
        Cataloger { asset: asset.duplicate(), chunk_id: None, kind: DetectedAssetKind::Surface }
    }

    /// The same cataloger for an asset detected as `kind`.
    pub fn kind(self, kind: DetectedAssetKind) -> (r: Cataloger)
        ensures
            r.subject() == self.subject(),
            r.chunk() == self.chunk(),
            r.detected() == kind,
    {
        Cataloger { asset: self.asset, chunk_id: self.chunk_id, kind }
    }

    /// The same cataloger for the script of the chunk `chunk_id`.
    pub fn chunk_id(self, chunk_id: Option<i32>) -> (r: Cataloger)
        ensures
            r.subject() == self.subject(),
            r.chunk() == chunk_id,
            r.detected() == self.detected(),
    {
        Cataloger { asset: self.asset, chunk_id, kind: self.kind }
    }

    /// The row that the cataloger inserts.
    pub fn row(&self) -> (r: AssetRow)
        ensures
            r@ == asset_row(self.subject(), self.detected(), self.chunk()),
    {
        let surface_script_type = match self.kind {
            DetectedAssetKind::SurfaceScript(role) => Some(role),
            _ => None,
        };
        AssetRow {
            name: self.asset.filename(),
            surface: self.kind.is_surface(),
            surface_script_type,
            script_chunk_id: self.chunk_id,
        }
    }

    /// The tie of the asset to a build: the hash of the build and the name
    /// of the asset's row.
    pub fn associate(&self, build: &FeBuild) -> (r: (String, String))
        ensures
            r.0@ == build@.manifest.hash,
            r.1@ == self.subject().filename(),
    {
        (build.manifest.hash.clone(), self.asset.filename())
    }

    /// The statement that inserts the row.
    pub fn insert_statement(&self) -> (r: String)
        ensures
            r@ == insert_asset_sql(self.detected().role()),
    {
        self.row().insert_statement()
    }
}

/// The role inferred for the script at `index` among `n_scripts` scripts:
/// the chunk loader where it is assumed to stand, else the class mappings,
/// else the entry point; any other script has none.
pub open spec fn inferred_role(index: nat, n_scripts: nat) -> Option<RootScript> {
    if RootScript::ChunkLoader.index_within(n_scripts) == Some(index) {
        Some(RootScript::ChunkLoader)
    } else if RootScript::Classes.index_within(n_scripts) == Some(index) {
        Some(RootScript::Classes)
    } else if RootScript::Entrypoint.index_within(n_scripts) == Some(index) {
        Some(RootScript::Entrypoint)
    } else {
        None
    }
}

/// How the script at `index` among `n_scripts` scripts of the entry page is
/// detected: as a surface script of the role inferred for it, or as a plain
/// surface asset.
pub open spec fn script_kind(index: nat, n_scripts: nat) -> DetectedAssetKind {
    match inferred_role(index, n_scripts) {
        Some(role) => DetectedAssetKind::SurfaceScript(role),
        None => DetectedAssetKind::Surface,
    }
}

/// Tells how the script at `index` among `n_scripts` scripts is detected.
pub fn detect_script_kind(index: usize, n_scripts: usize) -> (r: DetectedAssetKind)
    ensures
        r == script_kind(index as nat, n_scripts as nat),
{
    let chunk_loader = RootScript::ChunkLoader.assumed_index_within_scripts(n_scripts);
    let classes = RootScript::Classes.assumed_index_within_scripts(n_scripts);
    let entrypoint = RootScript::Entrypoint.assumed_index_within_scripts(n_scripts);
    if is_index(chunk_loader, index) {
        DetectedAssetKind::SurfaceScript(RootScript::ChunkLoader)
    } else if is_index(classes, index) {
        DetectedAssetKind::SurfaceScript(RootScript::Classes)
    } else if is_index(entrypoint, index) {
        DetectedAssetKind::SurfaceScript(RootScript::Entrypoint)
    } else {
        DetectedAssetKind::Surface
    }
}

fn is_index(assumed: Option<usize>, index: usize) -> (r: bool)
    ensures
        r == (assumed == Some(index)),
{
    match assumed {
        Some(i) => i == index,
        None => false,
    }
}

/// The rows of the stylesheets of the entry page: surface assets.
pub open spec fn stylesheet_rows(stylesheets: Seq<AssetSpec>) -> Seq<AssetRowSpec> {
    Seq::new(
        stylesheets.len(),
        |i: int| asset_row(stylesheets[i], DetectedAssetKind::Surface, None),
    )
}

/// The rows of the script chunks of the chunk loader: deep assets, each
/// with the identifier of its chunk.
pub open spec fn chunk_rows(chunks: Seq<(ChunkId, AssetSpec)>) -> Seq<AssetRowSpec> {
    Seq::new(
        chunks.len(),
        |i: int| asset_row(chunks[i].1, DetectedAssetKind::Deep, Some(chunks[i].0 as i32)),
    )
}

/// The rows of the scripts of the entry page, each detected by its place.
pub open spec fn script_rows(scripts: Seq<AssetSpec>) -> Seq<AssetRowSpec> {
    Seq::new(
        scripts.len(),
        |i: int| asset_row(scripts[i], script_kind(i as nat, scripts.len()), None),
    )
}

/// The rows that the assets of a build put into the catalog: those of the
/// stylesheets of the entry page, then those of the script chunks of the
/// chunk loader, then those of the scripts of the entry page.
pub open spec fn catalog_rows(build: BuildSpec, chunks: Seq<(ChunkId, AssetSpec)>) -> Seq<
    AssetRowSpec,
> {
    stylesheet_rows(of_type(build.manifest.assets, FeAssetType::Css)) + chunk_rows(chunks)
        + script_rows(of_type(build.manifest.assets, FeAssetType::Js))
}

/// Whether the catalog can hold the identifier of every chunk: its column
/// is a signed integer of 32 bits.
pub open spec fn chunk_ids_fit(chunks: Seq<(ChunkId, AssetSpec)>) -> bool {
    forall|i: int| 0 <= i < chunks.len() ==> (#[trigger] chunks[i]).0 <= i32::MAX
}

/// Tells whether the catalog can hold the identifier of every chunk.
pub fn check_chunk_ids(chunks: &Vec<(ChunkId, FeAsset)>) -> (r: bool)
    ensures
        r == chunk_ids_fit(chunks.deep_view()),
{
    let mut i: usize = 0;
    while i < chunks.len()
        invariant
            i <= chunks@.len(),
            forall|j: int| 0 <= j < i ==> (#[trigger] chunks.deep_view()[j]).0 <= i32::MAX,
        decreases chunks@.len() - i,
    {
        if chunks[i].0 > i32::MAX as u32 {
            assert(chunks.deep_view()[i as int].0 > i32::MAX);
            return false;
        }
        assert(chunks.deep_view()[i as int].0 == chunks@[i as int].0);
        i += 1;
    }
    true
}

/// Why the catalog cannot take what it is handed.
#[derive(Debug, Clone, Copy, PartialEq, Eq, Structural)]
pub enum PersistenceError {
    /// The number of a build is beyond the catalog's column, a signed
    /// integer of 32 bits.
    BuildNumberOutOfRange,
    /// The identifier of a chunk is beyond the catalog's column, a signed
    /// integer of 32 bits.
    ChunkIdOutOfRange,
}

impl PersistenceError {
    /// The message of the error.
    pub fn to_string(&self) -> (r: String)
        ensures
            r@ == match *self {
                PersistenceError::BuildNumberOutOfRange => "build number doesn't fit in i32"@,
                PersistenceError::ChunkIdOutOfRange => "chunk ID doesn't fit in i32"@,
            },
    {
        match self {
            PersistenceError::BuildNumberOutOfRange => "build number doesn't fit in i32".to_owned(),
            PersistenceError::ChunkIdOutOfRange => "chunk ID doesn't fit in i32".to_owned(),
        }
    }
}

/// Lists the rows that the assets of a build put into the catalog. Each row
/// is to be inserted unless the catalog holds its name, and tied to the
/// build. Where the identifier of a chunk is beyond the catalog's column no
/// row is listed, and the list is refused.
pub fn asset_rows(build: &FeBuild, chunks: &Vec<(ChunkId, FeAsset)>) -> (r: Result<
    Vec<AssetRow>,
    PersistenceError,
>)
    ensures
        match r {
            Ok(rows) => chunk_ids_fit(chunks.deep_view()) && rows.deep_view() == catalog_rows(
                build@,
                chunks.deep_view(),
            ),
            Err(error) => !chunk_ids_fit(chunks.deep_view()) && error
                == PersistenceError::ChunkIdOutOfRange,
        },
{
    if !check_chunk_ids(chunks) {
        return Err(PersistenceError::ChunkIdOutOfRange);
    }
    let mut out: Vec<AssetRow> = Vec::new();
    let stylesheets = filter_by_type(&build.manifest.assets.inner, FeAssetType::Css);
    let scripts = filter_by_type(&build.manifest.assets.inner, FeAssetType::Js);
    let ghost style_rows = stylesheet_rows(stylesheets.deep_view());
    let ghost deep_rows = chunk_rows(chunks.deep_view());
    let ghost surface_rows = script_rows(scripts.deep_view());
    let mut i: usize = 0;
    while i < stylesheets.len()
        invariant
            i <= stylesheets@.len(),
            stylesheets.deep_view().len() == stylesheets@.len(),
            style_rows == stylesheet_rows(stylesheets.deep_view()),
            out.deep_view() == style_rows.take(i as int),
        decreases stylesheets@.len() - i,
    {
        assert(stylesheets.deep_view()[i as int] == stylesheets@[i as int]@);
        let row = Cataloger::new(&stylesheets[i]).row();
        let ghost before = out.deep_view();
        assert(row@ == style_rows[i as int]);
        out.push(row);
        assert(out.deep_view() =~= before.push(style_rows[i as int]));
        assert(out.deep_view() =~= style_rows.take(i as int + 1));
        i += 1;
    }
    assert(style_rows.take(i as int) =~= style_rows);
    let mut i: usize = 0;
    while i < chunks.len()
        invariant
            i <= chunks@.len(),
            chunks.deep_view().len() == chunks@.len(),
            chunk_ids_fit(chunks.deep_view()),
            deep_rows == chunk_rows(chunks.deep_view()),
            out.deep_view() == style_rows + deep_rows.take(i as int),
        decreases chunks@.len() - i,
    {
        assert(chunks.deep_view()[i as int] == (chunks@[i as int].0, chunks@[i as int].1@));
        assert(chunks.deep_view()[i as int].0 <= i32::MAX);
        let chunk_id: i32 = chunks[i].0 as i32;
        let row = Cataloger::new(&chunks[i].1).kind(DetectedAssetKind::Deep).chunk_id(
            Some(chunk_id),
        ).row();
        let ghost before = out.deep_view();
        assert(row@ == deep_rows[i as int]);
        out.push(row);
        assert(out.deep_view() =~= before.push(deep_rows[i as int]));
        assert(out.deep_view() =~= style_rows + deep_rows.take(i as int + 1));
        i += 1;
    }
    assert(deep_rows.take(i as int) =~= deep_rows);
    let mut i: usize = 0;
    while i < scripts.len()
        invariant
            i <= scripts@.len(),
            scripts.deep_view().len() == scripts@.len(),
            surface_rows == script_rows(scripts.deep_view()),
            out.deep_view() == style_rows + deep_rows + surface_rows.take(i as int),
        decreases scripts@.len() - i,
    {
        assert(scripts.deep_view()[i as int] == scripts@[i as int]@);
        let kind = detect_script_kind(i, scripts.len());
        let row = Cataloger::new(&scripts[i]).kind(kind).row();
        let ghost before = out.deep_view();
        assert(row@ == surface_rows[i as int]);
        out.push(row);
        assert(out.deep_view() =~= before.push(surface_rows[i as int]));
        assert(out.deep_view() =~= style_rows + deep_rows + surface_rows.take(i as int + 1));
        i += 1;
    }
    assert(surface_rows.take(i as int) =~= surface_rows);
    Ok(out)
}

/// The two rows that the detection of a build on a branch writes: the build
/// itself, unless the catalog holds it, and its deploy.
#[derive(Debug, Clone, PartialEq, Eq)]
pub struct DeployRecord {
    /// The hash of the build.
    pub build_id: String,
    /// The number of the build.
    pub build_number: i32,
    /// The lowercase name of the branch.
    pub branch: String,
}

/// Prepares the rows that record the deploy of a build on a branch. A build
/// whose number is beyond the catalog's column is refused.
pub fn deploy_record(build: &FeBuild, branch: Branch) -> (r: Result<
    DeployRecord,
    PersistenceError,
>)
    ensures
        match r {
            Ok(record) => build.number <= i32::MAX && record.build_id@ == build@.manifest.hash
                && record.build_number == build.number && record.branch@ == branch.name(),
            Err(error) => build.number > i32::MAX && error
                == PersistenceError::BuildNumberOutOfRange,
        },
{
    if build.number > i32::MAX as u32 {
        return Err(PersistenceError::BuildNumberOutOfRange);
    }
    Ok(
        DeployRecord {
            build_id: build.manifest.hash.clone(),
            build_number: build.number as i32,
            branch: branch.as_str().to_owned(),
        },
    )
}

} // verus!
