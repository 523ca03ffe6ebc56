//! The catalog as a relational store keeps it: the tables of builds, of
//! deploys, of assets and of the assets of each build, and what each
//! operation of the persistence layer does to them.

use vstd::prelude::*;

use crate::asset::{AssetSpec, FeAsset};
use crate::branch::Branch;
use crate::catalog::{
    asset_rows, catalog_rows, chunk_ids_fit, AssetRow, AssetRowSpec, PersistenceError,
};
use crate::manifest::{BuildSpec, FeBuild};
use crate::webpack::ChunkId;

verus! {

/// The hash of the latest of the deploys `deploys[..upto]` on `branch`.
pub open spec fn last_deploy_on(deploys: Seq<(Seq<char>, Branch)>, upto: nat, branch: Branch)
    -> Option<Seq<char>>
    decreases upto,
{
    if upto == 0 || upto > deploys.len() {
        None
    } else if deploys[upto - 1].1 == branch {
        Some(deploys[upto - 1].0)
    } else {
        last_deploy_on(deploys, (upto - 1) as nat, branch)
    }
}

/// Whether a row of `builds` is the row of the build `hash`.
pub open spec fn has_hash(hash: Seq<char>) -> spec_fn((Seq<char>, i32)) -> bool {
    |row: (Seq<char>, i32)| row.0 == hash
}

/// The tables of the catalog, as mathematics. Rows stand in the order in
/// which they were written.
pub struct CatalogSpec {
    /// `builds`: the hash and the number of each build.
    pub builds: Seq<(Seq<char>, i32)>,
    /// `build_deploys`: the hash of a build and the branch it was detected
    /// on, a row for each detection.
    pub build_deploys: Seq<(Seq<char>, Branch)>,
    /// `assets`: a row for each asset.
    pub assets: Seq<AssetRowSpec>,
    /// `build_assets`: the hash of a build and the name of one of its
    /// assets.
    pub build_assets: Seq<(Seq<char>, Seq<char>)>,
}

impl CatalogSpec {
    /// The empty catalog.
    pub open spec fn empty() -> CatalogSpec {
        CatalogSpec {
            builds: Seq::empty(),
            build_deploys: Seq::empty(),
            assets: Seq::empty(),
            build_assets: Seq::empty(),
        }
    }

    /// The primary keys hold: no build hash, no asset name and no tie of an
    /// asset to a build stands twice.
    pub open spec fn wf(self) -> bool {
        &&& forall|i: int, j: int|
            0 <= i < j < self.builds.len() ==> (#[trigger] self.builds[i]).0 != (
            #[trigger] self.builds[j]).0
        &&& forall|i: int, j: int|
            0 <= i < j < self.assets.len() ==> (#[trigger] self.assets[i]).name != (
            #[trigger] self.assets[j]).name
        &&& forall|i: int, j: int|
            0 <= i < j < self.build_assets.len() ==> #[trigger] self.build_assets[i]
                != #[trigger] self.build_assets[j]
    }

    /// Whether the catalog holds the build `hash`.
    pub open spec fn is_catalogued(self, hash: Seq<char>) -> bool {
        exists|i: int| 0 <= i < self.builds.len() && (#[trigger] self.builds[i]).0 == hash
    }

    /// The number of rows of `builds` for the build `hash`.
    pub open spec fn build_rows(self, hash: Seq<char>) -> nat {
        self.builds.filter(has_hash(hash)).len()
    }

    /// The hash of the build last detected on `branch`.
    pub open spec fn last_known_hash(self, branch: Branch) -> Option<Seq<char>> {
        last_deploy_on(self.build_deploys, self.build_deploys.len(), branch)
    }

    /// The catalog after the build is inserted, unless it holds the hash.
    pub open spec fn with_build(self, hash: Seq<char>, number: i32) -> CatalogSpec {
        if self.is_catalogued(hash) {
            self
        } else {
            CatalogSpec { builds: self.builds.push((hash, number)), ..self }
        }
    }

    /// The catalog after a deploy is recorded: the build is inserted unless
    /// the catalog holds its hash, and a deploy row is added.
    pub open spec fn record_deploy(self, hash: Seq<char>, number: i32, branch: Branch)
        -> CatalogSpec {
        let with_build = self.with_build(hash, number);
        CatalogSpec { build_deploys: with_build.build_deploys.push((hash, branch)), ..with_build }
    }

    /// Whether the catalog holds an asset of the name `name`.
    pub open spec fn holds_asset(self, name: Seq<char>) -> bool {
        exists|i: int| 0 <= i < self.assets.len() && (#[trigger] self.assets[i]).name == name
    }

    /// Whether the catalog ties the asset `name` to the build `hash`.
    pub open spec fn holds_tie(self, hash: Seq<char>, name: Seq<char>) -> bool {
        exists|i: int|
            0 <= i < self.build_assets.len() && #[trigger] self.build_assets[i] == (hash, name)
    }

    /// The catalog after the asset row is inserted, unless it holds the
    /// name, and tied to the build, unless it is tied already.
    pub open spec fn with_asset(self, hash: Seq<char>, row: AssetRowSpec) -> CatalogSpec {
        let assets = if self.holds_asset(row.name) {
            self.assets
        } else {
            self.assets.push(row)
        };
        let build_assets = if self.holds_tie(hash, row.name) {
            self.build_assets
        } else {
            self.build_assets.push((hash, row.name))
        };
        CatalogSpec { assets, build_assets, ..self }
    }

    /// The catalog after the rows `rows[..upto]` are inserted and tied to
    /// the build, one after the other.
    pub open spec fn with_assets(self, hash: Seq<char>, rows: Seq<AssetRowSpec>, upto: nat)
        -> CatalogSpec
        decreases upto,
    {
        if upto == 0 || upto > rows.len() {
            self
        } else {
            self.with_assets(hash, rows, (upto - 1) as nat).with_asset(hash, rows[upto - 1])
        }
    }

    /// The catalog after the assets of a build are catalogued.
    pub open spec fn catalog_assets(self, build: BuildSpec, chunks: Seq<(ChunkId, AssetSpec)>)
        -> CatalogSpec {
        let rows = catalog_rows(build, chunks);
        self.with_assets(build.manifest.hash, rows, rows.len())
    }
}

/// The catalog, held in memory.
#[derive(Debug, Clone)]
pub struct Catalog {
    builds: Vec<(String, i32)>,
    build_deploys: Vec<(String, Branch)>,
    assets: Vec<AssetRow>,
    build_assets: Vec<(String, String)>,
}

impl View for Catalog {
    type V = CatalogSpec;

    closed spec fn view(&self) -> CatalogSpec {
        CatalogSpec {
            builds: Seq::new(
                self.builds@.len(),
                |i: int| (self.builds@[i].0@, self.builds@[i].1),
            ),
            build_deploys: Seq::new(
                self.build_deploys@.len(),
                |i: int| (self.build_deploys@[i].0@, self.build_deploys@[i].1),
            ),
            assets: Seq::new(self.assets@.len(), |i: int| self.assets@[i]@),
            build_assets: Seq::new(
                self.build_assets@.len(),
                |i: int| (self.build_assets@[i].0@, self.build_assets@[i].1@),
            ),
        }
    }
}

impl Catalog {
    /// An empty catalog.
    pub fn new() -> (r: Catalog)
        ensures
            r@ == CatalogSpec::empty(),
            r@.wf(),
    {
        let r = Catalog {
            builds: Vec::new(),
            build_deploys: Vec::new(),
            assets: Vec::new(),
            build_assets: Vec::new(),
        };
        assert(r@.builds =~= Seq::empty());
        assert(r@.build_deploys =~= Seq::empty());
        assert(r@.assets =~= Seq::empty());
        assert(r@.build_assets =~= Seq::empty());
        r
    }

    /// The number of rows of `builds`.
    pub fn build_count(&self) -> (r: usize)
        ensures
            r == self@.builds.len(),
    {
        self.builds.len()
    }

    /// The number of rows of `build_deploys`.
    pub fn deploy_count(&self) -> (r: usize)
        ensures
            r == self@.build_deploys.len(),
    {
        self.build_deploys.len()
    }

    /// The number of rows of `assets`.
    pub fn asset_count(&self) -> (r: usize)
        ensures
            r == self@.assets.len(),
    {
        self.assets.len()
    }

    /// The number of rows of `build_assets`.
    pub fn tie_count(&self) -> (r: usize)
        ensures
            r == self@.build_assets.len(),
    {
        self.build_assets.len()
    }

    /// The number of the build `hash`, if the catalog holds it.
    pub fn build_number(&self, hash: &str) -> (r: Option<i32>)
        ensures
            r is Some == self@.is_catalogued(hash@),
            r matches Some(number) ==> exists|i: int|
                0 <= i < self@.builds.len() && #[trigger] self@.builds[i] == (hash@, number),
    {
        let wanted = hash.to_owned();
        let mut i: usize = 0;
        while i < self.builds.len()
            invariant
                i <= self.builds@.len(),
                wanted@ == hash@,
                forall|j: int| 0 <= j < i ==> (#[trigger] self@.builds[j]).0 != hash@,
            decreases self.builds@.len() - i,
        {
            if self.builds[i].0 == wanted {
                assert(self@.builds[i as int] == (hash@, self.builds@[i as int].1));
                return Some(self.builds[i].1);
            }
            assert(self@.builds[i as int].0 != hash@);
            i += 1;
        }
        None
    }

    /// The row of `assets` for the name `name`, if the catalog holds one.
    pub fn asset(&self, name: &str) -> (r: Option<&AssetRow>)
        ensures
            r is Some == self@.holds_asset(name@),
            r matches Some(row) ==> row@.name == name@ && exists|i: int|
                0 <= i < self@.assets.len() && #[trigger] self@.assets[i] == row@,
    {
        let wanted = name.to_owned();
        let mut i: usize = 0;
        while i < self.assets.len()
            invariant
                i <= self.assets@.len(),
                wanted@ == name@,
                forall|j: int| 0 <= j < i ==> (#[trigger] self@.assets[j]).name != name@,
            decreases self.assets@.len() - i,
        {
            if self.assets[i].name == wanted {
                assert(self@.assets[i as int] == self.assets@[i as int]@);
                return Some(&self.assets[i]);
            }
            assert(self@.assets[i as int].name != name@);
            i += 1;
        }
        None
    }

    fn is_tied(&self, hash: &String, name: &String) -> (r: bool)
        ensures
            r == self@.holds_tie(hash@, name@),
    {
        let mut i: usize = 0;
        while i < self.build_assets.len()
            invariant
                i <= self.build_assets@.len(),
                forall|j: int| 0 <= j < i ==> #[trigger] self@.build_assets[j] != (hash@, name@),
            decreases self.build_assets@.len() - i,
        {
            if self.build_assets[i].0 == *hash && self.build_assets[i].1 == *name {
                assert(self@.build_assets[i as int] == (hash@, name@));
                return true;
            }
            assert(self@.build_assets[i as int] != (hash@, name@));
            i += 1;
        }
        false
    }

    /// Fetches the hash of the build last detected on a branch.
    pub fn last_known_build_hash_on_branch(&self, branch: Branch) -> (r: Option<String>)
        ensures
            match self@.last_known_hash(branch) {
                Some(hash) => r matches Some(found) && found@ == hash,
                None => r is None,
            },
    {
        let mut i: usize = self.build_deploys.len();
        while i > 0
            invariant
                i <= self.build_deploys@.len(),
                self@.last_known_hash(branch) == last_deploy_on(
                    self@.build_deploys,
                    i as nat,
                    branch,
                ),
            decreases i,
        {
            i -= 1;
            assert(self@.build_deploys[i as int] == (
                self.build_deploys@[i as int].0@,
                self.build_deploys@[i as int].1,
            ));
            if self.build_deploys[i].1 == branch {
                return Some(self.build_deploys[i].0.clone());
            }
        }
        None
    }

    /// Checks whether the catalog holds a build.
    pub fn build_hash_is_catalogued(&self, build_hash: &str) -> (r: bool)
        ensures
            r == self@.is_catalogued(build_hash@),
    {
        self.build_number(build_hash).is_some()
    }

    /// Records that a build was detected on a branch, and inserts the build
    /// unless the catalog holds it. A build whose number is beyond the
    /// catalog's column is refused, and the catalog stays as it is.
    pub fn detected_build_change_on_branch(&mut self, build: &FeBuild, branch: Branch) -> (r:
        Result<(), PersistenceError>)
        ensures
            match r {
                Ok(_) => build.number <= i32::MAX && final(self)@ == old(self)@.record_deploy(
                    build@.manifest.hash,
                    build.number as i32,
                    branch,
                ),
                Err(error) => build.number > i32::MAX && error
                    == PersistenceError::BuildNumberOutOfRange && final(self)@ == old(self)@,
            },
            old(self)@.wf() ==> final(self)@.wf(),
    {
        if build.number > i32::MAX as u32 {
            return Err(PersistenceError::BuildNumberOutOfRange);
        }
        proof {
            if old(self)@.wf() {
                record_deploy_keeps_keys(
                    old(self)@,
                    build@.manifest.hash,
                    build.number as i32,
                    branch,
                );
            }
        }
        let hash = build.manifest.hash.clone();
        if !self.build_hash_is_catalogued(hash.as_str()) {
            self.builds.push((hash.clone(), build.number as i32));
            assert(self@.builds =~= old(self)@.builds.push((hash@, build.number as i32)));
        }
        assert(self@.builds =~= old(self)@.with_build(hash@, build.number as i32).builds);
        self.build_deploys.push((hash, branch));
        assert(self@.build_deploys =~= old(self)@.build_deploys.push((hash@, branch)));
        assert(self@.assets =~= old(self)@.assets);
        assert(self@.build_assets =~= old(self)@.build_assets);
        Ok(())
    }

    /// Inserts an asset row unless the catalog holds its name, and ties the
    /// asset to a build unless it is tied already.
    pub fn insert_and_associate(&mut self, build_hash: &String, row: &AssetRow)
        ensures
            final(self)@ == old(self)@.with_asset(build_hash@, row@),
            old(self)@.wf() ==> final(self)@.wf(),
    {
        proof {
            if old(self)@.wf() {
                with_asset_keeps_keys(old(self)@, build_hash@, row@);
            }
        }
        if self.asset(row.name.as_str()).is_none() {
            let copy = AssetRow {
                name: row.name.clone(),
                surface: row.surface,
                surface_script_type: row.surface_script_type,
                script_chunk_id: row.script_chunk_id,
            };
            self.assets.push(copy);
            assert(self@.assets =~= old(self)@.assets.push(row@));
        }
        assert(self@.assets =~= old(self)@.with_asset(build_hash@, row@).assets);
        assert(self@.build_assets =~= old(self)@.build_assets);
        if !self.is_tied(build_hash, &row.name) {
            self.build_assets.push((build_hash.clone(), row.name.clone()));
            assert(self@.build_assets =~= old(self)@.build_assets.push((build_hash@, row@.name)));
        }
        assert(self@.build_assets =~= old(self)@.with_asset(build_hash@, row@).build_assets);
        assert(self@.builds =~= old(self)@.builds);
        assert(self@.build_deploys =~= old(self)@.build_deploys);
    }

    /// Inserts each of the rows unless the catalog holds its name, and ties
    /// each to a build, one row after the other.
    pub fn insert_rows(&mut self, build_hash: &String, rows: &Vec<AssetRow>)
        ensures
            final(self)@ == old(self)@.with_assets(
                build_hash@,
                rows.deep_view(),
                rows.deep_view().len(),
            ),
            old(self)@.wf() ==> final(self)@.wf(),
    {
        proof {
            if old(self)@.wf() {
                with_assets_keeps_keys(
                    old(self)@,
                    build_hash@,
                    rows.deep_view(),
                    rows.deep_view().len(),
                );
            }
        }
        let mut i: usize = 0;
        while i < rows.len()
            invariant
                i <= rows@.len(),
                rows.deep_view().len() == rows@.len(),
                self@ == old(self)@.with_assets(build_hash@, rows.deep_view(), i as nat),
            decreases rows@.len() - i,
        {
            assert(rows.deep_view()[i as int] == rows@[i as int]@);
            self.insert_and_associate(build_hash, &rows[i]);
            i += 1;
        }
    }

    /// Catalogs the assets of a build: the stylesheets of its entry page,
    /// the script chunks of its chunk loader, and the scripts of its entry
    /// page with the roles inferred for them. Where the identifier of a
    /// chunk is beyond the catalog's column nothing is written.
    pub fn catalog_and_extract_assets(&mut self, build: &FeBuild, chunks: &Vec<(ChunkId, FeAsset)>)
        -> (r: Result<(), PersistenceError>)
        ensures
            match r {
                Ok(_) => chunk_ids_fit(chunks.deep_view()) && final(self)@ == old(
                    self,
                )@.catalog_assets(build@, chunks.deep_view()),
                Err(error) => !chunk_ids_fit(chunks.deep_view()) && error
                    == PersistenceError::ChunkIdOutOfRange && final(self)@ == old(self)@,
            },
            old(self)@.wf() ==> final(self)@.wf(),
    {
        match asset_rows(build, chunks) {
            Ok(rows) => {
                self.insert_rows(&build.manifest.hash, &rows);
                Ok(())
            },
            Err(error) => Err(error),
        }
    }
}

/// The number of rows for a hash among builds whose hashes differ from one
/// another: one where a row holds the hash, none otherwise.
pub proof fn rows_of_build(builds: Seq<(Seq<char>, i32)>, hash: Seq<char>)
    requires
        forall|i: int, j: int|
            0 <= i < j < builds.len() ==> (#[trigger] builds[i]).0 != (#[trigger] builds[j]).0,
    ensures
        builds.filter(has_hash(hash)).len() == (if exists|i: int|
            0 <= i < builds.len() && (#[trigger] builds[i]).0 == hash {
            1nat
        } else {
            0nat
        }),
    decreases builds.len(),
{
    reveal(Seq::filter);
    if builds.len() > 0 {
        let rest = builds.drop_last();
        rows_of_build(rest, hash);
        if builds.last().0 == hash {
            assert(builds[builds.len() - 1].0 == hash);
            if exists|i: int| 0 <= i < rest.len() && (#[trigger] rest[i]).0 == hash {
                let i = choose|i: int| 0 <= i < rest.len() && (#[trigger] rest[i]).0 == hash;
                assert(builds[i].0 != builds[builds.len() - 1].0);
            }
        } else if exists|i: int| 0 <= i < builds.len() && (#[trigger] builds[i]).0 == hash {
            let i = choose|i: int| 0 <= i < builds.len() && (#[trigger] builds[i]).0 == hash;
            assert(rest[i].0 == hash);
        } else if exists|i: int| 0 <= i < rest.len() && (#[trigger] rest[i]).0 == hash {
            let i = choose|i: int| 0 <= i < rest.len() && (#[trigger] rest[i]).0 == hash;
            assert(builds[i].0 == hash);
        }
    }
}

/// To record a deploy keeps the primary keys of the catalog.
pub proof fn record_deploy_keeps_keys(
    catalog: CatalogSpec,
    hash: Seq<char>,
    number: i32,
    branch: Branch,
)
    requires
        catalog.wf(),
    ensures
        catalog.record_deploy(hash, number, branch).wf(),
        catalog.record_deploy(hash, number, branch).is_catalogued(hash),
{
    let after = catalog.record_deploy(hash, number, branch);
    if catalog.is_catalogued(hash) {
        let i = choose|i: int| 0 <= i < catalog.builds.len() && (#[trigger] catalog.builds[i]).0 == hash;
        assert(after.builds[i].0 == hash);
    } else {
        assert(after.builds[catalog.builds.len() as int].0 == hash);
        assert forall|i: int, j: int| 0 <= i < j < after.builds.len() implies (
        #[trigger] after.builds[i]).0 != (#[trigger] after.builds[j]).0 by {
            if j < catalog.builds.len() {
                assert(catalog.builds[i].0 != catalog.builds[j].0);
            } else {
                assert(catalog.builds[i].0 != hash);
            }
        }
    }
}

/// To insert and tie an asset keeps the primary keys of the catalog.
pub proof fn with_asset_keeps_keys(catalog: CatalogSpec, hash: Seq<char>, row: AssetRowSpec)
    requires
        catalog.wf(),
    ensures
        catalog.with_asset(hash, row).wf(),
        catalog.with_asset(hash, row).builds == catalog.builds,
        catalog.with_asset(hash, row).build_deploys == catalog.build_deploys,
        catalog.with_asset(hash, row).holds_asset(row.name),
        catalog.with_asset(hash, row).holds_tie(hash, row.name),
{
    let after = catalog.with_asset(hash, row);
    if catalog.holds_asset(row.name) {
        let i = choose|i: int| 0 <= i < catalog.assets.len() && (#[trigger] catalog.assets[i]).name == row.name;
        assert(after.assets[i].name == row.name);
    } else {
        assert(after.assets[catalog.assets.len() as int].name == row.name);
        assert forall|i: int, j: int| 0 <= i < j < after.assets.len() implies (
        #[trigger] after.assets[i]).name != (#[trigger] after.assets[j]).name by {
            if j < catalog.assets.len() {
                assert(catalog.assets[i].name != catalog.assets[j].name);
            } else {
                assert(catalog.assets[i].name != row.name);
            }
        }
    }
    if catalog.holds_tie(hash, row.name) {
        let i = choose|i: int| 0 <= i < catalog.build_assets.len() && #[trigger] catalog.build_assets[i] == (hash, row.name);
        assert(after.build_assets[i] == (hash, row.name));
    } else {
        assert(after.build_assets[catalog.build_assets.len() as int] == (hash, row.name));
        assert forall|i: int, j: int| 0 <= i < j < after.build_assets.len() implies
            #[trigger] after.build_assets[i] != #[trigger] after.build_assets[j] by {
            if j < catalog.build_assets.len() {
                assert(catalog.build_assets[i] != catalog.build_assets[j]);
            } else {
                assert(catalog.build_assets[i] != (hash, row.name));
            }
        }
    }
}

/// An asset row is never updated: every row that the catalog holds stays as
/// it is when an asset is inserted, and a row whose name the catalog holds
/// is not inserted again.
pub proof fn asset_rows_stay(catalog: CatalogSpec, hash: Seq<char>, row: AssetRowSpec)
    ensures
        catalog.assets.len() <= catalog.with_asset(hash, row).assets.len(),
        forall|i: int|
            0 <= i < catalog.assets.len() ==> #[trigger] catalog.with_asset(hash, row).assets[i]
                == catalog.assets[i],
        catalog.holds_asset(row.name) ==> catalog.with_asset(hash, row).assets == catalog.assets,
        catalog.with_asset(hash, row).with_asset(hash, row) == catalog.with_asset(hash, row),
{
    let once = catalog.with_asset(hash, row);
    if catalog.holds_asset(row.name) {
        let i = choose|i: int|
            0 <= i < catalog.assets.len() && (#[trigger] catalog.assets[i]).name == row.name;
        assert(once.assets[i].name == row.name);
    } else {
        assert(once.assets[catalog.assets.len() as int].name == row.name);
    }
    if catalog.holds_tie(hash, row.name) {
        let i = choose|i: int|
            0 <= i < catalog.build_assets.len() && #[trigger] catalog.build_assets[i] == (
                hash,
                row.name,
            );
        assert(once.build_assets[i] == (hash, row.name));
    } else {
        assert(once.build_assets[catalog.build_assets.len() as int] == (hash, row.name));
    }
}

/// To catalog assets keeps the primary keys of the catalog and leaves the
/// builds and the deploys as they are.
pub proof fn with_assets_keeps_keys(
    catalog: CatalogSpec,
    hash: Seq<char>,
    rows: Seq<AssetRowSpec>,
    upto: nat,
)
    requires
        catalog.wf(),
    ensures
        catalog.with_assets(hash, rows, upto).wf(),
        catalog.with_assets(hash, rows, upto).builds == catalog.builds,
        catalog.with_assets(hash, rows, upto).build_deploys == catalog.build_deploys,
    decreases upto,
{
    if upto > 0 && upto <= rows.len() {
        with_assets_keeps_keys(catalog, hash, rows, (upto - 1) as nat);
        with_asset_keeps_keys(
            catalog.with_assets(hash, rows, (upto - 1) as nat),
            hash,
            rows[upto - 1],
        );
    }
}

/// After a deploy of a build on a branch is recorded, the hash last known
/// on that branch is the hash of the build.
pub proof fn recorded_deploy_is_last_known(
    catalog: CatalogSpec,
    hash: Seq<char>,
    number: i32,
    branch: Branch,
)
    ensures
        catalog.record_deploy(hash, number, branch).last_known_hash(branch) == Some(hash),
{
}

/// A deploy recorded on one branch leaves the hash last known on any other
/// branch as it was.
pub proof fn recorded_deploy_leaves_other_branches(
    catalog: CatalogSpec,
    hash: Seq<char>,
    number: i32,
    branch: Branch,
    other: Branch,
)
    requires
        other != branch,
    ensures
        catalog.record_deploy(hash, number, branch).last_known_hash(other)
            == catalog.last_known_hash(other),
{
    let after = catalog.record_deploy(hash, number, branch);
    last_deploy_reads_prefix(
        after.build_deploys,
        catalog.build_deploys,
        catalog.build_deploys.len(),
        other,
    );
}

/// The latest deploy among the first rows does not depend on later rows.
pub proof fn last_deploy_reads_prefix(
    a: Seq<(Seq<char>, Branch)>,
    b: Seq<(Seq<char>, Branch)>,
    upto: nat,
    branch: Branch,
)
    requires
        upto <= a.len(),
        upto <= b.len(),
        forall|i: int| 0 <= i < upto ==> a[i] == b[i],
    ensures
        last_deploy_on(a, upto, branch) == last_deploy_on(b, upto, branch),
    decreases upto,
{
    if upto > 0 {
        last_deploy_reads_prefix(a, b, (upto - 1) as nat, branch);
    }
}

/// After a deploy of a build is recorded, `builds` holds exactly one row
/// for the hash of the build, and it still does after the deploy of the
/// same build is recorded once more, on any branch.
pub proof fn recorded_build_has_one_row(
    catalog: CatalogSpec,
    hash: Seq<char>,
    number: i32,
    branch: Branch,
    again: Branch,
)
    requires
        catalog.wf(),
    ensures
        catalog.record_deploy(hash, number, branch).build_rows(hash) == 1,
        catalog.record_deploy(hash, number, branch).record_deploy(hash, number, again).build_rows(
            hash,
        ) == 1,
        catalog.record_deploy(hash, number, branch).record_deploy(hash, number, again).builds
            == catalog.record_deploy(hash, number, branch).builds,
{
    let once = catalog.record_deploy(hash, number, branch);
    record_deploy_keeps_keys(catalog, hash, number, branch);
    rows_of_build(once.builds, hash);
    let twice = once.record_deploy(hash, number, again);
    record_deploy_keeps_keys(once, hash, number, again);
    rows_of_build(twice.builds, hash);
}

/// A build that the catalog holds keeps exactly one row whatever deploy is
/// recorded after it.
pub proof fn held_build_keeps_one_row(
    catalog: CatalogSpec,
    held: Seq<char>,
    hash: Seq<char>,
    number: i32,
    branch: Branch,
)
    requires
        catalog.wf(),
        catalog.is_catalogued(held),
    ensures
        catalog.build_rows(held) == 1,
        catalog.record_deploy(hash, number, branch).build_rows(held) == 1,
{
    rows_of_build(catalog.builds, held);
    let after = catalog.record_deploy(hash, number, branch);
    record_deploy_keeps_keys(catalog, hash, number, branch);
    rows_of_build(after.builds, held);
    let i = choose|i: int| 0 <= i < catalog.builds.len() && (#[trigger] catalog.builds[i]).0 == held;
    assert(after.builds[i].0 == held);
}

} // verus!
