//! Manifests and builds: what a scrape of a branch yields.

use vstd::prelude::*;
use vstd::std_specs::cmp::PartialEqSpecImpl;
use vstd::string::StringExecFns;

use crate::asset::{AssetSpec, Assets};
use crate::branch::Branch;
use crate::dump::DumpItem;
use crate::text::{decimal, u32_to_string, u64_to_string};

verus! {

/// What a manifest is, as mathematics.
pub struct ManifestSpec {
    pub branch: Branch,
    pub hash: Seq<char>,
    pub assets: Seq<AssetSpec>,
}

impl ManifestSpec {
    /// The line that describes the manifest to people.
    pub open spec fn description(self) -> Seq<char> {
        "Discord "@ + self.branch.variant() + " ("@ + decimal(self.assets.len()) + " asset(s))"@
    }

    /// The prefix of the files dumped from the manifest.
    pub open spec fn dump_prefix(self) -> Seq<char> {
        "fe_"@ + self.branch.name()
    }
}

/// A frontend manifest: the surface of a build. It holds the branch that the
/// build was found on, the identifier that the server reports for it, and
/// the assets of the entry page in the order of their discovery.
#[derive(Debug, Clone, PartialEq, Eq, Hash)]
pub struct FeManifest {
    pub branch: Branch,
    pub hash: String,
    pub assets: Assets,
}

impl View for FeManifest {
    type V = ManifestSpec;

    open spec fn view(&self) -> ManifestSpec {
        ManifestSpec { branch: self.branch, hash: self.hash@, assets: self.assets@ }
    }
}

impl FeManifest {
    /// The line that describes the manifest to people.
    pub fn to_string(&self) -> (r: String)
        ensures
            r@ == self@.description(),
    {
        let mut out = "Discord ".to_owned();
        out.append(self.branch.variant_name());
        out.append(" (");
        let count = u64_to_string(self.assets.len() as u64);
        out.append(count.as_str());
        out.append(" asset(s))");
        out
    }

    /// Returns the assets of the manifest.
    pub fn assets(&self) -> (r: &Assets)
        ensures
            r == &self.assets,
    {
        &self.assets
    }

    /// Returns the prefix of the files dumped from the manifest.
    pub fn dump_prefix(&self) -> (r: String)
        ensures
            r@ == self@.dump_prefix(),
    {
        let mut out = "fe_".to_owned();
        out.append(self.branch.as_str());
        out
    }
}

/// What a build is, as mathematics.
pub struct BuildSpec {
    pub manifest: ManifestSpec,
    pub number: u32,
}

impl BuildSpec {
    /// The line that describes the build to people.
    pub open spec fn description(self) -> Seq<char> {
        "Discord "@ + self.manifest.branch.variant() + " "@ + decimal(self.number as nat) + " ("@
            + self.manifest.hash + ")"@
    }

    /// The prefix of the files dumped from the build.
    pub open spec fn dump_prefix(self) -> Seq<char> {
        "fe_"@ + self.manifest.branch.name() + "_"@ + decimal(self.number as nat)
    }
}

/// A frontend build: a manifest together with the number of the build.
#[derive(Debug, Clone)]
pub struct FeBuild {
    pub manifest: FeManifest,
    pub number: u32,
}

impl View for FeBuild {
    type V = BuildSpec;

    open spec fn view(&self) -> BuildSpec {
        BuildSpec { manifest: self.manifest@, number: self.number }
    }
}

impl PartialEq for FeBuild {
    /// Two builds are equal where their numbers are, whatever else they
    /// hold.
    fn eq(&self, other: &Self) -> (r: bool) {
        self.number == other.number
    }
}

impl PartialEqSpecImpl for FeBuild {
    open spec fn obeys_eq_spec() -> bool {
        true
    }

    open spec fn eq_spec(&self, other: &Self) -> bool {
        self.number == other.number
    }
}

impl Eq for FeBuild {

}

/// `Hash::hash` of `u32` feeds the number to the hasher. Nothing is claimed
/// of the hasher's state.
pub assume_specification<H: std::hash::Hasher>[ <u32 as std::hash::Hash>::hash ](
    value: &u32,
    state: &mut H,
);

impl std::hash::Hash for FeBuild {
    /// Builds hash as their numbers do, so that equal builds hash alike.
    fn hash<H: std::hash::Hasher>(&self, state: &mut H) {
        self.number.hash(state);
    }
}

impl FeBuild {
    /// The line that describes the build to people.
    pub fn to_string(&self) -> (r: String)
        ensures
            r@ == self@.description(),
    {
        let mut out = "Discord ".to_owned();
        out.append(self.manifest.branch.variant_name());
        out.append(" ");
        let number = u32_to_string(self.number);
        out.append(number.as_str());
        out.append(" (");
        out.append(self.manifest.hash.as_str());
        out.append(")");
        out
    }

    /// Returns the assets of the build.
    pub fn assets(&self) -> (r: &Assets)
        ensures
            r == &self.manifest.assets,
    {
        &self.manifest.assets
    }

    /// Returns the prefix of the files dumped from the build.
    pub fn dump_prefix(&self) -> (r: String)
        ensures
            r@ == self@.dump_prefix(),
    {
        let mut out = "fe_".to_owned();
        out.append(self.manifest.branch.as_str());
        out.append("_");
        let number = u32_to_string(self.number);
        out.append(number.as_str());
        out
    }
}

/// Something that can be dumped from: a manifest or a build.
#[derive(Debug, Clone)]
pub enum Artifact {
    Manifest(FeManifest),
    Build(FeBuild),
}

impl Artifact {
    /// The prefix of the files dumped from the artifact.
    pub open spec fn prefix(self) -> Seq<char> {
        match self {
            Artifact::Manifest(manifest) => manifest@.dump_prefix(),
            Artifact::Build(build) => build@.dump_prefix(),
        }
    }

    /// The assets of the artifact.
    pub open spec fn assets_of(self) -> Seq<AssetSpec> {
        match self {
            Artifact::Manifest(manifest) => manifest.assets@,
            Artifact::Build(build) => build.manifest.assets@,
        }
    }

    /// Returns the dump prefix of the artifact, which goes before the names
    /// of the files dumped from it.
    pub fn dump_prefix(&self) -> (r: String)
        ensures
            r@ == self.prefix(),
    {
        match self {
            Artifact::Manifest(manifest) => manifest.dump_prefix(),
            Artifact::Build(build) => build.dump_prefix(),
        }
    }

    /// Returns the assets of the artifact.
    pub fn assets(&self) -> (r: &Assets)
        ensures
            r@ == self.assets_of(),
    {
        match self {
            Artifact::Manifest(manifest) => manifest.assets(),
            Artifact::Build(build) => build.assets(),
        }
    }

    /// Returns the line that describes the artifact to people.
    pub fn to_string(&self) -> (r: String)
        ensures
            r@ == match *self {
                Artifact::Manifest(manifest) => manifest@.description(),
                Artifact::Build(build) => build@.description(),
            },
    {
        match self {
            Artifact::Manifest(manifest) => manifest.to_string(),
            Artifact::Build(build) => build.to_string(),
        }
    }

    /// Returns whether an item can be dumped from the artifact: every item
    /// from a build, none from a manifest.
    pub fn supports_dump_item(&self, item: DumpItem) -> (r: bool)
        ensures
            r == (*self is Build),
    {
        match self {
            Artifact::Manifest(_) => false,
            Artifact::Build(_) => true,
        }
    }
}

} // verus!
