use havoc::asset::{
    filter_by_type, find_root_script, is_valid_name, Assets, AssetsExt, FeAsset, FeAssetType,
    RootScript,
};
use havoc::branch::Branch;
use havoc::manifest::{Artifact, FeBuild, FeManifest};
use std::collections::HashSet;

fn scripts_and_styles(names: &[&str]) -> Vec<FeAsset> {
    let mut assets = Vec::new();
    for name in names {
        assets.push(FeAsset::new(name, FeAssetType::Js));
    }
    assets.push(FeAsset::new("style", FeAssetType::Css));
    assets
}

fn build(branch: Branch, hash: &str, number: u32, scripts: &[&str]) -> FeBuild {
    FeBuild {
        manifest: FeManifest {
            branch,
            hash: hash.to_owned(),
            assets: Assets::with_assets(scripts_and_styles(scripts)),
        },
        number,
    }
}

#[test]
fn filename_joins_name_and_extension() {
    let asset = FeAsset::new("0123abc", FeAssetType::Js);
    assert_eq!(asset.filename(), "0123abc.js");
}

#[test]
fn url_is_origin_directory_and_filename() {
    let asset = FeAsset::new("0123abc", FeAssetType::Css);
    assert_eq!(asset.url(), "https://discord.com/assets/0123abc.css");
}

#[test]
fn url_path_is_assets_name_and_extension_for_every_kind() {
    let kinds = [
        (FeAssetType::Css, "css"),
        (FeAssetType::Js, "js"),
        (FeAssetType::Ico, "ico"),
        (FeAssetType::Svg, "svg"),
        (FeAssetType::Webm, "webm"),
        (FeAssetType::Webp, "webp"),
        (FeAssetType::Gif, "gif"),
    ];
    for (kind, ext) in kinds {
        assert_eq!(kind.ext(), ext);
        let asset = FeAsset::new("a.b9", kind);
        let url = asset.url();
        let path = url.strip_prefix("https://discord.com").unwrap();
        assert_eq!(path, format!("/assets/a.b9.{}", ext));
    }
}

#[test]
fn asset_names_are_periods_digits_and_lowercase_letters() {
    assert!(is_valid_name("abc.012.xyz"));
    assert!(is_valid_name("."));
    assert!(!is_valid_name(""));
    assert!(!is_valid_name("Abc"));
    assert!(!is_valid_name("a-b"));
    assert!(!is_valid_name("a/b"));
    assert!(!is_valid_name("caf\u{e9}"));
    assert!(FeAsset::new("0a", FeAssetType::Js).has_valid_name());
    assert!(!FeAsset::new("0A", FeAssetType::Js).has_valid_name());
}

#[test]
fn branch_names_colors_and_frontends() {
    assert_eq!(Branch::Stable.to_string(), "Stable");
    assert_eq!(Branch::Ptb.to_string(), "PTB");
    assert_eq!(Branch::Canary.to_string(), "Canary");
    assert_eq!(Branch::Development.to_string(), "Development");
    assert_eq!(Branch::Ptb.as_str(), "ptb");
    assert_eq!(Branch::Ptb.variant_name(), "Ptb");
    assert_eq!(Branch::Stable.color(), 0x7289da);
    assert_eq!(Branch::Ptb.color(), 0x99aab5);
    assert_eq!(Branch::Canary.color(), 0xf1c40f);
    assert_eq!(Branch::Development.color(), 0x4d4d4d);
    assert!(Branch::Stable.has_frontend());
    assert!(Branch::Ptb.has_frontend());
    assert!(Branch::Canary.has_frontend());
    assert!(!Branch::Development.has_frontend());
    assert_eq!(Branch::Stable.base(), "https://discord.com");
    assert_eq!(Branch::Ptb.base(), "https://ptb.discord.com");
    assert_eq!(Branch::Canary.base(), "https://canary.discord.com");
}

#[test]
fn branch_is_read_from_its_lowercase_name() {
    assert_eq!(Branch::from_str("stable"), Ok(Branch::Stable));
    assert_eq!(Branch::from_str("ptb"), Ok(Branch::Ptb));
    assert_eq!(Branch::from_str("canary"), Ok(Branch::Canary));
    assert_eq!(Branch::from_str("development"), Ok(Branch::Development));
    assert_eq!(Branch::from_str("Canary"), Err(()));
    assert_eq!(Branch::from_str(""), Err(()));
    for branch in [Branch::Stable, Branch::Ptb, Branch::Canary, Branch::Development] {
        assert_eq!(Branch::from_str(branch.as_str()), Ok(branch));
    }
}

#[test]
fn assumed_indices_of_root_scripts() {
    assert_eq!(RootScript::Classes.assumed_index_within_scripts(0), Some(0));
    assert_eq!(RootScript::Classes.assumed_index_within_scripts(5), Some(0));
    assert_eq!(RootScript::ChunkLoader.assumed_index_within_scripts(0), None);
    assert_eq!(RootScript::ChunkLoader.assumed_index_within_scripts(1), Some(0));
    assert_eq!(RootScript::ChunkLoader.assumed_index_within_scripts(5), Some(4));
    assert_eq!(RootScript::Entrypoint.assumed_index_within_scripts(0), None);
    assert_eq!(RootScript::Entrypoint.assumed_index_within_scripts(1), None);
    assert_eq!(RootScript::Entrypoint.assumed_index_within_scripts(2), Some(0));
    assert_eq!(RootScript::Entrypoint.assumed_index_within_scripts(5), Some(3));
    assert_eq!(RootScript::Vendor.assumed_index_within_scripts(4), None);
}

#[test]
fn legacy_ordering_of_root_scripts() {
    assert_eq!(
        RootScript::assumed_ordering(),
        vec![
            RootScript::ChunkLoader,
            RootScript::Classes,
            RootScript::Vendor,
            RootScript::Entrypoint
        ]
    );
    assert_eq!(RootScript::ChunkLoader.asset_index(), 0);
    assert_eq!(RootScript::Classes.asset_index(), 1);
    assert_eq!(RootScript::Vendor.asset_index(), 2);
    assert_eq!(RootScript::Entrypoint.asset_index(), 3);
    assert_eq!(RootScript::ChunkLoader.to_string(), "chunk loader");
    assert_eq!(RootScript::Classes.to_string(), "classes");
    assert_eq!(RootScript::Vendor.to_string(), "vendor");
    assert_eq!(RootScript::Entrypoint.to_string(), "entrypoint");
    assert_eq!(RootScript::ChunkLoader.as_str(), "chunkloader");
}

#[test]
fn filter_keeps_the_order_of_one_kind() {
    let assets = vec![
        FeAsset::new("a", FeAssetType::Js),
        FeAsset::new("s", FeAssetType::Css),
        FeAsset::new("b", FeAssetType::Js),
        FeAsset::new("i", FeAssetType::Ico),
        FeAsset::new("c", FeAssetType::Js),
    ];
    let scripts = filter_by_type(&assets, FeAssetType::Js);
    assert_eq!(
        scripts,
        vec![
            FeAsset::new("a", FeAssetType::Js),
            FeAsset::new("b", FeAssetType::Js),
            FeAsset::new("c", FeAssetType::Js)
        ]
    );
    assert_eq!(filter_by_type(&assets, FeAssetType::Gif), vec![]);
    let collection = Assets::with_assets(assets);
    assert_eq!(collection.len(), 5);
    assert_eq!(collection.filter_by_type(FeAssetType::Css), vec![FeAsset::new("s", FeAssetType::Css)]);
    assert_eq!(Assets::new().len(), 0);
}

#[test]
fn root_scripts_are_found_by_their_assumed_places() {
    let assets = scripts_and_styles(&["a", "b", "c", "d", "e"]);
    assert_eq!(
        find_root_script(&assets, RootScript::Classes),
        Some(FeAsset::new("a", FeAssetType::Js))
    );
    assert_eq!(
        find_root_script(&assets, RootScript::ChunkLoader),
        Some(FeAsset::new("e", FeAssetType::Js))
    );
    assert_eq!(
        find_root_script(&assets, RootScript::Entrypoint),
        Some(FeAsset::new("d", FeAssetType::Js))
    );
    assert_eq!(find_root_script(&assets, RootScript::Vendor), None);
    let none = scripts_and_styles(&[]);
    assert_eq!(find_root_script(&none, RootScript::Classes), None);
    assert_eq!(find_root_script(&none, RootScript::ChunkLoader), None);
    let one = Assets::with_assets(scripts_and_styles(&["a"]));
    assert_eq!(one.find_root_script(RootScript::ChunkLoader), Some(FeAsset::new("a", FeAssetType::Js)));
    assert_eq!(one.find_root_script(RootScript::Entrypoint), None);
}

#[test]
fn builds_are_equal_where_their_numbers_are() {
    let a = build(Branch::Canary, "h1", 42, &["a", "b"]);
    let b = build(Branch::Stable, "h2", 42, &["c"]);
    let c = build(Branch::Canary, "h1", 43, &["a", "b"]);
    assert!(a == b);
    assert!(a != c);
}

#[test]
fn equal_builds_hash_alike() {
    let mut seen = HashSet::new();
    seen.insert(build(Branch::Canary, "h1", 42, &["a", "b"]));
    assert!(seen.contains(&build(Branch::Stable, "h2", 42, &["c"])));
    assert!(!seen.contains(&build(Branch::Canary, "h1", 43, &["a", "b"])));
}

#[test]
fn descriptions_and_dump_prefixes() {
    let b = build(Branch::Ptb, "abc", 1234, &["a", "b"]);
    assert_eq!(b.to_string(), "Discord Ptb 1234 (abc)");
    assert_eq!(b.dump_prefix(), "fe_ptb_1234");
    assert_eq!(b.manifest.to_string(), "Discord Ptb (3 asset(s))");
    assert_eq!(b.manifest.dump_prefix(), "fe_ptb");
    assert_eq!(b.assets().len(), 3);
    let artifact = Artifact::Build(b.clone());
    assert_eq!(artifact.dump_prefix(), "fe_ptb_1234");
    assert_eq!(artifact.to_string(), "Discord Ptb 1234 (abc)");
    assert_eq!(artifact.assets().len(), 3);
    let surface = Artifact::Manifest(b.manifest.clone());
    assert_eq!(surface.dump_prefix(), "fe_ptb");
    assert_eq!(surface.to_string(), "Discord Ptb (3 asset(s))");
}

#[test]
fn any_list_of_assets_answers_the_same_questions() {
    let assets = scripts_and_styles(&["a", "b", "c"]);
    assert_eq!(
        AssetsExt::filter_by_type(&assets, FeAssetType::Css),
        vec![FeAsset::new("style", FeAssetType::Css)]
    );
    assert_eq!(
        AssetsExt::find_root_script(&assets, RootScript::Entrypoint),
        Some(FeAsset::new("b", FeAssetType::Js))
    );
    let collection = Assets::with_assets(assets);
    assert_eq!(AssetsExt::filter_by_type(&collection, FeAssetType::Js).len(), 3);
    assert_eq!(
        AssetsExt::find_root_script(&collection, RootScript::ChunkLoader),
        Some(FeAsset::new("c", FeAssetType::Js))
    );
}
