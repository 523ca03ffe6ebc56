use havoc::asset::{Assets, FeAsset, FeAssetType, RootScript};
use havoc::branch::Branch;
use havoc::manifest::{FeBuild, FeManifest};
use havoc::report::{
    asset_detail, asset_name, describe_chunk_loader, list_assets, print_build, role_to_list,
};

fn build(scripts: &[&str]) -> FeBuild {
    let mut assets = vec![FeAsset::new("style", FeAssetType::Css)];
    for name in scripts {
        assets.push(FeAsset::new(name, FeAssetType::Js));
    }
    FeBuild {
        manifest: FeManifest {
            branch: Branch::Canary,
            hash: "h1".to_owned(),
            assets: Assets::with_assets(assets),
        },
        number: 42,
    }
}

#[test]
fn asset_lines_show_the_filename_and_a_detail() {
    let asset = FeAsset::new("abc", FeAssetType::Js);
    assert_eq!(asset_name(&asset, false), "abc.js");
    assert_eq!(
        asset_name(&asset, true),
        "\x1b]8;;https://discord.com/assets/abc.js\x1b\\abc.js\x1b]8;;\x1b\\"
    );
    assert_eq!(asset_detail(Some("classes")), " (classes)");
    assert_eq!(asset_detail(None), "");
    assert_eq!(describe_chunk_loader(0), "chunk loader, 0 script chunks");
    assert_eq!(describe_chunk_loader(1234), "chunk loader, 1234 script chunks");
    assert_eq!(print_build(&build(&["a", "b"])), "surface assets (3):");
}

#[test]
fn scripts_are_labelled_on_a_page_of_four() {
    assert_eq!(role_to_list(0, 4), Some(RootScript::ChunkLoader));
    assert_eq!(role_to_list(1, 4), Some(RootScript::Classes));
    assert_eq!(role_to_list(2, 4), Some(RootScript::Vendor));
    assert_eq!(role_to_list(3, 4), Some(RootScript::Entrypoint));
    assert_eq!(role_to_list(4, 4), None);
    assert_eq!(role_to_list(0, 3), None);
    assert_eq!(role_to_list(0, 5), None);
    let listed = list_assets(&build(&["a", "b", "c", "d"]));
    assert_eq!(
        listed,
        vec![
            (FeAsset::new("a", FeAssetType::Js), Some(RootScript::ChunkLoader)),
            (FeAsset::new("b", FeAssetType::Js), Some(RootScript::Classes)),
            (FeAsset::new("c", FeAssetType::Js), Some(RootScript::Vendor)),
            (FeAsset::new("d", FeAssetType::Js), Some(RootScript::Entrypoint)),
            (FeAsset::new("style", FeAssetType::Css), None),
        ]
    );
    let listed = list_assets(&build(&["a", "b"]));
    assert_eq!(
        listed,
        vec![
            (FeAsset::new("a", FeAssetType::Js), None),
            (FeAsset::new("b", FeAssetType::Js), None),
            (FeAsset::new("style", FeAssetType::Css), None),
        ]
    );
}
