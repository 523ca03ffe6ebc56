use havoc::asset::{Assets, FeAsset, FeAssetType};
use havoc::branch::Branch;
use havoc::manifest::FeManifest;
use havoc::scrape::{
    assets_from_matches, branch_page_url, build_information_script, chunk_loader_script,
    chunks_from_matches, extract_assets_from_chunk_loader, extract_assets_from_tags,
    header_to_str, is_valid_chunk_name, match_static_build_information, read_build_information,
    scrape_fe_build, scrape_fe_manifest, NetworkError, ScrapeError, Target, MISSING_BUILD_SCRIPT,
};

const PAGE: &str = concat_page();

const fn concat_page() -> &'static str {
    "<!DOCTYPE html><html><head>\
<link href=\"/assets/eeeeeeeeeeeeeeeeeeee.css\" rel=\"stylesheet\">\
</head><body>\
<script src=\"/assets/aaaaaaaaaaaaaaaaaaaa.js\" integrity=\"x\"></script>\
<script src=\"/assets/bbbbbbbbbbbbbbbbbbbb.js\" integrity=\"y\"></script>\
<script src=\"/assets/cccccccccccccccccccc.js\" integrity=\"z\"></script>\
<script src=\"/assets/dddddddddddddddddddd.js\" integrity=\"w\"></script>\
</body></html>"
}

fn js(name: &str) -> FeAsset {
    FeAsset::new(name, FeAssetType::Js)
}

fn css(name: &str) -> FeAsset {
    FeAsset::new(name, FeAssetType::Css)
}

fn manifest(scripts: &[&str]) -> FeManifest {
    let mut assets: Vec<FeAsset> = scripts.iter().map(|name| js(name)).collect();
    assets.push(css("style"));
    FeManifest { branch: Branch::Canary, hash: "h1".to_owned(), assets: Assets::with_assets(assets) }
}

#[test]
fn scripts_come_first_then_stylesheets_each_in_document_order() {
    let assets = extract_assets_from_tags(PAGE);
    assert_eq!(
        assets,
        vec![
            js("aaaaaaaaaaaaaaaaaaaa"),
            js("bbbbbbbbbbbbbbbbbbbb"),
            js("cccccccccccccccccccc"),
            js("dddddddddddddddddddd"),
            css("eeeeeeeeeeeeeeeeeeee"),
        ]
    );
}

#[test]
fn tags_interleaved_in_the_page_are_grouped_by_kind() {
    let page = "<link href=\"/assets/sa.css\"><script src=\"/assets/ja.js\">\
<link href=\"/assets/sb.css\"><script src=\"/assets/jb.js\">";
    assert_eq!(extract_assets_from_tags(page), vec![js("ja"), js("jb"), css("sa"), css("sb")]);
}

#[test]
fn only_well_formed_names_are_extracted() {
    let page = "<script src=\"/assets/Upper.js\"><script src=\"/assets/.js\">\
<script src=\"/assets/ok.0.js\"><script src=\"/other/x.js\"><script src=\"/assets/a_b.js\">\
<link href=\"/assets/no-dash.css\"><link rel=\"x\" href=\"/assets/late.css\">\
<link href=\"/assets/fine.css\">";
    let assets = extract_assets_from_tags(page);
    assert_eq!(assets, vec![js("ok.0"), css("fine")]);
    for asset in &assets {
        assert!(asset.has_valid_name());
    }
    assert_eq!(extract_assets_from_tags(""), vec![]);
    assert_eq!(extract_assets_from_tags("no tags here"), vec![]);
}

#[test]
fn a_name_may_hold_periods_and_the_longest_match_is_taken() {
    let page = "<script src=\"/assets/a.js.b.js\">";
    assert_eq!(extract_assets_from_tags(page), vec![js("a.js.b")]);
}

#[test]
fn matches_without_a_well_formed_first_group_are_passed_over() {
    let matches = vec![
        vec![Some("whole".to_owned()), Some("good.1".to_owned())],
        vec![Some("whole".to_owned()), Some("Bad".to_owned())],
        vec![Some("whole".to_owned()), None],
        vec![Some("whole".to_owned())],
        vec![],
        vec![Some("whole".to_owned()), Some("".to_owned())],
        vec![Some("whole".to_owned()), Some("z".to_owned()), Some("more".to_owned())],
    ];
    assert_eq!(assets_from_matches(&matches, FeAssetType::Css), vec![css("good.1"), css("z")]);
    assert_eq!(assets_from_matches(&vec![], FeAssetType::Js), vec![]);
}

#[test]
fn manifest_is_made_of_page_and_header() {
    let manifest = scrape_fe_manifest(Branch::Canary, PAGE, Some(b"h1")).unwrap();
    assert_eq!(manifest.branch, Branch::Canary);
    assert_eq!(manifest.hash, "h1");
    assert_eq!(manifest.assets.len(), 5);
    assert_eq!(manifest.assets.inner[0], js("aaaaaaaaaaaaaaaaaaaa"));
    assert_eq!(manifest.assets.inner[4], css("eeeeeeeeeeeeeeeeeeee"));
}

#[test]
fn broken_html_lacks_a_stylesheet() {
    let page = "<html><script src=\"/assets/aaaaaaaaaaaaaaaaaaaa.js\"></script></html>";
    assert_eq!(
        scrape_fe_manifest(Branch::Stable, page, Some(b"h1")),
        Err(ScrapeError::MissingBranchPageAssets("couldn't find at least one stylesheet"))
    );
}

#[test]
fn a_page_without_assets_or_scripts_is_refused() {
    assert_eq!(
        scrape_fe_manifest(Branch::Stable, "<html></html>", Some(b"h1")),
        Err(ScrapeError::MissingBranchPageAssets("no assets were found whatsoever"))
    );
    assert_eq!(
        scrape_fe_manifest(Branch::Stable, "<link href=\"/assets/s.css\">", Some(b"h1")),
        Err(ScrapeError::MissingBranchPageAssets("couldn't find at least one script"))
    );
}

#[test]
fn a_lack_of_assets_is_told_before_a_lack_of_the_header() {
    assert_eq!(
        scrape_fe_manifest(Branch::Stable, "<html></html>", None),
        Err(ScrapeError::MissingBranchPageAssets("no assets were found whatsoever"))
    );
}

#[test]
fn a_missing_or_malformed_build_identifier_is_refused() {
    assert_eq!(
        scrape_fe_manifest(Branch::Ptb, PAGE, None),
        Err(ScrapeError::MissingNetworkBuildInformation)
    );
    assert_eq!(
        scrape_fe_manifest(Branch::Ptb, PAGE, Some(b"h\xff1")),
        Err(ScrapeError::Network(NetworkError::MalforedHeader))
    );
    assert_eq!(
        scrape_fe_manifest(Branch::Ptb, PAGE, Some(b"h\n1")),
        Err(ScrapeError::Network(NetworkError::MalforedHeader))
    );
}

#[test]
fn header_values_are_visible_ascii() {
    assert_eq!(header_to_str(b"abc 123\t~"), Some("abc 123\t~".to_owned()));
    assert_eq!(header_to_str(b""), Some(String::new()));
    assert_eq!(header_to_str(b"\x7f"), None);
    assert_eq!(header_to_str(b"\x1f"), None);
    assert_eq!(header_to_str(b"caf\xc3\xa9"), None);
}

#[test]
fn header_text_agrees_with_the_http_crate() {
    let values: [&[u8]; 6] = [b"h1", b"a b\tc", b"", b"\x7f", b"x\xffy", b"~!@"];
    for value in values {
        let expected = isahc::http::HeaderValue::from_bytes(value)
            .ok()
            .and_then(|v| v.to_str().ok().map(|s| s.to_owned()));
        if isahc::http::HeaderValue::from_bytes(value).is_ok() {
            assert_eq!(header_to_str(value), expected);
        }
    }
}

#[test]
fn build_information_as_once_written() {
    let js = "x=1;console.log(\"Build Number: 42, Version Hash: 0a1b2c\");y=2";
    assert_eq!(match_static_build_information(js), Ok(("0a1b2c".to_owned(), 42)));
}

#[test]
fn bundler_split_build_info() {
    let js = "a(\"Build Number: \").concat(\"99\",\", Version Hash: \").concat(\"a2\"))";
    assert_eq!(match_static_build_information(js), Ok(("a2".to_owned(), 99)));
}

#[test]
fn the_split_form_is_looked_for_first() {
    let js = "Build Number: 1, Version Hash: aa \
Build Number: \").concat(\"2\",\", Version Hash: \").concat(\"bb\")";
    assert_eq!(match_static_build_information(js), Ok(("bb".to_owned(), 2)));
}

#[test]
fn the_leftmost_match_is_taken() {
    let js = "Build Number: 7, Version Hash: aa; Build Number: 8, Version Hash: bb";
    assert_eq!(match_static_build_information(js), Ok(("aa".to_owned(), 7)));
}

#[test]
fn a_version_hash_is_hexadecimal() {
    assert_eq!(
        match_static_build_information("Build Number: 42, Version Hash: h1"),
        Err(ScrapeError::MissingStaticBuildInformation)
    );
    assert_eq!(
        match_static_build_information(
            "Build Number: \").concat(\"99\",\", Version Hash: \").concat(\"h2\")"
        ),
        Err(ScrapeError::MissingStaticBuildInformation)
    );
}

#[test]
fn missing_or_oversized_build_numbers_are_refused() {
    assert_eq!(
        match_static_build_information("nothing of the kind"),
        Err(ScrapeError::MissingStaticBuildInformation)
    );
    assert_eq!(
        match_static_build_information("Build Number: 4294967296, Version Hash: ab"),
        Err(ScrapeError::MissingStaticBuildInformation)
    );
    assert_eq!(
        match_static_build_information("Build Number: 4294967295, Version Hash: ab"),
        Ok(("ab".to_owned(), u32::MAX))
    );
    assert_eq!(
        match_static_build_information("Build Number: \u{661}\u{662}, Version Hash: ab"),
        Err(ScrapeError::MissingStaticBuildInformation)
    );
}

#[test]
fn build_information_is_read_from_the_groups_of_a_match() {
    let groups = vec![Some("whole".to_owned()), Some("12".to_owned()), Some("ab".to_owned())];
    assert_eq!(read_build_information(&groups), Ok(("ab".to_owned(), 12)));
    let short = vec![Some("whole".to_owned()), Some("12".to_owned())];
    assert_eq!(read_build_information(&short), Err(ScrapeError::MissingStaticBuildInformation));
    let absent = vec![Some("whole".to_owned()), None, Some("ab".to_owned())];
    assert_eq!(read_build_information(&absent), Err(ScrapeError::MissingStaticBuildInformation));
    let words = vec![Some("whole".to_owned()), Some("x".to_owned()), Some("ab".to_owned())];
    assert_eq!(read_build_information(&words), Err(ScrapeError::MissingStaticBuildInformation));
}

#[test]
fn build_keeps_the_hash_of_the_manifest() {
    let build =
        scrape_fe_build(manifest(&["a", "b"]), b"Build Number: 42, Version Hash: 0a1").unwrap();
    assert_eq!(build.number, 42);
    assert_eq!(build.manifest.hash, "h1");
    assert_eq!(build.manifest.branch, Branch::Canary);
    assert_eq!(build.manifest.assets.len(), 3);
}

#[test]
fn build_script_that_is_no_utf8_or_lacks_the_information_is_refused() {
    assert_eq!(
        scrape_fe_build(manifest(&["a", "b"]), b"Build Number: 42, \xff Version Hash: 0a1").err(),
        Some(ScrapeError::Decoding)
    );
    assert_eq!(
        scrape_fe_build(manifest(&["a", "b"]), b"var x = 1;").err(),
        Some(ScrapeError::MissingStaticBuildInformation)
    );
}

#[test]
fn a_manifest_without_a_script_before_the_last_makes_no_build() {
    let content = b"Build Number: 42, Version Hash: 0a1";
    assert_eq!(
        scrape_fe_build(manifest(&["a"]), content).err(),
        Some(ScrapeError::MissingBranchPageAssets(MISSING_BUILD_SCRIPT))
    );
    assert_eq!(
        scrape_fe_build(manifest(&[]), content).err(),
        Some(ScrapeError::MissingBranchPageAssets(MISSING_BUILD_SCRIPT))
    );
    assert_eq!(
        scrape_fe_build(manifest(&["a"]), b"\xff").err(),
        Some(ScrapeError::MissingBranchPageAssets(MISSING_BUILD_SCRIPT))
    );
    assert_eq!(scrape_fe_build(manifest(&["a", "b"]), content).unwrap().number, 42);
}

#[test]
fn the_build_information_is_looked_for_in_the_script_before_the_last() {
    assert_eq!(build_information_script(&manifest(&["a", "b", "c", "d"])), Ok(js("c")));
    assert_eq!(build_information_script(&manifest(&["a", "b"])), Ok(js("a")));
    assert_eq!(
        build_information_script(&manifest(&["a"])),
        Err(ScrapeError::MissingBranchPageAssets("couldn't find a script before the last"))
    );
    assert_eq!(MISSING_BUILD_SCRIPT, "couldn't find a script before the last");
    assert_eq!(chunk_loader_script(&manifest(&["a", "b", "c"])), Ok(js("c")));
    assert_eq!(
        chunk_loader_script(&manifest(&[])),
        Err(ScrapeError::MissingBranchPageAssets("chunk loader"))
    );
}

#[test]
fn script_chunks_are_read_up_to_the_landmark() {
    let loader = b"f.u=function(e){return\"\"+({1:\"0123456789abcdef0123\",\
22:\"aaaaaaaaaaaaaaaaaaaa\",333:\"ffffffffffffffffffff\"})[e]+\".js\"},\
f.k=function(e){return ({4:\"bbbbbbbbbbbbbbbbbbbb\"})[e]+\".css\"}";
    assert_eq!(
        extract_assets_from_chunk_loader(loader),
        Ok(vec![
            (1, js("0123456789abcdef0123")),
            (22, js("aaaaaaaaaaaaaaaaaaaa")),
            (333, js("ffffffffffffffffffff")),
        ])
    );
}

#[test]
fn a_chunk_loader_without_landmark_or_utf8_is_refused() {
    assert_eq!(
        extract_assets_from_chunk_loader(b"{1:\"0123456789abcdef0123\"}"),
        Err(ScrapeError::MissingStaticBuildInformation)
    );
    assert_eq!(
        extract_assets_from_chunk_loader(b"\xc3(+\".js\""),
        Err(ScrapeError::Decoding)
    );
    assert_eq!(extract_assets_from_chunk_loader(b"+\".js\""), Ok(vec![]));
}

#[test]
fn chunk_entries_need_twenty_hex_digits_and_a_number_of_32_bits() {
    let loader = b"{1:\"0123456789abcdef012\",2:\"0123456789ABCDEF0123\",\
99999999999:\"0123456789abcdef0123\",5:\"0123456789abcdef01234\",\
6:\"0123456789abcdef0123\"}+\".js\"";
    assert_eq!(
        extract_assets_from_chunk_loader(loader),
        Ok(vec![(6, js("0123456789abcdef0123"))])
    );
    assert!(is_valid_chunk_name("0123456789abcdef0123"));
    assert!(!is_valid_chunk_name("0123456789abcdef012"));
    assert!(!is_valid_chunk_name("0123456789abcdef012g"));
    let matches = vec![
        vec![Some("w".to_owned()), Some("7".to_owned()), Some("0123456789abcdef0123".to_owned())],
        vec![Some("w".to_owned()), Some("x".to_owned()), Some("0123456789abcdef0123".to_owned())],
        vec![Some("w".to_owned()), Some("8".to_owned()), None],
        vec![Some("w".to_owned()), Some("9".to_owned())],
    ];
    assert_eq!(chunks_from_matches(&matches), vec![(7, js("0123456789abcdef0123"))]);
}

#[test]
fn targets_are_a_source_and_a_branch() {
    assert_eq!(Target::from_str("fe:canary"), Ok(Target::Frontend(Branch::Canary)));
    assert_eq!(Target::from_str("fe:stable"), Ok(Target::Frontend(Branch::Stable)));
    assert_eq!(Target::from_str("fe:ptb"), Ok(Target::Frontend(Branch::Ptb)));
    assert_eq!(Target::from_str("fe:development"), Err("branch has no frontend"));
    assert_eq!(Target::from_str("fe:nightly"), Err("invalid branch"));
    assert_eq!(Target::from_str("fe:"), Err("invalid branch"));
    assert_eq!(Target::from_str("fe:canary:x"), Err("invalid branch"));
    assert_eq!(Target::from_str("be:canary"), Err("unknown source"));
    assert_eq!(Target::from_str(":canary"), Err("unknown source"));
    assert_eq!(Target::from_str("fecanary"), Err("missing colon"));
    assert_eq!(Target::from_str(""), Err("missing colon"));
}

#[test]
fn branch_pages_are_under_channels_me() {
    assert_eq!(branch_page_url(Branch::Stable), "https://discord.com/channels/@me");
    assert_eq!(branch_page_url(Branch::Canary), "https://canary.discord.com/channels/@me");
    assert_eq!(branch_page_url(Branch::Ptb), "https://ptb.discord.com/channels/@me");
}

#[test]
fn errors_have_messages() {
    assert_eq!(ScrapeError::Decoding.to_string(), "malformed utf-8");
    assert_eq!(
        ScrapeError::MissingBranchPageAssets("chunk loader").to_string(),
        "branch page is missing assets: chunk loader"
    );
    assert_eq!(
        ScrapeError::MissingStaticBuildInformation.to_string(),
        "missing static build information"
    );
    assert_eq!(
        ScrapeError::MissingNetworkBuildInformation.to_string(),
        "missing networked build information"
    );
    assert_eq!(ScrapeError::Network(NetworkError::MalforedHeader).to_string(), "network error");
    assert_eq!(NetworkError::MalforedHeader.to_string(), "encountered malformed HTTP header");
    assert_eq!(NetworkError::Isahc("x".to_owned()).to_string(), "isahc error");
    assert_eq!(NetworkError::Http("x".to_owned()).to_string(), "http error");
    assert_eq!(NetworkError::Io("x".to_owned()).to_string(), "failed to perform i/o");
}
